//! What a conversion reports beside its records: the errors that made it
//! skip a manga, and the warnings that it hands to a log.

use vstd::prelude::*;
use vstd::string::StringExecFns;
use crate::script_interface::{ScriptError, ScriptErrorView};
use crate::text::{decimal, decimal_of, has_prefix};
use crate::urls::parse_error_text;

verus! {

/// Why a manga could not be converted.
#[derive(Debug)]
pub enum ConversionError {
    /// The public URL failed the check on its path; the text says how.
    URLCheckError(String),
    /// A URL could not be parsed.
    URLParseError(url::ParseError),
    /// A correction failed.
    ScriptError(ScriptError),
}

/// What a conversion error holds.
pub enum ConversionErrorView {
    URLCheckError(Seq<char>),
    URLParseError(url::ParseError),
    ScriptError(ScriptErrorView),
}

impl View for ConversionError {
    type V = ConversionErrorView;

    open spec fn view(&self) -> ConversionErrorView {
        match self {
            ConversionError::URLCheckError(detail) => ConversionErrorView::URLCheckError(detail@),
            ConversionError::URLParseError(error) => ConversionErrorView::URLParseError(*error),
            ConversionError::ScriptError(error) => ConversionErrorView::ScriptError(error@),
        }
    }
}

/// How much of its log a run shows: a line of the level `Info` always, one of
/// the level `Verbose` where more was asked for, one of the level
/// `VeryVerbose` only where everything was asked for.
#[derive(Clone, Copy, Debug, PartialEq, Eq, Structural)]
pub enum LogLevel {
    Info,
    Verbose,
    VeryVerbose,
}

/// One thing that a conversion tells its log.
#[derive(Debug)]
pub enum Warning {
    /// A manga without a source: it was imported from local files.
    LocalManga { title: String },
    /// A manga of a source that the registry does not know; `repeated` where
    /// an earlier manga of the run had the same source.
    UnknownSource { title: String, source_id: i64, repeated: bool },
    /// A manga whose record could not be built.
    ConversionFailed { title: String, source_name: String, base_url: String, error: ConversionError },
    /// A manga of a source for which the knowledge base has no parser.
    ParserNotFound { title: String, source_name: String, base_url: String },
    /// A manga with a chapter whose identifier could not be corrected, so
    /// that the identifier was derived from the uncorrected path.
    ChapterIdFallback { title: String, cause: ScriptError },
}

/// What a warning holds.
pub enum WarningView {
    LocalManga { title: Seq<char> },
    UnknownSource { title: Seq<char>, source_id: i64, repeated: bool },
    ConversionFailed {
        title: Seq<char>,
        source_name: Seq<char>,
        base_url: Seq<char>,
        error: ConversionErrorView,
    },
    ParserNotFound { title: Seq<char>, source_name: Seq<char>, base_url: Seq<char> },
    ChapterIdFallback { title: Seq<char>, cause: ScriptErrorView },
}

impl View for Warning {
    type V = WarningView;

    open spec fn view(&self) -> WarningView {
        match self {
            Warning::LocalManga { title } => WarningView::LocalManga { title: title@ },
            Warning::UnknownSource { title, source_id, repeated } => WarningView::UnknownSource {
                title: title@,
                source_id: *source_id,
                repeated: *repeated,
            },
            Warning::ConversionFailed {
                title,
                source_name,
                base_url,
                error,
            } => WarningView::ConversionFailed {
                title: title@,
                source_name: source_name@,
                base_url: base_url@,
                error: error@,
            },
            Warning::ParserNotFound { title, source_name, base_url } => WarningView::ParserNotFound {
                title: title@,
                source_name: source_name@,
                base_url: base_url@,
            },
            Warning::ChapterIdFallback { title, cause } => WarningView::ChapterIdFallback {
                title: title@,
                cause: cause@,
            },
        }
    }
}

impl WarningView {
    /// The level at which the warning is logged. A local manga is a matter
    /// for a verbose log. The first manga of an unknown source is reported
    /// at the normal level and every further one of that source only to a
    /// very verbose log. The others are reported at the normal level.
    pub open spec fn level(self) -> LogLevel {
        match self {
            WarningView::LocalManga { .. } => LogLevel::Verbose,
            WarningView::UnknownSource { repeated, .. } => if repeated {
                LogLevel::VeryVerbose
            } else {
                LogLevel::Info
            },
            _ => LogLevel::Info,
        }
    }

    /// The start of every message about a manga that was skipped.
    pub open spec fn skipped(title: Seq<char>) -> Seq<char> {
        "Unable to convert '"@ + title + "'"@
    }

    /// The start of a message about a manga of a known source.
    pub open spec fn skipped_from(
        title: Seq<char>,
        source_name: Seq<char>,
        base_url: Seq<char>,
    ) -> Seq<char> {
        Self::skipped(title) + " from source "@ + source_name + " ("@ + base_url + ")"@
    }

    /// The text of the warning up to the error of an outside library that
    /// it ends with, if it ends with one.
    pub open spec fn start(self) -> Seq<char> {
        match self {
            WarningView::LocalManga { title } => Self::skipped(title)
                + ", local manga currently unsupported"@,
            WarningView::UnknownSource { title, source_id, .. } => Self::skipped(title)
                + ", unknown Tachiyomi source (ID "@ + decimal_of(source_id as int) + ")"@,
            WarningView::ConversionFailed { title, source_name, base_url, error } => match error {
                ConversionErrorView::URLParseError(_) => Self::skipped_from(
                    title,
                    source_name,
                    base_url,
                ) + ", a URL failed to be parsed: "@,
                ConversionErrorView::URLCheckError(detail) => Self::skipped_from(
                    title,
                    source_name,
                    base_url,
                ) + ", a URL failed a check: "@ + detail,
                ConversionErrorView::ScriptError(_) => Self::skipped_from(
                    title,
                    source_name,
                    base_url,
                ) + ", runtime error in script occurred: "@,
            },
            WarningView::ParserNotFound { title, source_name, base_url } => Self::skipped_from(
                title,
                source_name,
                base_url,
            ) + ", Kotatsu parser not found"@,
            WarningView::ChapterIdFallback { title, .. } => "Error getting chapter ID for "@ + title
                + ", there may be issues for this manga's chapters. Error: "@,
        }
    }

    /// The warning ends with the error of an outside library, in the words
    /// of that library.
    pub open spec fn quotes_error(self) -> bool {
        match self {
            WarningView::ConversionFailed { error, .. } => !(error is URLCheckError),
            WarningView::ChapterIdFallback { .. } => true,
            _ => false,
        }
    }
}

/// The start of every message about a manga that was skipped.
fn skipped(title: &str) -> (r: String)
    ensures
        r@ == WarningView::skipped(title@),
{
    String::from_str("Unable to convert '").concat(title).concat("'")
}

/// The start of a message about a manga of a known source.
fn skipped_from(title: &str, source_name: &str, base_url: &str) -> (r: String)
    ensures
        r@ == WarningView::skipped_from(title@, source_name@, base_url@),
{
    skipped(title).concat(" from source ").concat(source_name).concat(" (").concat(base_url).concat(
        ")",
    )
}

impl Warning {
    /// The level at which the warning is logged.
    pub fn level(&self) -> (r: LogLevel)
        ensures
            r == self@.level(),
    {
        match self {
            Warning::LocalManga { .. } => LogLevel::Verbose,
            Warning::UnknownSource { repeated, .. } => if *repeated {
                LogLevel::VeryVerbose
            } else {
                LogLevel::Info
            },
            _ => LogLevel::Info,
        }
    }

    /// The text of the warning up to the error that it ends with.
    fn start(&self) -> (r: String)
        ensures
            r@ == self@.start(),
    {
        match self {
            Warning::LocalManga { title } => skipped(title.as_str()).concat(
                ", local manga currently unsupported",
            ),
            Warning::UnknownSource { title, source_id, .. } => skipped(title.as_str()).concat(
                ", unknown Tachiyomi source (ID ",
            ).concat(decimal(*source_id).as_str()).concat(")"),
            Warning::ConversionFailed { title, source_name, base_url, error } => {
                let start = skipped_from(title.as_str(), source_name.as_str(), base_url.as_str());
                match error {
                    ConversionError::URLParseError(_) => start.concat(
                        ", a URL failed to be parsed: ",
                    ),
                    ConversionError::URLCheckError(detail) => start.concat(
                        ", a URL failed a check: ",
                    ).concat(detail.as_str()),
                    ConversionError::ScriptError(_) => start.concat(
                        ", runtime error in script occurred: ",
                    ),
                }
            },
            Warning::ParserNotFound { title, source_name, base_url } => skipped_from(
                title.as_str(),
                source_name.as_str(),
                base_url.as_str(),
            ).concat(", Kotatsu parser not found"),
            Warning::ChapterIdFallback { title, .. } => String::from_str(
                "Error getting chapter ID for ",
            ).concat(title.as_str()).concat(
                ", there may be issues for this manga's chapters. Error: ",
            ),
        }
    }

    /// The line that the log shows for the warning: its text, followed by
    /// the error that it quotes, if it quotes one.
    pub fn message(&self) -> (r: String)
        ensures
            has_prefix(r@, self@.start()),
            !self@.quotes_error() ==> r@ == self@.start(),
    {
        let start = self.start();
        let quoted = match self {
            Warning::ConversionFailed { error: ConversionError::URLParseError(error), .. } => {
                parse_error_text(error)
            },
            Warning::ConversionFailed { error: ConversionError::ScriptError(error), .. } => {
                error.detail()
            },
            Warning::ChapterIdFallback { cause, .. } => cause.detail(),
            _ => String::new(),
        };
        let line = start.concat(quoted.as_str());
        proof {
            assert(line@.subrange(0, self@.start().len() as int) =~= self@.start());
            if !self@.quotes_error() {
                assert(line@ =~= self@.start());
            }
        }
        line
    }
}

} // verus!
