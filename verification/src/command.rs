//! What a command-line run decides: how much of the log it shows, what it
//! names its output, and what it reports at the end of a conversion.

use vstd::prelude::*;
use vstd::string::StringExecFns;
use crate::correction::{str_eq, string_of};
use crate::kotatsu::texts;
use crate::report::LogLevel;
use crate::tally::{count_entries, key_index, text_entries, ConversionView, MangaConversionResult};
use crate::text::{
    digits_of, lowercase_of, push_digits, to_chars, trailing_spaces,
};

verus! {

/// How much of its log a run shows.
#[derive(Clone, Copy, Debug, PartialEq, Eq, Structural)]
pub enum CommandVerbosity {
    Quiet,
    Verbose,
    VeryVerbose,
}

impl CommandVerbosity {
    /// The verbosity that the two switches of the command line ask for; the
    /// switch for everything overrides the other.
    pub open spec fn of_flags(very_verbose: bool, verbose: bool) -> CommandVerbosity {
        if very_verbose {
            CommandVerbosity::VeryVerbose
        } else if verbose {
            CommandVerbosity::Verbose
        } else {
            CommandVerbosity::Quiet
        }
    }

    /// A line of the given level is shown.
    pub open spec fn displays(self, level: LogLevel) -> bool {
        match level {
            LogLevel::Info => true,
            LogLevel::Verbose => self != CommandVerbosity::Quiet,
            LogLevel::VeryVerbose => self == CommandVerbosity::VeryVerbose,
        }
    }

    /// The verbosity that the two switches of the command line ask for.
    pub fn from_flags(very_verbose: bool, verbose: bool) -> (r: Self)
        ensures
            r == Self::of_flags(very_verbose, verbose),
    {
        if very_verbose {
            CommandVerbosity::VeryVerbose
        } else if verbose {
            CommandVerbosity::Verbose
        } else {
            CommandVerbosity::Quiet
        }
    }

    /// Whether a warning is shown that is a matter for a verbose log when it
    /// occurs for the first time, and for a very verbose log after that.
    pub fn should_display(&self, has_occurred: bool) -> (r: bool)
        ensures
            r == self.displays(
                if has_occurred {
                    LogLevel::VeryVerbose
                } else {
                    LogLevel::Verbose
                },
            ),
    {
        match *self {
            CommandVerbosity::Quiet => false,
            CommandVerbosity::Verbose => !has_occurred,
            CommandVerbosity::VeryVerbose => true,
        }
    }

    /// Whether a line of the given level is shown.
    pub fn shows(&self, level: LogLevel) -> (r: bool)
        ensures
            r == self.displays(level),
    {
        match level {
            LogLevel::Info => true,
            LogLevel::Verbose => match *self {
                CommandVerbosity::Quiet => false,
                _ => true,
            },
            LogLevel::VeryVerbose => match *self {
                CommandVerbosity::VeryVerbose => true,
                _ => false,
            },
        }
    }
}

/// A verbosity shows every line that a lower one shows.
pub proof fn higher_verbosity_shows_more(level: LogLevel)
    ensures
        CommandVerbosity::Quiet.displays(level) ==> CommandVerbosity::Verbose.displays(level),
        CommandVerbosity::Verbose.displays(level) ==> CommandVerbosity::VeryVerbose.displays(level),
{
}

/// How a command ended.
#[derive(Debug)]
pub enum CommandResult {
    /// Nothing was written.
    Nothing,
    /// A file was written; its path, and the log where it was not printed.
    Success(String, String),
}

/// The name of the output where none is given.
pub fn default_output_name(reverse: bool) -> (r: String)
    ensures
        r@ == if reverse {
            "kotatsu_converted"@
        } else {
            "neko_converted"@
        },
{
    if reverse {
        String::from_str("kotatsu_converted")
    } else {
        String::from_str("neko_converted")
    }
}

/// The extension of the output: that of an origin backup for the reverse
/// direction, else that of an archive.
pub fn output_extension(reverse: bool) -> (r: &'static str)
    ensures
        r@ == if reverse {
            "tachibk"@
        } else {
            "zip"@
        },
{
    if reverse {
        "tachibk"
    } else {
        "zip"
    }
}

/// The answer agrees to overwrite a file: it is `y` or `yes`, whatever the
/// case, white space at its end aside.
pub open spec fn is_yes(answer: Seq<char>) -> bool {
    let said = lowercase_of(answer.take(answer.len() - trailing_spaces(answer)));
    said == "y"@ || said == "yes"@
}

/// Whether the answer agrees to overwrite a file.
pub fn confirms(answer: &str) -> (r: bool)
    ensures
        r == is_yes(answer@),
{
    let chars = to_chars(answer);
    let mut end: usize = chars.len();
    assert(chars@.take(end as int) =~= chars@);
    while end > 0 && crate::text::is_whitespace(chars[end - 1])
        invariant
            end <= chars.len(),
            trailing_spaces(chars@) == (chars.len() - end) + trailing_spaces(
                chars@.take(end as int),
            ),
        decreases end,
    {
        let ghost head = chars@.take(end as int);
        assert(head.drop_last() =~= chars@.take(end - 1));
        end -= 1;
    }
    let said = crate::text::from_chars(&chars, 0, end).as_str().to_lowercase();
    str_eq(said.as_str(), "y") || str_eq(said.as_str(), "yes")
}

/// One line of a report with the level at which it is logged.
pub type ReportLine = (LogLevel, Seq<char>);

/// The decimal text of a count.
pub open spec fn count_text(n: int) -> Seq<char> {
    digits_of(n as nat)
}

/// The texts joined with `", "` between them.
pub open spec fn joined(items: Seq<Seq<char>>, n: int) -> Seq<char>
    decreases n,
{
    if n <= 0 {
        Seq::empty()
    } else if n == 1 {
        items[0]
    } else {
        joined(items, n - 1) + ", "@ + items[n - 1]
    }
}

/// The names of a table.
pub open spec fn keys_of<V>(table: Seq<(Seq<char>, V)>) -> Seq<Seq<char>> {
    table.map_values(|entry: (Seq<char>, V)| entry.0)
}

/// The count that a table holds for a name; 0 where it has none.
pub open spec fn count_of(table: Seq<(Seq<char>, int)>, name: Seq<char>) -> int {
    let index = key_index(table, name);
    if index < table.len() {
        table[index].1
    } else {
        0
    }
}

/// The line of a very verbose report for one source with errors.
pub open spec fn source_line(
    entry: (Seq<char>, Seq<char>),
    counts: Seq<(Seq<char>, int)>,
) -> ReportLine {
    (
        LogLevel::VeryVerbose,
        entry.0 + " ("@ + entry.1 + "), count: "@ + count_text(count_of(counts, entry.0)),
    )
}

/// What a run reports of the sources with errors.
pub open spec fn errored_report(result: ConversionView, verbosity: CommandVerbosity) -> Seq<
    ReportLine,
> {
    match verbosity {
        CommandVerbosity::Quiet => seq![
            (LogLevel::Info, "Try running again with verbose (-v) on for details"@),
        ],
        CommandVerbosity::Verbose => seq![
            (
                LogLevel::Verbose,
                "Sources that errored: "@ + joined(
                    keys_of(result.errored_sources),
                    result.errored_sources.len() as int,
                ),
            ),
        ],
        CommandVerbosity::VeryVerbose => seq![
            (LogLevel::VeryVerbose, "Sources that errorred:"@),
        ] + result.errored_sources.map_values(
            |entry: (Seq<char>, Seq<char>)| source_line(entry, result.errored_sources_count),
        ),
    }
}

/// What a run reports of the sources that the registry does not know.
pub open spec fn unknown_report(result: ConversionView, verbosity: CommandVerbosity) -> Seq<
    ReportLine,
> {
    if result.unknown_sources.len() == 0 {
        Seq::empty()
    } else {
        match verbosity {
            CommandVerbosity::Quiet => Seq::empty(),
            CommandVerbosity::Verbose => seq![
                (
                    LogLevel::Verbose,
                    "Unknown Tachiyomi/Mihon source IDs: "@ + joined(
                        result.unknown_sources,
                        result.unknown_sources.len() as int,
                    ),
                ),
            ],
            CommandVerbosity::VeryVerbose => seq![
                (LogLevel::VeryVerbose, "Unknown Tachiyomi/Mihon source IDs:"@),
            ] + result.unknown_sources.map_values(|id: Seq<char>| (LogLevel::VeryVerbose, id)),
        }
    }
}

/// What a run reports at its end. A run without errors reports how many
/// manga were converted. One with errors reports the counts, then the
/// sources with errors and the unknown sources as far as the verbosity asks
/// for them, then that it is done. A run with soft matching says so last.
pub open spec fn report_of(
    result: ConversionView,
    verbosity: CommandVerbosity,
    soft_match: bool,
    output: Seq<char>,
) -> Seq<ReportLine> {
    let main = if result.errored_manga == 0 {
        seq![
            (
                LogLevel::Info,
                count_text(result.total_manga - result.ignored_manga)
                    + " manga successfully converted ("@ + count_text(result.ignored_manga)
                    + " ignored), output: "@ + output,
            ),
        ]
    } else {
        seq![
            (
                LogLevel::Info,
                count_text(result.errored_manga) + " of "@ + count_text(result.total_manga)
                    + " manga and "@ + count_text(result.errored_sources.len() as int)
                    + " sources failed to convert ("@ + count_text(
                    result.unknown_sources.len() as int,
                ) + " unknown)."@,
            ),
        ] + errored_report(result, verbosity) + unknown_report(result, verbosity) + seq![
            (LogLevel::Info, "Conversion completed with errors, output: "@ + output),
        ] + if verbosity == CommandVerbosity::Verbose {
            seq![
                (
                    LogLevel::Verbose,
                    "Run command with very verbose (-V) to display ALL debug information."@,
                ),
            ]
        } else {
            Seq::empty()
        }
    };
    main + if soft_match {
        seq![
            (
                LogLevel::Info,
                "[IMPORTANT] Command run with 'soft match' on; some sources may not behave as intended"@,
            ),
        ]
    } else {
        Seq::empty()
    }
}

/// The lines of a report with texts for strings.
pub open spec fn line_views(lines: Seq<(LogLevel, String)>) -> Seq<ReportLine> {
    lines.map_values(|line: (LogLevel, String)| (line.0, line.1@))
}

/// The decimal text of a count.
pub fn count(n: usize) -> (r: String)
    ensures
        r@ == count_text(n as int),
{
    let mut digits: Vec<char> = Vec::new();
    push_digits(&mut digits, n as u64);
    string_of(&digits)
}

/// The texts joined with `", "` between them.
pub fn join(items: &Vec<String>) -> (r: String)
    ensures
        r@ == joined(texts(items@), items@.len() as int),
{
    let mut out = String::new();
    let mut i: usize = 0;
    while i < items.len()
        invariant
            i <= items.len(),
            out@ == joined(texts(items@), i as int),
        decreases items.len() - i,
    {
        if i > 0 {
            out = out.concat(", ");
        } else {
        }
        out = out.concat(items[i].as_str());
        i += 1;
    }
    out
}

/// The count that a table holds for a name.
fn count_for(table: &Vec<(String, usize)>, name: &str) -> (r: usize)
    ensures
        r == count_of(count_entries(table@), name@),
{
    let mut i: usize = 0;
    while i < table.len()
        invariant
            i <= table.len(),
            forall|j: int| 0 <= j < i ==> (#[trigger] count_entries(table@)[j]).0 != name@,
        decreases table.len() - i,
    {
        if str_eq(table[i].0.as_str(), name) {
            proof {
                crate::tally::lemma_key_index_is(count_entries(table@), name@, i as int);
            }
            return table[i].1;
        }
        i += 1;
    }
    proof {
        crate::tally::lemma_key_index_is(count_entries(table@), name@, i as int);
    }
    0
}

/// The names of a table from names to texts.
fn names_of(table: &Vec<(String, String)>) -> (r: Vec<String>)
    ensures
        texts(r@) == keys_of(text_entries(table@)),
{
    let mut names: Vec<String> = Vec::new();
    let mut i: usize = 0;
    while i < table.len()
        invariant
            i <= table.len(),
            names.len() == i,
            forall|j: int| 0 <= j < i ==> (#[trigger] names@[j])@ == table@[j].0@,
        decreases table.len() - i,
    {
        names.push(table[i].0.clone());
        i += 1;
    }
    names
}

/// What a run reports of the sources with errors.
fn errored_lines(result: &MangaConversionResult, verbosity: CommandVerbosity) -> (r: Vec<
    (LogLevel, String),
>)
    ensures
        line_views(r@) == errored_report(result@, verbosity),
{
    let mut lines: Vec<(LogLevel, String)> = Vec::new();
    let ghost view = result@;
    match verbosity {
        CommandVerbosity::Quiet => {
            let line = String::from_str("Try running again with verbose (-v) on for details");
            lines.push((LogLevel::Info, line));
        },
        CommandVerbosity::Verbose => {
            let names = names_of(&result.errored_sources);
            let line = String::from_str("Sources that errored: ").concat(join(&names).as_str());
            lines.push((LogLevel::Verbose, line));
            assert(texts(names@).len() == view.errored_sources.len());
        },
        CommandVerbosity::VeryVerbose => {
            lines.push((LogLevel::VeryVerbose, String::from_str("Sources that errorred:")));
            let ghost wanted = errored_report(view, verbosity);
            let mut i: usize = 0;
            while i < result.errored_sources.len()
                invariant
                    i <= result.errored_sources.len(),
                    view == result@,
                    wanted == errored_report(view, CommandVerbosity::VeryVerbose),
                    lines.len() == i + 1,
                    forall|j: int|
                        0 <= j <= i ==> (#[trigger] lines@[j]).0 == wanted[j].0 && lines@[j].1@
                            == wanted[j].1,
                decreases result.errored_sources.len() - i,
            {
                let entry = &result.errored_sources[i];
                let line = entry.0.clone().concat(" (").concat(entry.1.as_str()).concat(
                    "), count: ",
                ).concat(count(count_for(&result.errored_sources_count, entry.0.as_str())).as_str());
                lines.push((LogLevel::VeryVerbose, line));
                i += 1;
            }
        },
    }
    lines
}

/// What a run reports of the sources that the registry does not know.
fn unknown_lines(result: &MangaConversionResult, verbosity: CommandVerbosity) -> (r: Vec<
    (LogLevel, String),
>)
    ensures
        line_views(r@) == unknown_report(result@, verbosity),
{
    let mut lines: Vec<(LogLevel, String)> = Vec::new();
    let ghost view = result@;
    if result.unknown_sources.len() == 0 {
        return lines;
    }
    match verbosity {
        CommandVerbosity::Quiet => {},
        CommandVerbosity::Verbose => {
            let line = String::from_str("Unknown Tachiyomi/Mihon source IDs: ").concat(
                join(&result.unknown_sources).as_str(),
            );
            lines.push((LogLevel::Verbose, line));
        },
        CommandVerbosity::VeryVerbose => {
            lines.push(
                (LogLevel::VeryVerbose, String::from_str("Unknown Tachiyomi/Mihon source IDs:")),
            );
            let ghost wanted = unknown_report(view, verbosity);
            let mut i: usize = 0;
            while i < result.unknown_sources.len()
                invariant
                    i <= result.unknown_sources.len(),
                    view == result@,
                    view.unknown_sources.len() > 0,
                    wanted == unknown_report(view, CommandVerbosity::VeryVerbose),
                    lines.len() == i + 1,
                    forall|j: int|
                        0 <= j <= i ==> (#[trigger] lines@[j]).0 == wanted[j].0 && lines@[j].1@
                            == wanted[j].1,
                decreases result.unknown_sources.len() - i,
            {
                lines.push((LogLevel::VeryVerbose, result.unknown_sources[i].clone()));
                i += 1;
            }
        },
    }
    lines
}

/// The lines of two lists, one after the other.
fn append_lines(lines: &mut Vec<(LogLevel, String)>, more: Vec<(LogLevel, String)>)
    ensures
        line_views(final(lines)@) == line_views(old(lines)@) + line_views(more@),
{
    let mut more = more;
    lines.append(&mut more);
}

/// One more line.
fn push_line(lines: &mut Vec<(LogLevel, String)>, level: LogLevel, text: String)
    ensures
        line_views(final(lines)@) == line_views(old(lines)@) + seq![(level, text@)],
{
    lines.push((level, text));
}

/// What a run reports at its end, line by line, each with the level at
/// which it is logged.
pub fn conversion_report(
    result: &MangaConversionResult,
    verbosity: CommandVerbosity,
    soft_match: bool,
    output: &str,
) -> (r: Vec<(LogLevel, String)>)
    requires
        result.ignored_manga <= result.total_manga,
    ensures
        line_views(r@) == report_of(result@, verbosity, soft_match, output@),
{
    let mut lines: Vec<(LogLevel, String)> = Vec::new();
    if result.errored_manga == 0 {
        let line = count(result.total_manga - result.ignored_manga).concat(
            " manga successfully converted (",
        ).concat(count(result.ignored_manga).as_str()).concat(" ignored), output: ").concat(output);
        push_line(&mut lines, LogLevel::Info, line);
    } else {
        let line = count(result.errored_manga).concat(" of ").concat(
            count(result.total_manga).as_str(),
        ).concat(" manga and ").concat(count(result.errored_sources.len()).as_str()).concat(
            " sources failed to convert (",
        ).concat(count(result.unknown_sources.len()).as_str()).concat(" unknown).");
        push_line(&mut lines, LogLevel::Info, line);
        append_lines(&mut lines, errored_lines(result, verbosity));
        append_lines(&mut lines, unknown_lines(result, verbosity));
        let done = String::from_str("Conversion completed with errors, output: ").concat(output);
        push_line(&mut lines, LogLevel::Info, done);
        match verbosity {
            CommandVerbosity::Verbose => {
                let hint = String::from_str(
                    "Run command with very verbose (-V) to display ALL debug information.",
                );
                push_line(&mut lines, LogLevel::Verbose, hint);
            },
            _ => {},
        }
    }
    if soft_match {
        let note = String::from_str(
            "[IMPORTANT] Command run with 'soft match' on; some sources may not behave as intended",
        );
        push_line(&mut lines, LogLevel::Info, note);
    } else {
    }
    lines
}

/// The line that tells that an entry was left out of the archive.
pub fn omitted_line(name: &str) -> (r: String)
    ensures
        r@ == name@ + " is empty, ommitted from converted backup"@,
{
    String::from_str(name).concat(" is empty, ommitted from converted backup")
}

} // verus!
