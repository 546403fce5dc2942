//! What the converter reads of a URL: the part from the host on, and the
//! path.

use vstd::prelude::*;

verus! {

/// The error type of the `url` parser.
#[verifier::external_type_specification]
#[verifier::external_body]
pub struct ExParseError(url::ParseError);

/// The parts of an absolute URL that conversion looks at.
#[derive(Debug)]
pub struct ParsedUrl {
    /// The URL in its normal form without scheme and credentials: host, port,
    /// path, query and fragment.
    pub from_host: String,
    /// The path of the URL; `/` where it has none.
    pub path: String,
    /// The whole URL in its normal form.
    pub text: String,
}

/// What a parsed URL holds.
pub struct ParsedUrlView {
    pub from_host: Seq<char>,
    pub path: Seq<char>,
    pub text: Seq<char>,
}

impl View for ParsedUrl {
    type V = ParsedUrlView;

    open spec fn view(&self) -> ParsedUrlView {
        ParsedUrlView { from_host: self.from_host@, path: self.path@, text: self.text@ }
    }
}

/// The parts of a URL from the three texts that its parser hands out.
pub open spec fn url_parts(parts: (Seq<char>, Seq<char>, Seq<char>)) -> ParsedUrlView {
    ParsedUrlView { from_host: parts.0, path: parts.1, text: parts.2 }
}

/// What parsing `input` gives: the parts of an absolute URL, or the reason
/// why `input` is none.
pub open spec fn parsed_url(input: Seq<char>) -> Result<ParsedUrlView, url::ParseError> {
    match url_parse(input) {
        Ok(parts) => Ok(url_parts(parts)),
        Err(error) => Err(error),
    }
}

/// What `Url::parse` makes of a text: for an absolute URL its normal form from
/// the host on, its path and its whole normal form, else the reason why it
/// is none.
pub uninterp spec fn url_parse(input: Seq<char>) -> Result<
    (Seq<char>, Seq<char>, Seq<char>),
    url::ParseError,
>;

/// `url::Url::parse` parses an absolute URL. Of the parsed URL the slice from
/// `Position::BeforeHost` on, `Url::path` and `Url::as_str` are kept. The
/// parser reads nothing but its input, so its result has a name.
#[verifier::external_body]
pub(crate) fn parse_url(input: &str) -> (r: Result<ParsedUrl, url::ParseError>)
    ensures
        match r {
            Ok(parsed) => url_parse(input@) == Ok::<
                (Seq<char>, Seq<char>, Seq<char>),
                url::ParseError,
            >((parsed.from_host@, parsed.path@, parsed.text@)),
            Err(error) => url_parse(input@) == Err::<
                (Seq<char>, Seq<char>, Seq<char>),
                url::ParseError,
            >(error),
        },
{
    match url::Url::parse(input) {
        Ok(url) => Ok(
            ParsedUrl {
                from_host: url[url::Position::BeforeHost..].to_string(),
                path: url.path().to_string(),
                text: url.as_str().to_string(),
            },
        ),
        Err(error) => Err(error),
    }
}

/// The name of the variant of a `url::ParseError`, as `Debug` writes it.
#[verifier::external_body]
pub(crate) fn parse_error_text(error: &url::ParseError) -> String {
    format!("{:?}", error)
}

} // verus!
