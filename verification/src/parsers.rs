//! The parser knowledge base: the parser records that are mined from the
//! source files of the target ecosystem's parsers.

use vstd::prelude::*;
use vstd::string::StringExecFns;
use crate::correction::{str_eq, string_of};
use crate::kotatsu::{
    clone_opt, clone_texts, opt_text, texts, KotatsuParser, KotatsuParserContentType,
    KotatsuParserView,
};
use crate::neko::views;
use crate::text::{
    find_char, find_text, first_index_of, from_chars, has_suffix, contains_text, matches_at,
    to_chars,
};

verus! {

/// The error type of `regex` for a pattern that does not compile.
#[verifier::external_type_specification]
#[verifier::external_body]
pub struct ExRegexError(regex::Error);

/// A regular expression with the two switches that the patterns of this
/// module use.
#[derive(Debug)]
pub struct Pattern {
    pub text: String,
    pub dot_matches_new_line: bool,
    pub case_insensitive: bool,
}

/// What a pattern holds.
pub struct PatternView {
    pub text: Seq<char>,
    pub dot_matches_new_line: bool,
    pub case_insensitive: bool,
}

impl View for Pattern {
    type V = PatternView;

    open spec fn view(&self) -> PatternView {
        PatternView {
            text: self.text@,
            dot_matches_new_line: self.dot_matches_new_line,
            case_insensitive: self.case_insensitive,
        }
    }
}

/// The texts that the named groups captured in one match; none for a group
/// that took no part in the match.
pub type Capture = Seq<Option<Seq<char>>>;

/// What `regex` finds in a subject: for every match of the pattern, left to
/// right and without overlap, the texts of the named groups `groups`; or the
/// reason why the pattern does not compile.
pub uninterp spec fn regex_matches(
    pattern: Seq<char>,
    dot_matches_new_line: bool,
    case_insensitive: bool,
    groups: Seq<Seq<char>>,
    subject: Seq<char>,
) -> Result<Seq<Seq<Option<Seq<char>>>>, regex::Error>;

/// The texts of the captures of a list of matches.
pub open spec fn capture_texts(found: Seq<Vec<Option<String>>>) -> Seq<Capture> {
    found.map_values(|capture: Vec<Option<String>>| capture@.map_values(|t: Option<String>| opt_text(t)))
}

/// The texts of a list of string slices.
pub open spec fn slice_texts(names: Seq<&str>) -> Seq<Seq<char>> {
    names.map_values(|name: &str| name@)
}

/// `regex::RegexBuilder` compiles the pattern with the two switches, and
/// `regex::Regex::captures_iter` walks the matches in the subject. For each
/// match the text of every group of `groups` is taken with
/// `regex::Captures::name`. Matching reads nothing but the pattern and the
/// subject, so the result has a name; each capture has one entry per group.
#[verifier::external_body]
pub(crate) fn all_captures(pattern: &Pattern, groups: &Vec<&str>, subject: &str) -> (r: Result<
    Vec<Vec<Option<String>>>,
    regex::Error,
>)
    ensures
        match r {
            Ok(found) => regex_matches(
                pattern@.text,
                pattern@.dot_matches_new_line,
                pattern@.case_insensitive,
                slice_texts(groups@),
                subject@,
            ) == Ok::<Seq<Capture>, regex::Error>(capture_texts(found@)) && forall|i: int|
                0 <= i < found@.len() ==> (#[trigger] found@[i]).len() == groups.len(),
            Err(error) => regex_matches(
                pattern@.text,
                pattern@.dot_matches_new_line,
                pattern@.case_insensitive,
                slice_texts(groups@),
                subject@,
            ) == Err::<Seq<Capture>, regex::Error>(error),
        },
{
    let regex = regex::RegexBuilder::new(&pattern.text)
        .dot_matches_new_line(pattern.dot_matches_new_line)
        .case_insensitive(pattern.case_insensitive)
        .build()?;
    let texts = |c: regex::Captures| {
        groups.iter().map(|g| c.name(g).map(|m| m.as_str().to_string())).collect()
    };
    Ok(regex.captures_iter(subject).map(texts).collect())
}

/// The text that `Display` gives a `regex::Error`.
#[verifier::external_body]
pub(crate) fn pattern_error_text(error: &regex::Error) -> String {
    format!("{}", error)
}

/// The matches of a pattern in a subject.
pub open spec fn matches_of(pattern: PatternView, groups: Seq<Seq<char>>, subject: Seq<char>) -> Result<
    Seq<Capture>,
    regex::Error,
> {
    regex_matches(
        pattern.text,
        pattern.dot_matches_new_line,
        pattern.case_insensitive,
        groups,
        subject,
    )
}

/// The text of a capture, or the empty text where the group took no part.
pub open spec fn text_or_empty(capture: Option<Seq<char>>) -> Seq<char> {
    match capture {
        Some(text) => text,
        None => Seq::empty(),
    }
}

/// A character that is no part of a domain in a list of domains: a quote or
/// white space between the entries.
pub open spec fn is_padding(c: char) -> bool {
    c == '"' || c == ' ' || c == '\t' || c == '\n' || c == '\r'
}

/// The state of reading a list of domains: the domains that are complete, and
/// the characters of the one that is being read.
pub struct DomainList {
    pub complete: Seq<Seq<char>>,
    pub current: Seq<char>,
}

impl DomainList {
    /// The domains with the one that is being read closed; an empty one is
    /// left out.
    pub open spec fn closed(self) -> Seq<Seq<char>> {
        if self.current.len() > 0 {
            self.complete.push(self.current)
        } else {
            self.complete
        }
    }
}

/// The state after reading `list`: a comma closes a domain, padding is
/// passed over, any other character belongs to the domain that is being read.
pub open spec fn domains_read(list: Seq<char>) -> DomainList
    decreases list.len(),
{
    if list.len() == 0 {
        DomainList { complete: Seq::empty(), current: Seq::empty() }
    } else {
        let before = domains_read(list.drop_last());
        let c = list.last();
        if c == ',' {
            DomainList { complete: before.closed(), current: Seq::empty() }
        } else if is_padding(c) {
            before
        } else {
            DomainList { complete: before.complete, current: before.current.push(c) }
        }
    }
}

/// The domains of a list of domains: the entries between commas, each
/// without quotes and white space, the empty ones left out.
pub open spec fn domains_in(list: Seq<char>) -> Seq<Seq<char>> {
    domains_read(list).closed()
}

/// The domains of a list of domains.
pub fn split_domains(list: &str) -> (r: Vec<String>)
    ensures
        texts(r@) == domains_in(list@),
{
    let chars = to_chars(list);
    let mut complete: Vec<String> = Vec::new();
    let mut current: Vec<char> = Vec::new();
    let mut i: usize = 0;
    while i < chars.len()
        invariant
            i <= chars.len(),
            texts(complete@) == domains_read(chars@.take(i as int)).complete,
            current@ == domains_read(chars@.take(i as int)).current,
        decreases chars.len() - i,
    {
        let c = chars[i];
        proof {
            assert(chars@.take(i + 1).drop_last() =~= chars@.take(i as int));
        }
        if c == ',' {
            if current.len() > 0 {
                complete.push(string_of(&current));
            }
            current = Vec::new();
        } else if c == '"' || c == ' ' || c == '\t' || c == '\n' || c == '\r' {
        } else {
            current.push(c);
        }
        i += 1;
    }
    assert(chars@.take(chars@.len() as int) =~= chars@);
    if current.len() > 0 {
        complete.push(string_of(&current));
    }
    complete
}

/// A list of domains that is joined from two lists with a comma has the
/// domains of the first, then those of the second.
pub proof fn domains_of_joined_lists(first: Seq<char>, second: Seq<char>)
    ensures
        domains_in(first + seq![','] + second) == domains_in(first) + domains_in(second),
    decreases second.len(),
{
    let joined = first + seq![','] + second;
    if second.len() == 0 {
        assert(joined.drop_last() =~= first);
    } else {
        domains_of_joined_lists(first, second.drop_last());
        let shorter = first + seq![','] + second.drop_last();
        assert(joined.drop_last() =~= shorter);
        lemma_current_after_comma(first, second.drop_last());
        let left = domains_read(shorter);
        let right = domains_read(second.drop_last());
        lemma_complete_is_prefix(left, right, domains_in(first));
        let c = second.last();
        if c == ',' {
        } else if is_padding(c) {
        } else {
        }
    }
}

/// After a comma, the domain that is being read is the one of the text after
/// the comma.
proof fn lemma_current_after_comma(first: Seq<char>, second: Seq<char>)
    ensures
        domains_read(first + seq![','] + second).current == domains_read(second).current,
    decreases second.len(),
{
    let joined = first + seq![','] + second;
    if second.len() == 0 {
    } else {
        assert(joined.drop_last() =~= first + seq![','] + second.drop_last());
        lemma_current_after_comma(first, second.drop_last());
    }
}

/// Two states with the same open domain whose closed lists differ by a
/// prefix have complete lists that differ by that prefix.
proof fn lemma_complete_is_prefix(left: DomainList, right: DomainList, prefix: Seq<Seq<char>>)
    requires
        left.current == right.current,
        left.closed() == prefix + right.closed(),
    ensures
        left.complete == prefix + right.complete,
{
    if left.current.len() > 0 {
        assert(left.complete =~= left.closed().drop_last());
    }
}

/// A list without a comma holds one domain: its text without quotes and
/// white space, or none where nothing is left of it.
pub proof fn domains_of_one_entry(list: Seq<char>)
    requires
        !list.contains(','),
    ensures
        domains_read(list).complete.len() == 0,
        domains_in(list).len() <= 1,
        domains_in(list).len() == 1 ==> domains_in(list)[0] == domains_read(list).current,
        domains_read(list).current == list.filter(|c: char| !is_padding(c)),
    decreases list.len(),
{
    reveal(Seq::filter);
    if list.len() > 0 {
        domains_of_one_entry(list.drop_last());
    }
}

/// The pattern of a parser declaration: the annotation that names a parser,
/// with its title and, where given, its locale and its content type.
pub const PARSER_CAPTURE: &'static str =
    r#"@MangaSourceParser\(.(?P<name>\w*)., .(?P<title>[\w\s\(\)]+).(, .(?P<locale>\w*).(, (?P<type>[\w\.]+))?)?"#;

/// The pattern of a list of domains handed to the configuration key.
pub const DOMAIN_LIST: &'static str = r#"ConfigKey\.Domain\((?P<domains>.+?)\)"#;

/// The pattern of a domain handed to the constructor of a parser base class
/// after the context and the source.
pub const DOMAIN_OF_SOURCE: &'static str =
    r#"\w+\(\s*context,\s*\w+Source\.\w+,\s*"(?P<domain>[\w\.\-/]+)""#;

/// The pattern of a domain handed to a constructor after the context and a
/// manga source.
pub const DOMAIN_OF_MANGA_SOURCE: &'static str =
    r#"\(\s*context,\s*MangaSource\.\w+,\s*.(?P<domain>[\w\.\-/]+)."#;

/// The pattern of a domain handed to a constructor as a named argument.
pub const DOMAIN_ARGUMENT: &'static str =
    r#"\w+\(\s*context = context,\s*source = \w+.\w+,\s*(siteId = \d+,\s*)?(?:site)?Domain = "(?P<domain>[\w\.\-/]+)""#;

/// The path below the root directory under which the parsers of the sites
/// lie.
pub const PARSER_DIRECTORY: &'static str = "/src/main/kotlin/org/koitharu/kotatsu/parsers/site/";

/// A way to find the domains that a parser serves in its source.
#[derive(Debug)]
pub enum DomainCaptureMethod {
    /// The group `domain` of the first match is the one domain.
    Single(Pattern),
    /// The group `domains` of the first match is a list of domains.
    Multiple(Pattern),
}

/// What a way to find domains holds.
pub enum DomainCaptureView {
    Single(PatternView),
    Multiple(PatternView),
}

impl View for DomainCaptureMethod {
    type V = DomainCaptureView;

    open spec fn view(&self) -> DomainCaptureView {
        match self {
            DomainCaptureMethod::Single(pattern) => DomainCaptureView::Single(pattern@),
            DomainCaptureMethod::Multiple(pattern) => DomainCaptureView::Multiple(pattern@),
        }
    }
}

impl DomainCaptureView {
    /// The domains that this way finds in `subject`: none where the pattern
    /// does not match.
    pub open spec fn domains(self, subject: Seq<char>) -> Result<
        Option<Seq<Seq<char>>>,
        regex::Error,
    > {
        match self {
            DomainCaptureView::Single(pattern) => match matches_of(
                pattern,
                seq!["domain"@],
                subject,
            ) {
                Err(error) => Err(error),
                Ok(found) => if found.len() == 0 {
                    Ok(None)
                } else {
                    Ok(Some(seq![text_or_empty(found[0][0])]))
                },
            },
            DomainCaptureView::Multiple(pattern) => match matches_of(
                pattern,
                seq!["domains"@],
                subject,
            ) {
                Err(error) => Err(error),
                Ok(found) => if found.len() == 0 {
                    Ok(None)
                } else {
                    Ok(Some(domains_in(text_or_empty(found[0][0]))))
                },
            },
        }
    }
}

/// The text of the first group of the first match, if the pattern matches.
fn first_capture(pattern: &Pattern, group: &'static str, subject: &str) -> (r: Result<
    Option<String>,
    regex::Error,
>)
    ensures
        match r {
            Err(error) => matches_of(pattern@, seq![group@], subject@) == Err::<
                Seq<Capture>,
                regex::Error,
            >(error),
            Ok(text) => matches_of(pattern@, seq![group@], subject@) matches Ok(found) && match text {
                None => found.len() == 0,
                Some(text) => found.len() > 0 && text@ == text_or_empty(found[0][0]),
            },
        },
{
    let groups: Vec<&str> = vec![group];
    assert(slice_texts(groups@) =~= seq![group@]);
    let found = all_captures(pattern, &groups, subject)?;
    if found.len() == 0 {
        return Ok(None);
    }
    match &found[0][0] {
        Some(text) => Ok(Some(text.clone())),
        None => Ok(Some(String::new())),
    }
}

impl DomainCaptureMethod {
    /// The domains that this way finds in `subject`.
    pub fn capture_domains(&self, subject: &str) -> (r: Result<Option<Vec<String>>, regex::Error>)
        ensures
            match r {
                Err(error) => self@.domains(subject@) == Err::<
                    Option<Seq<Seq<char>>>,
                    regex::Error,
                >(error),
                Ok(None) => self@.domains(subject@) == Ok::<Option<Seq<Seq<char>>>, regex::Error>(
                    None,
                ),
                Ok(Some(domains)) => self@.domains(subject@) == Ok::<
                    Option<Seq<Seq<char>>>,
                    regex::Error,
                >(Some(texts(domains@))),
            },
    {
        match self {
            DomainCaptureMethod::Single(pattern) => {
                match first_capture(pattern, "domain", subject)? {
                    Some(domain) => {
                        let found: Vec<String> = vec![domain];
                        assert(texts(found@) =~= seq![domain@]);
                        Ok(Some(found))
                    },
                    None => Ok(None),
                }
            },
            DomainCaptureMethod::Multiple(pattern) => {
                match first_capture(pattern, "domains", subject)? {
                    Some(list) => Ok(Some(split_domains(list.as_str()))),
                    None => Ok(None),
                }
            },
        }
    }
}

/// A pattern without switches.
fn plain(text: &str) -> (r: Pattern)
    ensures
        r@ == (PatternView { text: text@, dot_matches_new_line: false, case_insensitive: false }),
{
    Pattern { text: String::from_str(text), dot_matches_new_line: false, case_insensitive: false }
}

/// The ways to find domains, in the order in which they are tried.
pub open spec fn domain_methods() -> Seq<DomainCaptureView> {
    seq![
        DomainCaptureView::Multiple(
            PatternView { text: DOMAIN_LIST@, dot_matches_new_line: true, case_insensitive: false },
        ),
        DomainCaptureView::Single(
            PatternView {
                text: DOMAIN_OF_SOURCE@,
                dot_matches_new_line: false,
                case_insensitive: false,
            },
        ),
        DomainCaptureView::Single(
            PatternView {
                text: DOMAIN_OF_MANGA_SOURCE@,
                dot_matches_new_line: false,
                case_insensitive: false,
            },
        ),
        DomainCaptureView::Single(
            PatternView {
                text: DOMAIN_ARGUMENT@,
                dot_matches_new_line: false,
                case_insensitive: true,
            },
        ),
    ]
}

/// The ways to find domains, in the order in which they are tried: the list
/// form first, then the three forms with a single domain.
pub fn domain_capture_methods() -> (r: Vec<DomainCaptureMethod>)
    ensures
        views(r@) == domain_methods(),
{
    let methods = vec![
        DomainCaptureMethod::Multiple(
            Pattern {
                text: String::from_str(DOMAIN_LIST),
                dot_matches_new_line: true,
                case_insensitive: false,
            },
        ),
        DomainCaptureMethod::Single(plain(DOMAIN_OF_SOURCE)),
        DomainCaptureMethod::Single(plain(DOMAIN_OF_MANGA_SOURCE)),
        DomainCaptureMethod::Single(
            Pattern {
                text: String::from_str(DOMAIN_ARGUMENT),
                dot_matches_new_line: false,
                case_insensitive: true,
            },
        ),
    ];
    methods
}

/// The domains that the first `n` ways find in `subject`: those of the first
/// way that finds any; a pattern that does not compile ends the search.
pub open spec fn domains_found(methods: Seq<DomainCaptureView>, subject: Seq<char>, n: int) -> Result<
    Option<Seq<Seq<char>>>,
    regex::Error,
>
    decreases n,
{
    if n <= 0 {
        Ok(None)
    } else {
        match domains_found(methods, subject, n - 1) {
            Err(error) => Err(error),
            Ok(Some(domains)) => Ok(Some(domains)),
            Ok(None) => methods[n - 1].domains(subject),
        }
    }
}

/// The domains that the given ways find in `subject`, tried in order.
pub fn find_domains(methods: &Vec<DomainCaptureMethod>, subject: &str) -> (r: Result<
    Option<Vec<String>>,
    regex::Error,
>)
    ensures
        match r {
            Err(error) => domains_found(views(methods@), subject@, methods@.len() as int) == Err::<
                Option<Seq<Seq<char>>>,
                regex::Error,
            >(error),
            Ok(None) => domains_found(views(methods@), subject@, methods@.len() as int) == Ok::<
                Option<Seq<Seq<char>>>,
                regex::Error,
            >(None),
            Ok(Some(domains)) => domains_found(views(methods@), subject@, methods@.len() as int)
                == Ok::<Option<Seq<Seq<char>>>, regex::Error>(Some(texts(domains@))),
        },
{
    let mut i: usize = 0;
    while i < methods.len()
        invariant
            i <= methods.len(),
            domains_found(views(methods@), subject@, i as int) == Ok::<
                Option<Seq<Seq<char>>>,
                regex::Error,
            >(None),
        decreases methods.len() - i,
    {
        match methods[i].capture_domains(subject) {
            Err(error) => {
                proof {
                    lemma_domains_found_stays(views(methods@), subject@, i + 1);
                }
                return Err(error);
            },
            Ok(Some(domains)) => {
                proof {
                    lemma_domains_found_stays(views(methods@), subject@, i + 1);
                }
                return Ok(Some(domains));
            },
            Ok(None) => {},
        }
        i += 1;
    }
    Ok(None)
}

/// What ends the search among the first `n` ways is the outcome of the whole
/// search.
proof fn lemma_domains_found_stays(methods: Seq<DomainCaptureView>, subject: Seq<char>, n: int)
    requires
        0 <= n <= methods.len(),
        domains_found(methods, subject, n) != Ok::<Option<Seq<Seq<char>>>, regex::Error>(None),
    ensures
        domains_found(methods, subject, methods.len() as int) == domains_found(methods, subject, n),
    decreases methods.len() - n,
{
    if n < methods.len() {
        lemma_domains_found_stays(methods, subject, n + 1);
    }
}

/// The content type that a declaration names; a manga parser where it names
/// none, or one that is not known.
pub open spec fn content_type_of(token: Option<Seq<char>>) -> KotatsuParserContentType {
    if token == Some("ContentType.HENTAI"@) {
        KotatsuParserContentType::Hentai
    } else if token == Some("ContentType.COMICS"@) {
        KotatsuParserContentType::Comics
    } else if token == Some("ContentType.OTHER"@) {
        KotatsuParserContentType::Other
    } else {
        KotatsuParserContentType::Manga
    }
}

/// The groups of a parser declaration, in the order of its capture.
pub open spec fn declaration_groups() -> Seq<Seq<char>> {
    seq!["name"@, "title"@, "locale"@, "type"@]
}

/// The parser record of a declaration, with the domains of its file.
pub open spec fn parser_of(declaration: Capture, domains: Seq<Seq<char>>) -> KotatsuParserView {
    KotatsuParserView {
        name: text_or_empty(declaration[0]),
        title: text_or_empty(declaration[1]),
        locale: declaration[2],
        content_type: content_type_of(declaration[3]),
        domains,
    }
}

/// What is mined from one source file.
pub struct Mined {
    /// The parser records of the file, one for each declaration, in the
    /// order of the declarations.
    pub parsers: Seq<KotatsuParserView>,
    /// The file declares a parser and no way found a domain in it.
    pub without_domains: bool,
}

/// What is mined from a source file with the given contents. A file without
/// a declaration gives nothing and is not searched for domains. Any other
/// gives one parser record for each declaration, all with the domains of the
/// file, which are none where no way finds any.
pub open spec fn mined_from(contents: Seq<char>) -> Result<Mined, regex::Error> {
    match matches_of(
        PatternView { text: PARSER_CAPTURE@, dot_matches_new_line: false, case_insensitive: false },
        declaration_groups(),
        contents,
    ) {
        Err(error) => Err(error),
        Ok(declarations) => if declarations.len() == 0 {
            Ok(Mined { parsers: Seq::empty(), without_domains: false })
        } else {
            match domains_found(domain_methods(), contents, domain_methods().len() as int) {
                Err(error) => Err(error),
                Ok(found) => {
                    let domains = match found {
                        Some(domains) => domains,
                        None => Seq::empty(),
                    };
                    Ok(
                        Mined {
                            parsers: declarations.map_values(
                                |declaration: Capture| parser_of(declaration, domains),
                            ),
                            without_domains: domains.len() == 0,
                        },
                    )
                },
            }
        },
    }
}

/// The text of an optional string, or an empty string.
fn text_of(capture: &Option<String>) -> (r: String)
    ensures
        r@ == text_or_empty(opt_text(*capture)),
{
    match capture {
        Some(text) => text.clone(),
        None => String::new(),
    }
}

/// The content type that a declaration names.
pub fn content_type(token: &Option<String>) -> (r: KotatsuParserContentType)
    ensures
        r == content_type_of(opt_text(*token)),
{
    match token {
        Some(token) => {
            if str_eq(token.as_str(), "ContentType.HENTAI") {
                KotatsuParserContentType::Hentai
            } else if str_eq(token.as_str(), "ContentType.COMICS") {
                KotatsuParserContentType::Comics
            } else if str_eq(token.as_str(), "ContentType.OTHER") {
                KotatsuParserContentType::Other
            } else {
                KotatsuParserContentType::Manga
            }
        },
        None => KotatsuParserContentType::Manga,
    }
}

/// Mines the parser records from the contents of one source file. The
/// second part of the result says that the file declares a parser for which
/// no domain was found.
pub fn mine_parsers(contents: &str) -> (r: Result<(Vec<KotatsuParser>, bool), regex::Error>)
    ensures
        match r {
            Err(error) => mined_from(contents@) == Err::<Mined, regex::Error>(error),
            Ok(mined) => mined_from(contents@) == Ok::<Mined, regex::Error>(
                Mined { parsers: views(mined.0@), without_domains: mined.1 },
            ),
        },
{
    let groups: Vec<&str> = vec!["name", "title", "locale", "type"];
    assert(slice_texts(groups@) =~= declaration_groups());
    let declarations = all_captures(&plain(PARSER_CAPTURE), &groups, contents)?;
    let mut parsers: Vec<KotatsuParser> = Vec::new();
    if declarations.len() == 0 {
        assert(views(parsers@) =~= Seq::<KotatsuParserView>::empty());
        return Ok((parsers, false));
    }
    let methods = domain_capture_methods();
    let domains: Vec<String> = match find_domains(&methods, contents)? {
        Some(domains) => domains,
        None => {
            let none: Vec<String> = Vec::new();
            assert(texts(none@) =~= Seq::<Seq<char>>::empty());
            none
        },
    };
    let ghost wanted = capture_texts(declarations@).map_values(
        |declaration: Capture| parser_of(declaration, texts(domains@)),
    );
    let mut i: usize = 0;
    while i < declarations.len()
        invariant
            i <= declarations.len(),
            parsers.len() == i,
            forall|j: int|
                0 <= j < declarations@.len() ==> (#[trigger] declarations@[j]).len() == 4,
            wanted == capture_texts(declarations@).map_values(
                |declaration: Capture| parser_of(declaration, texts(domains@)),
            ),
            forall|j: int| 0 <= j < i ==> (#[trigger] parsers@[j])@ == wanted[j],
        decreases declarations.len() - i,
    {
        let declaration = &declarations[i];
        parsers.push(
            KotatsuParser {
                name: text_of(&declaration[0]),
                title: text_of(&declaration[1]),
                locale: clone_opt(&declaration[2]),
                content_type: content_type(&declaration[3]),
                domains: clone_texts(&domains),
            },
        );
        i += 1;
    }
    assert(views(parsers@) =~= wanted);
    let without_domains = domains.len() == 0;
    Ok((parsers, without_domains))
}

/// The root directory of an archive of the parser repository: the first path
/// of the archive up to its first slash.
pub open spec fn root_of(first_path: Seq<char>) -> Seq<char> {
    first_path.take(first_index_of(first_path, '/'))
}

/// The path is that of the source of a site parser: it contains the parser
/// directory below the root directory and ends in `.kt`.
pub open spec fn is_parser_path(root: Seq<char>, path: Seq<char>) -> bool {
    contains_text(path, root + PARSER_DIRECTORY@) && has_suffix(path, ".kt"@)
}

/// The root directory of an archive, given its first path.
pub fn archive_root(first_path: &str) -> (r: String)
    ensures
        r@ == root_of(first_path@),
{
    let chars = to_chars(first_path);
    let end = find_char(&chars, '/');
    let root = from_chars(&chars, 0, end);
    root
}

/// Whether the path is that of the source of a site parser.
pub fn is_parser_source(root: &str, path: &str) -> (r: bool)
    ensures
        r == is_parser_path(root@, path@),
{
    let directory = String::from_str(root).concat(PARSER_DIRECTORY);
    let chars = to_chars(path);
    let suffix = to_chars(".kt");
    if find_text(&chars, &to_chars(directory.as_str())).is_none() {
        return false;
    }
    chars.len() >= suffix.len() && matches_at(&chars, &suffix, chars.len() - suffix.len())
}

} // verus!
