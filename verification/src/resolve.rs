//! The source resolver: from the numeric id of a source of the origin
//! ecosystem to the canonical name of the parser that serves it.

use vstd::prelude::*;
use vstd::string::StringExecFns;
use crate::extensions::{first_with_id, ExtensionList, SourceInfo, SourceInfoView};
use crate::kotatsu::{texts, KotatsuParser, KotatsuParserView};
use crate::neko::views;
use crate::text::{
    contains_text, decimal_of, find_text, head, last_index_of, lowercase_of, rfind_char,
    same_text, strip_leading, to_chars, without_leading,
};

verus! {

/// The source id that always stands for MangaDex.
pub const MANGADEX_ID: i64 = 2499283573021220255;

/// The source id that always stands for the English MangaPlus.
pub const MANGAPLUS_ID: i64 = 1998944621602463790;

/// The name that stands for "no parser found".
pub open spec fn unknown_name() -> Seq<char> {
    "UNKNOWN"@
}

/// The base URL without its scheme: leading `http://` removed, then leading
/// `https://`.
pub open spec fn bare_host(base_url: Seq<char>) -> Seq<char> {
    without_leading(without_leading(base_url, "http://"@), "https://"@)
}

/// The bare host without a leading `www.`.
pub open spec fn bare_host_no_www(base_url: Seq<char>) -> Seq<char> {
    without_leading(bare_host(base_url), "www."@)
}

/// `host` is one of the domains of the parser.
pub open spec fn serves(parser: KotatsuParserView, host: Seq<char>) -> bool {
    exists|i: int| 0 <= i < parser.domains.len() && parser.domains[i] == host
}

/// The parser is the one of the source: its name is that of the source, case
/// aside, or it serves the host of the source, with or without `www.`.
pub open spec fn matches_source(parser: KotatsuParserView, source: SourceInfoView) -> bool {
    ||| lowercase_of(parser.name) == lowercase_of(source.name)
    ||| serves(parser, bare_host(source.base_url))
    ||| serves(parser, bare_host_no_www(source.base_url))
}

/// The bare host up to its last dot: what is left of a domain without its
/// top-level domain. None where the host has no dot.
pub open spec fn soft_fragment(base_url: Seq<char>) -> Option<Seq<char>> {
    let host = bare_host(base_url);
    match last_index_of(host, '.') {
        Some(i) => Some(host.take(i)),
        None => None,
    }
}

/// One of the domains of the parser contains `fragment`.
pub open spec fn matches_softly(parser: KotatsuParserView, fragment: Seq<char>) -> bool {
    exists|i: int| 0 <= i < parser.domains.len() && contains_text(parser.domains[i], fragment)
}

/// The first parser of the knowledge base that is the one of the source.
pub open spec fn first_match(parsers: Seq<KotatsuParserView>, source: SourceInfoView) -> Option<
    KotatsuParserView,
>
    decreases parsers.len(),
{
    if parsers.len() == 0 {
        None
    } else {
        match first_match(parsers.drop_last(), source) {
            Some(parser) => Some(parser),
            None => if matches_source(parsers.last(), source) {
                Some(parsers.last())
            } else {
                None
            },
        }
    }
}

/// The first parser of the knowledge base with a domain that contains
/// `fragment`.
pub open spec fn first_soft_match(parsers: Seq<KotatsuParserView>, fragment: Seq<char>) -> Option<
    KotatsuParserView,
>
    decreases parsers.len(),
{
    if parsers.len() == 0 {
        None
    } else {
        match first_soft_match(parsers.drop_last(), fragment) {
            Some(parser) => Some(parser),
            None => if matches_softly(parsers.last(), fragment) {
                Some(parsers.last())
            } else {
                None
            },
        }
    }
}

/// The parser that serves the source: the first exact match, or, in soft
/// mode and where there is none, the first soft match.
pub open spec fn resolved_parser(
    parsers: Seq<KotatsuParserView>,
    source: SourceInfoView,
    soft_match: bool,
) -> Option<KotatsuParserView> {
    match first_match(parsers, source) {
        Some(parser) => Some(parser),
        None => if soft_match {
            match soft_fragment(source.base_url) {
                Some(fragment) => first_soft_match(parsers, fragment),
                None => None,
            }
        } else {
            None
        },
    }
}

/// The canonical name that the registry and the knowledge base give the
/// source id: that of the parser that serves the source, `UNKNOWN` where
/// the registry has no such source or no parser serves it.
pub open spec fn resolved_name(
    registry: Seq<SourceInfoView>,
    parsers: Seq<KotatsuParserView>,
    soft_match: bool,
    id: i64,
) -> Seq<char> {
    match first_with_id(registry, decimal_of(id as int)) {
        Some(source) => match resolved_parser(parsers, source, soft_match) {
            Some(parser) => parser.name,
            None => unknown_name(),
        },
        None => unknown_name(),
    }
}

/// The canonical name of the source id under a table of names that are
/// already settled: the two fixed ids have fixed names, a settled id keeps
/// its name, any other is resolved.
pub open spec fn source_name(
    settled: Map<i64, Seq<char>>,
    registry: Seq<SourceInfoView>,
    parsers: Seq<KotatsuParserView>,
    soft_match: bool,
    id: i64,
) -> Seq<char> {
    if id == MANGADEX_ID {
        "MANGADEX"@
    } else if id == MANGAPLUS_ID {
        "MANGAPLUSPARSER_EN"@
    } else if settled.contains_key(id) {
        settled[id]
    } else {
        resolved_name(registry, parsers, soft_match, id)
    }
}

/// Whether `host` is one of the domains of the parser.
fn parser_serves(parser: &KotatsuParser, host: &Vec<char>) -> (r: bool)
    ensures
        r == serves(parser@, host@),
{
    let mut i: usize = 0;
    while i < parser.domains.len()
        invariant
            i <= parser.domains.len(),
            forall|j: int| 0 <= j < i ==> texts(parser.domains@)[j] != host@,
        decreases parser.domains.len() - i,
    {
        let domain = to_chars(parser.domains[i].as_str());
        if same_text(&domain, host) {
            assert(parser@.domains[i as int] == host@);
            return true;
        }
        i += 1;
    }
    false
}

/// Whether one of the domains of the parser contains `fragment`.
fn parser_matches_softly(parser: &KotatsuParser, fragment: &Vec<char>) -> (r: bool)
    ensures
        r == matches_softly(parser@, fragment@),
{
    let mut i: usize = 0;
    while i < parser.domains.len()
        invariant
            i <= parser.domains.len(),
            forall|j: int| 0 <= j < i ==> !contains_text(texts(parser.domains@)[j], fragment@),
        decreases parser.domains.len() - i,
    {
        let domain = to_chars(parser.domains[i].as_str());
        if find_text(&domain, fragment).is_some() {
            assert(contains_text(parser@.domains[i as int], fragment@));
            return true;
        }
        i += 1;
    }
    false
}

/// The parser of the knowledge base that serves the source.
pub fn resolve_parser<'a>(
    parsers: &'a Vec<KotatsuParser>,
    source: &SourceInfo,
    soft_match: bool,
) -> (r: Option<&'a KotatsuParser>)
    ensures
        match r {
            Some(parser) => resolved_parser(views(parsers@), source@, soft_match) == Some(parser@),
            None => resolved_parser(views(parsers@), source@, soft_match) is None,
        },
{
    let base = to_chars(source.baseUrl.as_str());
    let host = strip_leading(&strip_leading(&base, "http://"), "https://");
    let host_no_www = strip_leading(&host, "www.");
    let name = source.name.as_str().to_lowercase();
    let ghost all = views(parsers@);
    let mut i: usize = 0;
    while i < parsers.len()
        invariant
            i <= parsers.len(),
            all == views(parsers@),
            host@ == bare_host(source@.base_url),
            host_no_www@ == bare_host_no_www(source@.base_url),
            name@ == lowercase_of(source@.name),
            first_match(all.take(i as int), source@) is None,
        decreases parsers.len() - i,
    {
        let parser = &parsers[i];
        proof {
            assert(all.take(i + 1).drop_last() =~= all.take(i as int));
        }
        if parser.name.as_str().to_lowercase() == name || parser_serves(parser, &host)
            || parser_serves(parser, &host_no_www) {
            proof {
                lemma_first_match_stays(all, source@, i + 1);
            }
            return Some(parser);
        }
        i += 1;
    }
    assert(all.take(parsers@.len() as int) =~= all);
    if !soft_match {
        return None;
    }
    let dot = match rfind_char(&host, '.') {
        Some(dot) => dot,
        None => {
            return None;
        },
    };
    let fragment = head(&host, dot);
    let mut k: usize = 0;
    while k < parsers.len()
        invariant
            k <= parsers.len(),
            all == views(parsers@),
            soft_match,
            first_match(all, source@) is None,
            soft_fragment(source@.base_url) == Some(fragment@),
            first_soft_match(all.take(k as int), fragment@) is None,
        decreases parsers.len() - k,
    {
        let parser = &parsers[k];
        proof {
            assert(all.take(k + 1).drop_last() =~= all.take(k as int));
        }
        if parser_matches_softly(parser, &fragment) {
            proof {
                lemma_first_soft_match_stays(all, fragment@, k + 1);
            }
            return Some(parser);
        }
        k += 1;
    }
    None
}

/// A match among the first `n` parsers is the match among all of them.
proof fn lemma_first_match_stays(parsers: Seq<KotatsuParserView>, source: SourceInfoView, n: int)
    requires
        0 <= n <= parsers.len(),
        first_match(parsers.take(n), source) is Some,
    ensures
        first_match(parsers, source) == first_match(parsers.take(n), source),
    decreases parsers.len() - n,
{
    if n < parsers.len() {
        assert(parsers.take(n + 1).drop_last() =~= parsers.take(n));
        lemma_first_match_stays(parsers, source, n + 1);
    } else {
        assert(parsers.take(n) =~= parsers);
    }
}

/// A soft match among the first `n` parsers is the soft match among all of
/// them.
proof fn lemma_first_soft_match_stays(
    parsers: Seq<KotatsuParserView>,
    fragment: Seq<char>,
    n: int,
)
    requires
        0 <= n <= parsers.len(),
        first_soft_match(parsers.take(n), fragment) is Some,
    ensures
        first_soft_match(parsers, fragment) == first_soft_match(parsers.take(n), fragment),
    decreases parsers.len() - n,
{
    if n < parsers.len() {
        assert(parsers.take(n + 1).drop_last() =~= parsers.take(n));
        lemma_first_soft_match_stays(parsers, fragment, n + 1);
    } else {
        assert(parsers.take(n) =~= parsers);
    }
}

/// The canonical name that the registry and the knowledge base give the
/// source id.
pub fn resolve_name(
    registry: &ExtensionList,
    parsers: &Vec<KotatsuParser>,
    soft_match: bool,
    id: i64,
) -> (r: String)
    ensures
        r@ == resolved_name(registry@, views(parsers@), soft_match, id),
{
    match registry.get_source(id) {
        Some(source) => match resolve_parser(parsers, &source, soft_match) {
            Some(parser) => parser.name.clone(),
            None => String::from_str("UNKNOWN"),
        },
        None => String::from_str("UNKNOWN"),
    }
}

} // verus!
