//! The built-in corrections: the rules that repair the URLs and identifiers
//! of sources whose two ecosystems disagree, for use when no script is loaded.

use vstd::prelude::*;
use crate::text::{
    from_chars, has_suffix, matches_at, push_all, replace_text, replaced, same_text, skip_leading,
    to_chars, without_leading,
};

verus! {

/// The URL of a manga as the target ecosystem writes it: on MangaDex a manga
/// lives under `/title/`, not under `/manga/`.
pub open spec fn corrected_url(source_name: Seq<char>, url: Seq<char>) -> Seq<char> {
    if source_name == "MANGADEX"@ {
        replaced(url, "/manga/"@, "/title/"@)
    } else {
        url
    }
}

/// The text that identifies a manga or a chapter in the target ecosystem: on
/// MangaDex the bare id, without the `/title/` or `/chapter/` segment.
pub open spec fn corrected_identifier(source_name: Seq<char>, identifier: Seq<char>) -> Seq<char> {
    if source_name == "MANGADEX"@ {
        replaced(replaced(identifier, "/title/"@, Seq::empty()), "/chapter/"@, Seq::empty())
    } else {
        identifier
    }
}

/// `domain` without one trailing slash.
pub open spec fn bare_domain(domain: Seq<char>) -> Seq<char> {
    if has_suffix(domain, "/"@) {
        domain.subrange(0, domain.len() - "/"@.len())
    } else {
        domain
    }
}

/// The relative URL that the built-in rules give a manga.
pub open spec fn built_in_relative_url(
    source_name: Seq<char>,
    domain: Seq<char>,
    url: Seq<char>,
) -> Seq<char> {
    corrected_identifier(source_name, corrected_url(source_name, url))
}

/// The public URL that the built-in rules give a manga: `https://`, the
/// domain, one slash, and the corrected URL without leading slashes.
pub open spec fn built_in_public_url(
    source_name: Seq<char>,
    domain: Seq<char>,
    url: Seq<char>,
) -> Seq<char> {
    "https://"@ + bare_domain(domain) + "/"@ + without_leading(
        corrected_url(source_name, url),
        "/"@,
    )
}

/// Whether two string slices hold the same text.
pub fn str_eq(a: &str, b: &str) -> (r: bool)
    ensures
        r == (a@ == b@),
{
    let x = to_chars(a);
    let y = to_chars(b);
    same_text(&x, &y)
}

/// The string of all characters of `v`.
pub fn string_of(v: &Vec<char>) -> (s: String)
    ensures
        s@ == v@,
{
    let s = from_chars(v, 0, v.len());
    s
}

/// Corrects the URL of a manga of a known source; leaves it alone where no
/// rule applies.
pub fn correct_url(source_name: &str, url: &str) -> (r: String)
    ensures
        r@ == corrected_url(source_name@, url@),
{
    let chars = to_chars(url);
    if str_eq(source_name, "MANGADEX") {
        let out = replace_text(&chars, &to_chars("/manga/"), &to_chars("/title/"));
        string_of(&out)
    } else {
        string_of(&chars)
    }
}

/// Corrects the identifier of a manga or a chapter of a known source; leaves
/// it alone where no rule applies.
pub fn correct_identifier(source_name: &str, identifier: &str) -> (r: String)
    ensures
        r@ == corrected_identifier(source_name@, identifier@),
{
    let chars = to_chars(identifier);
    if str_eq(source_name, "MANGADEX") {
        let nothing: Vec<char> = Vec::new();
        let first = replace_text(&chars, &to_chars("/title/"), &nothing);
        let out = replace_text(&first, &to_chars("/chapter/"), &nothing);
        string_of(&out)
    } else {
        string_of(&chars)
    }
}

/// The relative URL of a manga under the built-in rules.
pub fn relative_url(source_name: &str, domain: &str, url: &str) -> (r: String)
    ensures
        r@ == built_in_relative_url(source_name@, domain@, url@),
{
    let moved = correct_url(source_name, url);
    correct_identifier(source_name, moved.as_str())
}

/// The public URL of a manga under the built-in rules.
pub fn public_url(source_name: &str, domain: &str, url: &str) -> (r: String)
    ensures
        r@ == built_in_public_url(source_name@, domain@, url@),
{
    let host = to_chars(domain);
    let slash = to_chars("/");
    let mut out = to_chars("https://");
    let ghost scheme = out@;
    let end: usize = if host.len() >= slash.len() && matches_at(
        &host,
        &slash,
        host.len() - slash.len(),
    ) {
        host.len() - slash.len()
    } else {
        host.len()
    };
    let mut i: usize = 0;
    while i < end
        invariant
            i <= end <= host.len(),
            out@ == scheme + host@.subrange(0, i as int),
        decreases end - i,
    {
        out.push(host[i]);
        i += 1;
    }
    push_all(&mut out, &slash);
    let moved = to_chars(correct_url(source_name, url).as_str());
    let start = skip_leading(&moved, &slash);
    let mut k: usize = start;
    let ghost head = out@;
    while k < moved.len()
        invariant
            start <= k <= moved.len(),
            out@ == head + moved@.subrange(start as int, k as int),
        decreases moved.len() - k,
    {
        out.push(moved[k]);
        k += 1;
    }
    string_of(&out)
}

} // verus!
