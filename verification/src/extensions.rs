//! The extension registry: the source descriptors of the origin ecosystem,
//! looked up by their numeric id.

use vstd::prelude::*;
use vstd::string::StringExecFns;
use crate::neko::views;
use crate::text::{decimal, decimal_of};

verus! {

/// One online content source of the origin ecosystem.
#[allow(non_snake_case)]
#[derive(Debug)]
pub struct SourceInfo {
    pub name: String,
    pub lang: String,
    pub id: String,
    pub baseUrl: String,
}

/// What a source descriptor holds.
pub struct SourceInfoView {
    pub name: Seq<char>,
    pub lang: Seq<char>,
    pub id: Seq<char>,
    pub base_url: Seq<char>,
}

impl View for SourceInfo {
    type V = SourceInfoView;

    open spec fn view(&self) -> SourceInfoView {
        SourceInfoView {
            name: self.name@,
            lang: self.lang@,
            id: self.id@,
            base_url: self.baseUrl@,
        }
    }
}

/// The descriptor that stands for a source that the registry does not know.
pub open spec fn unknown_source() -> SourceInfoView {
    SourceInfoView { name: "Unknown"@, lang: "en"@, id: "0"@, base_url: "example.com"@ }
}

/// The unknown descriptor under the id of the source that was asked for.
pub open spec fn unknown_source_with_id(id: i64) -> SourceInfoView {
    SourceInfoView { id: decimal_of(id as int), ..unknown_source() }
}

impl Clone for SourceInfo {
    fn clone(&self) -> (r: Self)
        ensures
            r@ == self@,
    {
        SourceInfo {
            name: self.name.clone(),
            lang: self.lang.clone(),
            id: self.id.clone(),
            baseUrl: self.baseUrl.clone(),
        }
    }
}

impl Default for SourceInfo {
    fn default() -> (r: Self)
        ensures
            r@ == unknown_source(),
    {
        SourceInfo {
            name: String::from_str("Unknown"),
            lang: String::from_str("en"),
            id: String::from_str("0"),
            baseUrl: String::from_str("example.com"),
        }
    }
}

impl SourceInfo {
    /// The unknown descriptor under the decimal text of `id`.
    pub fn unknown(id: i64) -> (r: Self)
        ensures
            r@ == unknown_source_with_id(id),
    {
        SourceInfo {
            name: String::from_str("Unknown"),
            lang: String::from_str("en"),
            id: decimal(id),
            baseUrl: String::from_str("example.com"),
        }
    }
}

/// One extension package: a set of sources published together.
#[derive(Debug)]
pub struct ExtensionInfo {
    pub name: String,
    pub pkg: String,
    pub apk: String,
    pub lang: String,
    pub code: i32,
    pub version: String,
    pub nsfw: i32,
    pub sources: Vec<SourceInfo>,
}

/// The descriptors of all packages, package by package, each package's
/// sources in their order.
pub open spec fn all_sources(packages: Seq<ExtensionInfo>) -> Seq<SourceInfoView>
    decreases packages.len(),
{
    if packages.len() == 0 {
        Seq::empty()
    } else {
        all_sources(packages.drop_last()) + views(packages.last().sources@)
    }
}

/// The first descriptor of `sources` whose id is `id`.
pub open spec fn first_with_id(sources: Seq<SourceInfoView>, id: Seq<char>) -> Option<
    SourceInfoView,
>
    decreases sources.len(),
{
    if sources.len() == 0 {
        None
    } else {
        match first_with_id(sources.drop_last(), id) {
            Some(found) => Some(found),
            None => if sources.last().id == id {
                Some(sources.last())
            } else {
                None
            },
        }
    }
}

/// A descriptor that precedes all of `tail` is found in the joined sequence
/// too; otherwise the search goes on in `tail`.
pub proof fn lemma_first_with_id_concat(
    head: Seq<SourceInfoView>,
    tail: Seq<SourceInfoView>,
    id: Seq<char>,
)
    ensures
        first_with_id(head + tail, id) == match first_with_id(head, id) {
            Some(found) => Some(found),
            None => first_with_id(tail, id),
        },
    decreases tail.len(),
{
    if tail.len() == 0 {
    } else {
        lemma_first_with_id_concat(head, tail.drop_last(), id);
        assert((head + tail).drop_last() =~= head + tail.drop_last());
    }
}

/// The registry of source descriptors.
#[derive(Debug)]
pub struct ExtensionList {
    inner: Vec<ExtensionInfo>,
}

impl View for ExtensionList {
    type V = Seq<SourceInfoView>;

    /// The descriptors of the registry in lookup order.
    closed spec fn view(&self) -> Seq<SourceInfoView> {
        all_sources(self.inner@)
    }
}

impl Default for ExtensionList {
    fn default() -> (r: Self)
        ensures
            r@ == Seq::<SourceInfoView>::empty(),
    {
        Self { inner: Vec::new() }
    }
}

impl ExtensionList {
    /// The registry that holds the sources of the given packages.
    pub fn new(list: Vec<ExtensionInfo>) -> (r: Self)
        ensures
            r@ == all_sources(list@),
    {
        Self { inner: list }
    }

    /// The descriptor of the source with the numeric id `id`: the first one
    /// whose id text is the decimal text of `id`.
    pub fn get_source(&self, id: i64) -> (r: Option<SourceInfo>)
        ensures
            match r {
                Some(source) => first_with_id(self@, decimal_of(id as int)) == Some(source@),
                None => first_with_id(self@, decimal_of(id as int)) is None,
            },
    {
        let text = decimal(id);
        let mut p: usize = 0;
        while p < self.inner.len()
            invariant
                p <= self.inner.len(),
                text@ == decimal_of(id as int),
                first_with_id(all_sources(self.inner@.take(p as int)), text@) is None,
            decreases self.inner.len() - p,
        {
            let sources = &self.inner[p].sources;
            let ghost before = all_sources(self.inner@.take(p as int));
            let ghost through = all_sources(self.inner@.take(p + 1));
            let mut i: usize = 0;
            proof {
                assert(self.inner@.take(p + 1).drop_last() =~= self.inner@.take(p as int));
                lemma_all_sources_split(self.inner@, p + 1);
            }
            while i < sources.len()
                invariant
                    i <= sources.len(),
                    p < self.inner.len(),
                    text@ == decimal_of(id as int),
                    through == before + views(sources@),
                    self@ == through + all_sources_from(self.inner@, p + 1),
                    first_with_id(before, text@) is None,
                    first_with_id(views(sources@).take(i as int), text@) is None,
                decreases sources.len() - i,
            {
                proof {
                    assert(views(sources@).take(i + 1).drop_last() =~= views(sources@).take(
                        i as int,
                    ));
                }
                if sources[i].id == text {
                    proof {
                        let found = views(sources@).take(i + 1);
                        lemma_first_with_id_concat(found, views(sources@).skip(i + 1), text@);
                        assert(found + views(sources@).skip(i + 1) =~= views(sources@));
                        lemma_first_with_id_concat(before, views(sources@), text@);
                        lemma_first_with_id_concat(
                            through,
                            all_sources_from(self.inner@, p + 1),
                            text@,
                        );
                    }
                    return Some(sources[i].clone());
                }
                i += 1;
            }
            proof {
                assert(views(sources@).take(sources@.len() as int) =~= views(sources@));
                lemma_first_with_id_concat(before, views(sources@), text@);
            }
            p += 1;
        }
        assert(self.inner@.take(self.inner@.len() as int) =~= self.inner@);
        None
    }
}

/// The descriptors of the packages from index `from` on.
pub open spec fn all_sources_from(packages: Seq<ExtensionInfo>, from: int) -> Seq<SourceInfoView> {
    all_sources(packages.skip(from))
}

/// The descriptors of all packages are those of the first `n` followed by
/// those of the rest.
pub proof fn lemma_all_sources_split(packages: Seq<ExtensionInfo>, n: int)
    requires
        0 <= n <= packages.len(),
    ensures
        all_sources(packages) == all_sources(packages.take(n)) + all_sources_from(packages, n),
    decreases packages.len(),
{
    if n == packages.len() {
        assert(packages.take(n) =~= packages);
    } else {
        lemma_all_sources_split(packages.drop_last(), n);
        assert(packages.drop_last().take(n) =~= packages.take(n));
        assert(packages.drop_last().skip(n) =~= packages.skip(n).drop_last());
    }
}

/// The descriptor that a search by id finds has that id.
pub proof fn lemma_first_with_id_has_id(sources: Seq<SourceInfoView>, id: Seq<char>)
    ensures
        first_with_id(sources, id) matches Some(found) ==> found.id == id,
    decreases sources.len(),
{
    if sources.len() > 0 {
        lemma_first_with_id_has_id(sources.drop_last(), id);
    }
}

/// The descriptor under which a source is converted: that of the registry,
/// or the unknown descriptor under its id.
pub open spec fn descriptor(registry: Seq<SourceInfoView>, id: i64) -> SourceInfoView {
    match first_with_id(registry, decimal_of(id as int)) {
        Some(source) => source,
        None => unknown_source_with_id(id),
    }
}

impl ExtensionList {
    /// The descriptor under which the source with the id `id` is converted.
    pub fn describe(&self, id: i64) -> (r: SourceInfo)
        ensures
            r@ == descriptor(self@, id),
            r@.id == decimal_of(id as int),
    {
        proof {
            lemma_first_with_id_has_id(self@, decimal_of(id as int));
        }
        match self.get_source(id) {
            Some(source) => source,
            None => SourceInfo::unknown(id),
        }
    }
}

} // verus!
