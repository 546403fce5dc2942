//! The source filter of a configuration: a list of sources to convert and a
//! list of sources to leave out.

use vstd::prelude::*;
use crate::correction::string_of;
use crate::extensions::{SourceInfo, SourceInfoView};
use crate::neko::views;
use crate::text::{
    all_digits, ascii_lower, ascii_lowercase, decimal_of, digit_char, digit_value, digits_of,
    digits_value, has_char, lowercase_of, parse_i64, parsed_i64, to_chars,
};

verus! {

/// One entry of a list of sources: the numeric id of a source, its name, or
/// its base URL. Names and URLs are held in lower case.
#[derive(Debug, PartialEq, Eq)]
pub enum SourceFilterEntry {
    Id(i64),
    Name(String),
    Url(String),
}

/// What an entry of a list of sources holds.
pub enum SourceFilterEntryView {
    Id(i64),
    Name(Seq<char>),
    Url(Seq<char>),
}

impl View for SourceFilterEntry {
    type V = SourceFilterEntryView;

    open spec fn view(&self) -> SourceFilterEntryView {
        match self {
            SourceFilterEntry::Id(id) => SourceFilterEntryView::Id(*id),
            SourceFilterEntry::Name(name) => SourceFilterEntryView::Name(name@),
            SourceFilterEntry::Url(url) => SourceFilterEntryView::Url(url@),
        }
    }
}

/// The entry that a text of a configuration stands for: a URL, in ASCII
/// lower case, where the text has a dot, else a name in lower case.
pub open spec fn entry_of(text: Seq<char>) -> SourceFilterEntryView {
    if text.contains('.') {
        SourceFilterEntryView::Url(text.map_values(|c: char| ascii_lower(c)))
    } else {
        SourceFilterEntryView::Name(lowercase_of(text))
    }
}

impl SourceFilterEntryView {
    /// The entry names the source: by its id, by its name or by its base
    /// URL, the latter two compared in lower case.
    pub open spec fn names(self, source: SourceInfoView) -> bool {
        match self {
            SourceFilterEntryView::Id(id) => parsed_i64(source.id) == Some(id),
            SourceFilterEntryView::Name(name) => name == lowercase_of(source.name),
            SourceFilterEntryView::Url(url) => url == lowercase_of(source.base_url),
        }
    }
}

/// The source is listed: one of the entries names it. An empty list leaves
/// the answer to `default`.
pub open spec fn listed(
    entries: Seq<SourceFilterEntryView>,
    default: bool,
    source: SourceInfoView,
) -> bool {
    if entries.len() == 0 {
        default
    } else {
        exists|i: int| 0 <= i < entries.len() && (#[trigger] entries[i]).names(source)
    }
}

impl SourceFilterEntry {
    /// The entry that a number of a configuration stands for.
    pub fn from_id(id: i64) -> (r: Self)
        ensures
            r@ == SourceFilterEntryView::Id(id),
    {
        SourceFilterEntry::Id(id)
    }

    /// The entry that a text of a configuration stands for.
    pub fn from_text(text: &str) -> (r: Self)
        ensures
            r@ == entry_of(text@),
    {
        let chars = to_chars(text);
        if has_char(&chars, '.') {
            SourceFilterEntry::Url(string_of(&ascii_lowercase(&chars)))
        } else {
            SourceFilterEntry::Name(text.to_lowercase())
        }
    }
}

/// A list of sources that can be asked whether it holds a source.
pub trait SourceFilterList {
    /// The entries of the list.
    spec fn entries(&self) -> Seq<SourceFilterEntryView>;

    /// Whether the list holds the source; `default` where the list is
    /// empty. The id of the source must be a number where the list is not
    /// empty.
    fn check_source(&self, default: bool, source: &SourceInfo) -> (r: bool)
        requires
            self.entries().len() > 0 ==> parsed_i64(source@.id) is Some,
        ensures
            r == listed(self.entries(), default, source@),
    ;
}

impl SourceFilterList for Vec<SourceFilterEntry> {
    open spec fn entries(&self) -> Seq<SourceFilterEntryView> {
        views(self@)
    }

    fn check_source(&self, default: bool, source: &SourceInfo) -> (r: bool) {
        if self.len() == 0 {
            return default;
        }
        let id = parse_i64(&to_chars(source.id.as_str()));
        let name = source.name.as_str().to_lowercase();
        let url = source.baseUrl.as_str().to_lowercase();
        let mut i: usize = 0;
        while i < self.len()
            invariant
                i <= self.len(),
                id == parsed_i64(source@.id),
                name@ == lowercase_of(source@.name),
                url@ == lowercase_of(source@.base_url),
                forall|j: int| 0 <= j < i ==> !(#[trigger] views(self@)[j]).names(source@),
            decreases self.len() - i,
        {
            assert(views(self@)[i as int] == self@[i as int]@);
            let found = match &self[i] {
                SourceFilterEntry::Id(wanted) => match id {
                    Some(id) => id == *wanted,
                    None => false,
                },
                SourceFilterEntry::Name(wanted) => *wanted == name,
                SourceFilterEntry::Url(wanted) => *wanted == url,
            };
            if found {
                return true;
            }
            i += 1;
        }
        false
    }
}

/// The configuration of a conversion: the sources to convert, and the
/// sources to leave out.
#[derive(Debug)]
pub struct ConfigFile {
    pub whitelist: Option<Vec<SourceFilterEntry>>,
    pub blacklist: Option<Vec<SourceFilterEntry>>,
}

/// The entries of a list that may be missing.
pub open spec fn entries_of(list: Option<Vec<SourceFilterEntry>>) -> Seq<SourceFilterEntryView> {
    match list {
        Some(list) => views(list@),
        None => Seq::empty(),
    }
}

impl Default for ConfigFile {
    fn default() -> (r: Self)
        ensures
            r.whitelist is None,
            r.blacklist is None,
    {
        ConfigFile { whitelist: None, blacklist: None }
    }
}

impl ConfigFile {
    /// The configuration wants the manga of the source: the source is on the
    /// list of those to convert, or that list is empty, and it is not on the
    /// list of those to leave out.
    pub open spec fn wants(&self, source: SourceInfoView) -> bool {
        listed(entries_of(self.whitelist), true, source) && !listed(
            entries_of(self.blacklist),
            false,
            source,
        )
    }

    /// The configuration has an entry, so that it looks at the sources.
    pub open spec fn filters(&self) -> bool {
        entries_of(self.whitelist).len() > 0 || entries_of(self.blacklist).len() > 0
    }

    /// Whether the configuration has an entry.
    pub fn is_filtering(&self) -> (r: bool)
        ensures
            r == self.filters(),
    {
        let listed = match &self.whitelist {
            Some(list) => {
                list.len() > 0
            },
            None => false,
        };
        let barred = match &self.blacklist {
            Some(list) => {
                list.len() > 0
            },
            None => false,
        };
        listed || barred
    }

    /// Whether the configuration wants the manga of the source. The id of
    /// the source must be a number where the configuration has an entry.
    pub fn accepts(&self, source: &SourceInfo) -> (r: bool)
        requires
            self.filters() ==> parsed_i64(source@.id) is Some,
        ensures
            r == self.wants(source@),
    {
        let wanted = match &self.whitelist {
            Some(list) => list.check_source(true, source),
            None => true,
        };
        if !wanted {
            return false;
        }
        match &self.blacklist {
            Some(list) => !list.check_source(false, source),
            None => true,
        }
    }
}

/// The decimal digits of a number are digits, and their value is the number.
pub proof fn lemma_digits_of(n: nat)
    ensures
        digits_of(n).len() > 0,
        all_digits(digits_of(n)),
        digits_value(digits_of(n)) == n,
    decreases n,
{
    if n < 10 {
        assert(digits_of(n).drop_last() =~= Seq::<char>::empty());
        assert(digits_value(Seq::<char>::empty()) == 0);
    } else {
        lemma_digits_of(n / 10);
        assert(digits_of(n).drop_last() =~= digits_of(n / 10));
    }
}

/// The decimal text of a number is read back as that number: the source
/// descriptors that conversion hands to a filter have an id that is a
/// number.
pub proof fn decimal_parses_back(n: i64)
    ensures
        parsed_i64(decimal_of(n as int)) == Some(n),
{
    let text = decimal_of(n as int);
    if n < 0 {
        let digits = digits_of((-n) as nat);
        lemma_digits_of((-n) as nat);
        assert(text.skip(1) =~= digits);
    } else {
        let digits = digits_of(n as nat);
        lemma_digits_of(n as nat);
    }
}

} // verus!
