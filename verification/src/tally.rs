//! The result of a conversion run, and how the outcome of one manga is
//! entered into it.

use vstd::prelude::*;
use vstd::string::StringExecFns;
use crate::correction::str_eq;
use crate::extensions::{SourceInfo, SourceInfoView};
use crate::kotatsu::{
    texts, KotatsuBookmarkBackup, KotatsuBookmarkEntry, KotatsuBookmarkEntryView,
    KotatsuBookmarkView, KotatsuCategoryBackup, KotatsuCategoryView, KotatsuFavouriteBackup,
    KotatsuFavouriteView, KotatsuHistoryBackup, KotatsuHistoryView, KotatsuMangaBackup,
    KotatsuMangaView,
};
use crate::kotatsu::KotatsuListSortOrder;
use crate::manga::{CATEGORY_DEFAULT, CATEGORY_OFFSET};
use crate::neko::{views, Backup, BackupCategory, BackupManga, BackupView, CategoryView, MangaView};
use crate::sort::CategorySortType;
use crate::report::{ConversionError, ConversionErrorView, Warning, WarningView};
use crate::script_interface::{ScriptError, ScriptErrorView};
use crate::text::{decimal, decimal_of};

verus! {

/// The records that a converted manga contributes.
#[derive(Debug)]
pub struct MangaRecords {
    pub manga: KotatsuMangaBackup,
    pub favourites: Vec<KotatsuFavouriteBackup>,
    pub bookmarks: Vec<KotatsuBookmarkEntry>,
    pub history: KotatsuHistoryBackup,
    /// The first error that the correction of a chapter identifier raised.
    pub chapter_error: Option<ScriptError>,
}

/// What the records of a converted manga hold.
pub struct RecordsView {
    pub manga: KotatsuMangaView,
    pub favourites: Seq<KotatsuFavouriteView>,
    pub bookmarks: Seq<KotatsuBookmarkEntryView>,
    pub history: KotatsuHistoryView,
    pub chapter_error: Option<ScriptErrorView>,
}

impl View for MangaRecords {
    type V = RecordsView;

    open spec fn view(&self) -> RecordsView {
        RecordsView {
            manga: self.manga@,
            favourites: views(self.favourites@),
            bookmarks: views(self.bookmarks@),
            history: self.history@,
            chapter_error: match self.chapter_error {
                Some(error) => Some(error@),
                None => None,
            },
        }
    }
}

/// What became of one manga of the origin backup.
#[derive(Debug)]
pub enum MangaOutcome {
    /// It has no source: it was imported from local files.
    Local,
    /// The filter turned its source down.
    Ignored,
    /// The registry does not know its source.
    UnknownSource(SourceInfo),
    /// Its record could not be built.
    Failed(SourceInfo, ConversionError),
    /// No parser of the knowledge base serves its source.
    NoParser(SourceInfo),
    /// It was converted.
    Converted(MangaRecords),
}

/// What an outcome holds.
pub enum OutcomeView {
    Local,
    Ignored,
    UnknownSource(SourceInfoView),
    Failed(SourceInfoView, ConversionErrorView),
    NoParser(SourceInfoView),
    Converted(RecordsView),
}

impl View for MangaOutcome {
    type V = OutcomeView;

    open spec fn view(&self) -> OutcomeView {
        match self {
            MangaOutcome::Local => OutcomeView::Local,
            MangaOutcome::Ignored => OutcomeView::Ignored,
            MangaOutcome::UnknownSource(source) => OutcomeView::UnknownSource(source@),
            MangaOutcome::Failed(source, error) => OutcomeView::Failed(source@, error@),
            MangaOutcome::NoParser(source) => OutcomeView::NoParser(source@),
            MangaOutcome::Converted(records) => OutcomeView::Converted(records@),
        }
    }
}

impl OutcomeView {
    /// The manga counts as one that could not be converted.
    pub open spec fn errored(self) -> bool {
        self is Local || self is UnknownSource || self is Failed || self is NoParser
    }
}

/// The entries of a table from names to texts.
pub open spec fn text_entries(list: Seq<(String, String)>) -> Seq<(Seq<char>, Seq<char>)> {
    list.map_values(|entry: (String, String)| (entry.0@, entry.1@))
}

/// The entries of a table from names to counts.
pub open spec fn count_entries(list: Seq<(String, usize)>) -> Seq<(Seq<char>, int)> {
    list.map_values(|entry: (String, usize)| (entry.0@, entry.1 as int))
}

/// The index of the entry for `key`: that of the first entry with that key,
/// or the length of the table where it has none.
pub open spec fn key_index<V>(list: Seq<(Seq<char>, V)>, key: Seq<char>) -> int
    decreases list.len(),
{
    if list.len() == 0 {
        0
    } else if list[0].0 == key {
        0
    } else {
        1 + key_index(list.skip(1), key)
    }
}

/// The table has an entry for `key`.
pub open spec fn has_key<V>(list: Seq<(Seq<char>, V)>, key: Seq<char>) -> bool {
    key_index(list, key) < list.len()
}

/// The table with `value` under `key`: in place of the entry for `key`, or
/// as a new last entry.
pub open spec fn with_entry<V>(list: Seq<(Seq<char>, V)>, key: Seq<char>, value: V) -> Seq<
    (Seq<char>, V),
> {
    let index = key_index(list, key);
    if index < list.len() {
        list.update(index, (key, value))
    } else {
        list.push((key, value))
    }
}

/// The table with the count under `key` raised by one; a key without an entry
/// gets the count 1 as a new last entry.
pub open spec fn bumped(list: Seq<(Seq<char>, int)>, key: Seq<char>) -> Seq<(Seq<char>, int)> {
    let index = key_index(list, key);
    if index < list.len() {
        list.update(index, (key, list[index].1 + 1))
    } else {
        list.push((key, 1))
    }
}

/// The result of a conversion run: the records of the target backup and the
/// account of what could not be converted.
#[derive(Debug)]
pub struct MangaConversionResult {
    pub categories: Vec<KotatsuCategoryBackup>,
    pub favourites: Vec<KotatsuFavouriteBackup>,
    pub history: Vec<KotatsuHistoryBackup>,
    pub bookmarks: Vec<KotatsuBookmarkBackup>,
    /// The sources with a manga that could not be converted, by name, each
    /// once and in the order of their first such manga, with their base URL.
    pub errored_sources: Vec<(String, String)>,
    /// For each source name, how many of its manga could not be converted.
    pub errored_sources_count: Vec<(String, usize)>,
    /// The ids of the sources that the registry does not know, each once and
    /// in the order of their first manga.
    pub unknown_sources: Vec<String>,
    pub total_manga: usize,
    pub errored_manga: usize,
    pub ignored_manga: usize,
    /// What the run tells its log, in the order of the manga.
    pub warnings: Vec<Warning>,
}

/// What the result of a conversion run holds.
pub struct ConversionView {
    pub categories: Seq<KotatsuCategoryView>,
    pub favourites: Seq<KotatsuFavouriteView>,
    pub history: Seq<KotatsuHistoryView>,
    pub bookmarks: Seq<KotatsuBookmarkView>,
    pub errored_sources: Seq<(Seq<char>, Seq<char>)>,
    pub errored_sources_count: Seq<(Seq<char>, int)>,
    pub unknown_sources: Seq<Seq<char>>,
    pub total_manga: int,
    pub errored_manga: int,
    pub ignored_manga: int,
    pub warnings: Seq<WarningView>,
}

impl View for MangaConversionResult {
    type V = ConversionView;

    open spec fn view(&self) -> ConversionView {
        ConversionView {
            categories: views(self.categories@),
            favourites: views(self.favourites@),
            history: views(self.history@),
            bookmarks: views(self.bookmarks@),
            errored_sources: text_entries(self.errored_sources@),
            errored_sources_count: count_entries(self.errored_sources_count@),
            unknown_sources: texts(self.unknown_sources@),
            total_manga: self.total_manga as int,
            errored_manga: self.errored_manga as int,
            ignored_manga: self.ignored_manga as int,
            warnings: views(self.warnings@),
        }
    }
}

impl ConversionView {
    /// How many manga have been entered.
    pub open spec fn entered(self) -> int {
        self.errored_manga + self.ignored_manga + self.history.len()
    }

    /// The counts add up: no more manga are entered than the backup holds,
    /// and no source has more errors than there are in all.
    pub open spec fn consistent(self) -> bool {
        &&& 0 <= self.errored_manga
        &&& 0 <= self.ignored_manga
        &&& self.entered() <= self.total_manga
        &&& forall|i: int|
            0 <= i < self.errored_sources_count.len() ==> (
            #[trigger] self.errored_sources_count[i]).1 <= self.errored_manga
    }

    /// The result with the outcome of one more manga entered.
    pub open spec fn recorded(self, manga: MangaView, outcome: OutcomeView) -> ConversionView {
        match outcome {
            OutcomeView::Local => ConversionView {
                errored_manga: self.errored_manga + 1,
                warnings: self.warnings.push(WarningView::LocalManga { title: manga.title }),
                ..self
            },
            OutcomeView::Ignored => ConversionView {
                ignored_manga: self.ignored_manga + 1,
                ..self
            },
            OutcomeView::UnknownSource(source) => {
                let id = decimal_of(manga.source as int);
                let repeated = self.unknown_sources.contains(id);
                ConversionView {
                    errored_manga: self.errored_manga + 1,
                    warnings: self.warnings.push(
                        WarningView::UnknownSource {
                            title: manga.title,
                            source_id: manga.source,
                            repeated,
                        },
                    ),
                    unknown_sources: if repeated {
                        self.unknown_sources
                    } else {
                        self.unknown_sources.push(id)
                    },
                    errored_sources: with_entry(
                        self.errored_sources,
                        source.name,
                        source.base_url,
                    ),
                    errored_sources_count: bumped(self.errored_sources_count, source.name),
                    ..self
                }
            },
            OutcomeView::Failed(source, error) => ConversionView {
                errored_manga: self.errored_manga + 1,
                warnings: self.warnings.push(
                    WarningView::ConversionFailed {
                        title: manga.title,
                        source_name: source.name,
                        base_url: source.base_url,
                        error,
                    },
                ),
                errored_sources_count: bumped(self.errored_sources_count, source.name),
                ..self
            },
            OutcomeView::NoParser(source) => ConversionView {
                errored_manga: self.errored_manga + 1,
                warnings: self.warnings.push(
                    WarningView::ParserNotFound {
                        title: manga.title,
                        source_name: source.name,
                        base_url: source.base_url,
                    },
                ),
                errored_sources: if has_key(self.errored_sources, source.name) {
                    self.errored_sources
                } else {
                    self.errored_sources.push((source.name, source.base_url))
                },
                errored_sources_count: bumped(self.errored_sources_count, source.name),
                ..self
            },
            OutcomeView::Converted(records) => ConversionView {
                favourites: self.favourites + records.favourites,
                bookmarks: if records.bookmarks.len() > 0 {
                    self.bookmarks.push(
                        KotatsuBookmarkView { manga: records.manga, bookmarks: records.bookmarks },
                    )
                } else {
                    self.bookmarks
                },
                history: self.history.push(records.history),
                warnings: match records.chapter_error {
                    Some(error) => self.warnings.push(
                        WarningView::ChapterIdFallback { title: manga.title, cause: error },
                    ),
                    None => self.warnings,
                },
                ..self
            },
        }
    }
}

/// The index of the entry for `key`, or the length of the table.
fn find_key<V>(list: &Vec<(String, V)>, key: &str) -> (index: usize)
    ensures
        index <= list.len(),
        forall|j: int| 0 <= j < index ==> (#[trigger] list@[j]).0@ != key@,
        index < list.len() ==> list@[index as int].0@ == key@,
{
    let mut i: usize = 0;
    while i < list.len()
        invariant
            i <= list.len(),
            forall|j: int| 0 <= j < i ==> (#[trigger] list@[j]).0@ != key@,
        decreases list.len() - i,
    {
        if str_eq(list[i].0.as_str(), key) {
            return i;
        }
        i += 1;
    }
    i
}

/// An index before which no entry has the key, and at which the table ends or
/// has the key, is the index of the entry for the key.
pub proof fn lemma_key_index_is<V>(list: Seq<(Seq<char>, V)>, key: Seq<char>, index: int)
    requires
        0 <= index <= list.len(),
        forall|j: int| 0 <= j < index ==> (#[trigger] list[j]).0 != key,
        index < list.len() ==> list[index].0 == key,
    ensures
        key_index(list, key) == index,
    decreases list.len(),
{
    if list.len() > 0 && index > 0 {
        let rest = list.skip(1);
        assert(forall|j: int| 0 <= j < index - 1 ==> (#[trigger] rest[j]).0 != key);
        lemma_key_index_is(rest, key, index - 1);
    }
}

/// Puts `value` under `key`.
fn put_text(list: &mut Vec<(String, String)>, key: String, value: String)
    ensures
        text_entries(final(list)@) == with_entry(text_entries(old(list)@), key@, value@),
{
    let index = find_key(list, key.as_str());
    proof {
        let entries = text_entries(list@);
        assert(forall|j: int| 0 <= j < index ==> (#[trigger] entries[j]).0 != key@);
        lemma_key_index_is(entries, key@, index as int);
    }
    if index < list.len() {
        list.set(index, (key, value));
    } else {
        list.push((key, value));
    }
}

/// Puts `value` under `key` unless the table has an entry for `key`.
fn put_new_text(list: &mut Vec<(String, String)>, key: String, value: String)
    ensures
        text_entries(final(list)@) == if has_key(text_entries(old(list)@), key@) {
            text_entries(old(list)@)
        } else {
            text_entries(old(list)@).push((key@, value@))
        },
{
    let index = find_key(list, key.as_str());
    proof {
        let entries = text_entries(list@);
        assert(forall|j: int| 0 <= j < index ==> (#[trigger] entries[j]).0 != key@);
        lemma_key_index_is(entries, key@, index as int);
    }
    if index >= list.len() {
        list.push((key, value));
    }
}

/// Raises the count under `key` by one.
fn bump(list: &mut Vec<(String, usize)>, key: &str, limit: usize)
    requires
        limit < usize::MAX,
        forall|i: int| 0 <= i < old(list)@.len() ==> (#[trigger] old(list)@[i]).1 <= limit,
    ensures
        count_entries(final(list)@) == bumped(count_entries(old(list)@), key@),
        forall|i: int| 0 <= i < final(list)@.len() ==> (#[trigger] final(list)@[i]).1 <= limit + 1,
{
    let index = find_key(list, key);
    proof {
        let entries = count_entries(list@);
        assert(forall|j: int| 0 <= j < index ==> (#[trigger] entries[j]).0 != key@);
        lemma_key_index_is(entries, key@, index as int);
    }
    if index < list.len() {
        let count = list[index].1;
        let name = list[index].0.clone();
        list.set(index, (name, count + 1));
    } else {
        list.push((String::from_str(key), 1));
    }
}

/// Whether `text` is one of `list`.
fn has_text(list: &Vec<String>, text: &str) -> (r: bool)
    ensures
        r == texts(list@).contains(text@),
{
    let mut i: usize = 0;
    while i < list.len()
        invariant
            i <= list.len(),
            forall|j: int| 0 <= j < i ==> texts(list@)[j] != text@,
        decreases list.len() - i,
    {
        if str_eq(list[i].as_str(), text) {
            assert(texts(list@)[i as int] == text@);
            return true;
        }
        i += 1;
    }
    false
}

/// The category that holds every converted manga, under the given name.
pub open spec fn favourites_category(name: Seq<char>) -> KotatsuCategoryView {
    KotatsuCategoryView {
        category_id: CATEGORY_DEFAULT,
        created_at: 0,
        sort_key: 0,
        title: name,
        order: Some(KotatsuListSortOrder::ALPHABETIC),
        track: Some(true),
        show_in_lib: Some(true),
        deleted_at: 0,
    }
}

/// The category of the target format for a category of the origin backup.
/// Its id is the id of the origin category, or its order where it has no id,
/// moved on by the offset.
pub open spec fn category_of(category: CategoryView, sort: CategorySortType) -> KotatsuCategoryView {
    KotatsuCategoryView {
        category_id: (match category.id {
            Some(id) => id,
            None => category.order,
        } + CATEGORY_OFFSET) as i64,
        created_at: 0,
        sort_key: category.order,
        title: category.name,
        order: match category.manga_sort {
            Some(code) => Some(sort.order_for(code as int)),
            None => None,
        },
        track: None,
        show_in_lib: Some(true),
        deleted_at: 0,
    }
}

/// The categories of the target backup: the category of all manga first,
/// then those of the origin backup in their order.
pub open spec fn categories_of(
    categories: Seq<CategoryView>,
    favorites_name: Seq<char>,
    sort: CategorySortType,
) -> Seq<KotatsuCategoryView> {
    seq![favourites_category(favorites_name)] + categories.map_values(
        |category: CategoryView| category_of(category, sort),
    )
}

/// The result of a run before the first manga is entered.
pub open spec fn started(
    backup: BackupView,
    favorites_name: Seq<char>,
    sort: CategorySortType,
) -> ConversionView {
    ConversionView {
        categories: categories_of(backup.categories, favorites_name, sort),
        favourites: Seq::empty(),
        history: Seq::empty(),
        bookmarks: Seq::empty(),
        errored_sources: Seq::empty(),
        errored_sources_count: Seq::empty(),
        unknown_sources: Seq::empty(),
        total_manga: backup.manga.len() as int,
        errored_manga: 0,
        ignored_manga: 0,
        warnings: Seq::empty(),
    }
}

/// The category of the target format for a category of the origin backup.
pub fn convert_category(category: &BackupCategory, sort: &CategorySortType) -> (r:
    KotatsuCategoryBackup)
    ensures
        r@ == category_of(category@, *sort),
{
    let id: i32 = match category.id {
        Some(id) => id,
        None => category.order,
    };
    KotatsuCategoryBackup {
        category_id: id as i64 + CATEGORY_OFFSET,
        created_at: 0,
        sort_key: category.order,
        title: category.name.clone(),
        order: match category.manga_sort {
            Some(code) => Some(sort.convert(code)),
            None => None,
        },
        track: None,
        show_in_lib: Some(true),
        deleted_at: 0,
    }
}

impl MangaConversionResult {
    /// The result of a run on `backup` before the first manga is entered: it
    /// holds the categories and the number of manga.
    pub fn start(backup: &Backup, favorites_name: &str, sort: &CategorySortType) -> (r: Self)
        ensures
            r@ == started(backup@, favorites_name@, *sort),
            r@.consistent(),
    {
        let mut categories: Vec<KotatsuCategoryBackup> = Vec::new();
        categories.push(
            KotatsuCategoryBackup {
                category_id: CATEGORY_DEFAULT,
                created_at: 0,
                sort_key: 0,
                title: String::from_str(favorites_name),
                order: Some(KotatsuListSortOrder::ALPHABETIC),
                track: Some(true),
                show_in_lib: Some(true),
                deleted_at: 0,
            },
        );
        let ghost wanted = categories_of(backup@.categories, favorites_name@, *sort);
        let mut i: usize = 0;
        while i < backup.backup_categories.len()
            invariant
                i <= backup.backup_categories.len(),
                categories.len() == i + 1,
                wanted == categories_of(backup@.categories, favorites_name@, *sort),
                forall|j: int| 0 <= j <= i ==> (#[trigger] categories@[j])@ == wanted[j],
            decreases backup.backup_categories.len() - i,
        {
            let category = convert_category(&backup.backup_categories[i], sort);
            categories.push(category);
            i += 1;
        }
        let result = MangaConversionResult {
            categories,
            favourites: Vec::new(),
            history: Vec::new(),
            bookmarks: Vec::new(),
            errored_sources: Vec::new(),
            errored_sources_count: Vec::new(),
            unknown_sources: Vec::new(),
            total_manga: backup.backup_manga.len(),
            errored_manga: 0,
            ignored_manga: 0,
            warnings: Vec::new(),
        };
        proof {
            assert(result@.categories =~= wanted);
            assert(result@.favourites =~= Seq::empty());
            assert(result@.history =~= Seq::empty());
            assert(result@.bookmarks =~= Seq::empty());
            assert(result@.errored_sources =~= Seq::empty());
            assert(result@.errored_sources_count =~= Seq::empty());
            assert(result@.unknown_sources =~= Seq::empty());
            assert(result@.warnings =~= Seq::empty());
        }
        result
    }

    /// Enters the outcome of one more manga of the backup.
    pub fn record(&mut self, manga: &BackupManga, outcome: MangaOutcome)
        requires
            old(self)@.consistent(),
            old(self)@.entered() < old(self)@.total_manga,
        ensures
            final(self)@ == old(self)@.recorded(manga@, outcome@),
            final(self)@.consistent(),
    {
        let ghost before = self@;
        let ghost counts = self.errored_sources_count@;
        proof {
            assert forall|i: int| 0 <= i < counts.len() implies (#[trigger] counts[i]).1
                <= self.errored_manga by {
                assert(before.errored_sources_count[i].1 == counts[i].1);
            }
        }
        match outcome {
            MangaOutcome::Local => {
                self.warnings.push(Warning::LocalManga { title: manga.title.clone() });
                self.errored_manga = self.errored_manga + 1;
                proof {
                    assert(self@.warnings =~= before.warnings.push(
                        WarningView::LocalManga { title: manga@.title },
                    ));
                }
            },
            MangaOutcome::Ignored => {
                self.ignored_manga = self.ignored_manga + 1;
            },
            MangaOutcome::UnknownSource(source) => {
                let id = decimal(manga.source);
                let repeated = has_text(&self.unknown_sources, id.as_str());
                self.warnings.push(
                    Warning::UnknownSource {
                        title: manga.title.clone(),
                        source_id: manga.source,
                        repeated,
                    },
                );
                if !repeated {
                    self.unknown_sources.push(id);
                }
                bump(&mut self.errored_sources_count, source.name.as_str(), self.errored_manga);
                put_text(&mut self.errored_sources, source.name, source.baseUrl);
                self.errored_manga = self.errored_manga + 1;
                proof {
                    assert(self@.warnings =~= before.warnings.push(
                        WarningView::UnknownSource {
                            title: manga@.title,
                            source_id: manga@.source,
                            repeated,
                        },
                    ));
                    if !repeated {
                        assert(self@.unknown_sources =~= before.unknown_sources.push(
                            decimal_of(manga.source as int),
                        ));
                    }
                }
            },
            MangaOutcome::Failed(source, error) => {
                bump(&mut self.errored_sources_count, source.name.as_str(), self.errored_manga);
                let ghost failure = WarningView::ConversionFailed {
                    title: manga@.title,
                    source_name: source@.name,
                    base_url: source@.base_url,
                    error: error@,
                };
                self.warnings.push(
                    Warning::ConversionFailed {
                        title: manga.title.clone(),
                        source_name: source.name,
                        base_url: source.baseUrl,
                        error,
                    },
                );
                self.errored_manga = self.errored_manga + 1;
                proof {
                    assert(self@.warnings =~= before.warnings.push(failure));
                }
            },
            MangaOutcome::NoParser(source) => {
                bump(&mut self.errored_sources_count, source.name.as_str(), self.errored_manga);
                put_new_text(
                    &mut self.errored_sources,
                    source.name.clone(),
                    source.baseUrl.clone(),
                );
                let ghost missing = WarningView::ParserNotFound {
                    title: manga@.title,
                    source_name: source@.name,
                    base_url: source@.base_url,
                };
                self.warnings.push(
                    Warning::ParserNotFound {
                        title: manga.title.clone(),
                        source_name: source.name,
                        base_url: source.baseUrl,
                    },
                );
                self.errored_manga = self.errored_manga + 1;
                proof {
                    assert(self@.warnings =~= before.warnings.push(missing));
                }
            },
            MangaOutcome::Converted(records) => {
                let ghost wanted = before.recorded(manga@, outcome@);
                let MangaRecords { manga: converted, favourites, bookmarks, history, chapter_error } =
                    records;
                let mut favourites = favourites;
                self.favourites.append(&mut favourites);
                if bookmarks.len() > 0 {
                    self.bookmarks.push(KotatsuBookmarkBackup { manga: converted, bookmarks });
                }
                self.history.push(history);
                match chapter_error {
                    Some(error) => {
                        self.warnings.push(
                            Warning::ChapterIdFallback { title: manga.title.clone(), cause: error },
                        );
                    },
                    None => {},
                }
                proof {
                    assert(self@.favourites =~= wanted.favourites);
                    assert(self@.bookmarks =~= wanted.bookmarks);
                    assert(self@.history =~= wanted.history);
                    assert(self@.warnings =~= wanted.warnings);
                }
            },
        }
    }
}

} // verus!
