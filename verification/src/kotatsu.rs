//! The target backup: the records of a Kotatsu backup, and the parser records
//! of the knowledge base.

use vstd::prelude::*;
use vstd::string::StringExecFns;
use crate::neko::{views, ChapterNumber};

verus! {

/// The text of an optional string.
pub open spec fn opt_text(o: Option<String>) -> Option<Seq<char>> {
    match o {
        Some(s) => Some(s@),
        None => None,
    }
}

/// The texts of a sequence of strings.
pub open spec fn texts(s: Seq<String>) -> Seq<Seq<char>> {
    s.map_values(|t: String| t@)
}

/// A copy of an optional string.
pub fn clone_opt(o: &Option<String>) -> (r: Option<String>)
    ensures
        opt_text(r) == opt_text(*o),
{
    match o {
        Some(s) => Some(s.clone()),
        None => None,
    }
}

/// A copy of a list of strings.
pub fn clone_texts(v: &Vec<String>) -> (r: Vec<String>)
    ensures
        texts(r@) == texts(v@),
{
    let mut r: Vec<String> = Vec::new();
    let mut i: usize = 0;
    while i < v.len()
        invariant
            i <= v.len(),
            r.len() == i,
            texts(r@) == texts(v@).take(i as int),
        decreases v.len() - i,
    {
        let ghost before = r@;
        r.push(v[i].clone());
        i += 1;
        assert forall|j: int| 0 <= j < i implies #[trigger] texts(r@)[j] == texts(v@)[j] by {
            if j < i - 1 {
                assert(texts(before)[j] == texts(v@).take(i - 1)[j]);
            }
        }
    }
    r
}

/// How far a manga or a chapter has been read, as the quotient that the
/// target format stores as a number between 0 and 1.
#[derive(Clone, Copy, Debug, PartialEq, Eq, Structural)]
pub enum Percent {
    /// Nothing is known or nothing was read: 0.
    Zero,
    /// `read` pages out of `total`; `total` is not 0.
    OfPages { read: i32, total: i64 },
    /// The chapter number `latest` divided by `newest`, limited to the range
    /// from 0 to 1; both are greater than 0.
    OfChapters { latest: ChapterNumber, newest: ChapterNumber },
}

/// The sort orders that the target format names for a category.
#[allow(non_camel_case_types)]
#[derive(Clone, Copy, Debug, PartialEq, Eq, Structural)]
pub enum KotatsuListSortOrder {
    NEWEST,
    OLDEST,
    PROGRESS,
    UNREAD,
    ALPHABETIC,
    ALPHABETIC_REVERSE,
    RATING,
    RELEVANCE,
    NEW_CHAPTERS,
    LAST_READ,
    LONG_AGO_READ,
    UPDATED,
}

/// The rating that marks a manga as not rated.
pub const UNRATED: i32 = -1;

/// A manga in the target format.
#[derive(Debug)]
pub struct KotatsuMangaBackup {
    pub id: i64,
    pub title: String,
    pub alt_tile: Option<String>,
    pub url: String,
    pub public_url: String,
    pub rating: i32,
    pub nsfw: bool,
    pub cover_url: String,
    pub large_cover_url: Option<String>,
    pub state: String,
    pub author: String,
    pub source: String,
}

/// What a manga of the target format holds.
pub struct KotatsuMangaView {
    pub id: i64,
    pub title: Seq<char>,
    pub alt_title: Option<Seq<char>>,
    pub url: Seq<char>,
    pub public_url: Seq<char>,
    pub rating: i32,
    pub nsfw: bool,
    pub cover_url: Seq<char>,
    pub large_cover_url: Option<Seq<char>>,
    pub state: Seq<char>,
    pub author: Seq<char>,
    pub source: Seq<char>,
}

impl View for KotatsuMangaBackup {
    type V = KotatsuMangaView;

    open spec fn view(&self) -> KotatsuMangaView {
        KotatsuMangaView {
            id: self.id,
            title: self.title@,
            alt_title: opt_text(self.alt_tile),
            url: self.url@,
            public_url: self.public_url@,
            rating: self.rating,
            nsfw: self.nsfw,
            cover_url: self.cover_url@,
            large_cover_url: opt_text(self.large_cover_url),
            state: self.state@,
            author: self.author@,
            source: self.source@,
        }
    }
}

impl Clone for KotatsuMangaBackup {
    fn clone(&self) -> (r: Self)
        ensures
            r@ == self@,
    {
        KotatsuMangaBackup {
            id: self.id,
            title: self.title.clone(),
            alt_tile: clone_opt(&self.alt_tile),
            url: self.url.clone(),
            public_url: self.public_url.clone(),
            rating: self.rating,
            nsfw: self.nsfw,
            cover_url: self.cover_url.clone(),
            large_cover_url: clone_opt(&self.large_cover_url),
            state: self.state.clone(),
            author: self.author.clone(),
            source: self.source.clone(),
        }
    }
}

/// The reading state of one manga in the target format.
#[derive(Debug)]
pub struct KotatsuHistoryBackup {
    pub manga_id: i64,
    pub created_at: i64,
    pub updated_at: i64,
    pub chapter_id: i64,
    pub page: i32,
    pub scroll: i32,
    pub percent: Percent,
    pub manga: KotatsuMangaBackup,
}

/// What a reading state holds.
pub struct KotatsuHistoryView {
    pub manga_id: i64,
    pub created_at: i64,
    pub updated_at: i64,
    pub chapter_id: i64,
    pub page: i32,
    pub scroll: i32,
    pub percent: Percent,
    pub manga: KotatsuMangaView,
}

impl View for KotatsuHistoryBackup {
    type V = KotatsuHistoryView;

    open spec fn view(&self) -> KotatsuHistoryView {
        KotatsuHistoryView {
            manga_id: self.manga_id,
            created_at: self.created_at,
            updated_at: self.updated_at,
            chapter_id: self.chapter_id,
            page: self.page,
            scroll: self.scroll,
            percent: self.percent,
            manga: self.manga@,
        }
    }
}

/// A category in the target format.
#[derive(Debug)]
pub struct KotatsuCategoryBackup {
    pub category_id: i64,
    pub created_at: i64,
    pub sort_key: i32,
    pub title: String,
    pub order: Option<KotatsuListSortOrder>,
    pub track: Option<bool>,
    pub show_in_lib: Option<bool>,
    pub deleted_at: i64,
}

/// What a category of the target format holds.
pub struct KotatsuCategoryView {
    pub category_id: i64,
    pub created_at: i64,
    pub sort_key: i32,
    pub title: Seq<char>,
    pub order: Option<KotatsuListSortOrder>,
    pub track: Option<bool>,
    pub show_in_lib: Option<bool>,
    pub deleted_at: i64,
}

impl View for KotatsuCategoryBackup {
    type V = KotatsuCategoryView;

    open spec fn view(&self) -> KotatsuCategoryView {
        KotatsuCategoryView {
            category_id: self.category_id,
            created_at: self.created_at,
            sort_key: self.sort_key,
            title: self.title@,
            order: self.order,
            track: self.track,
            show_in_lib: self.show_in_lib,
            deleted_at: self.deleted_at,
        }
    }
}

/// The membership of one manga in one category.
#[derive(Debug)]
pub struct KotatsuFavouriteBackup {
    pub manga_id: i64,
    pub category_id: i64,
    pub sort_key: i32,
    pub created_at: i64,
    pub deleted_at: i64,
    pub manga: KotatsuMangaBackup,
}

/// What a membership holds.
pub struct KotatsuFavouriteView {
    pub manga_id: i64,
    pub category_id: i64,
    pub sort_key: i32,
    pub created_at: i64,
    pub deleted_at: i64,
    pub manga: KotatsuMangaView,
}

impl View for KotatsuFavouriteBackup {
    type V = KotatsuFavouriteView;

    open spec fn view(&self) -> KotatsuFavouriteView {
        KotatsuFavouriteView {
            manga_id: self.manga_id,
            category_id: self.category_id,
            sort_key: self.sort_key,
            created_at: self.created_at,
            deleted_at: self.deleted_at,
            manga: self.manga@,
        }
    }
}

/// One bookmark in a chapter.
#[derive(Debug)]
pub struct KotatsuBookmarkEntry {
    pub manga_id: i64,
    pub page_id: i64,
    pub chapter_id: i64,
    pub page: i32,
    pub scroll: i32,
    pub image_url: String,
    pub created_at: i64,
    pub percent: Percent,
}

/// What a bookmark holds.
pub struct KotatsuBookmarkEntryView {
    pub manga_id: i64,
    pub page_id: i64,
    pub chapter_id: i64,
    pub page: i32,
    pub scroll: i32,
    pub image_url: Seq<char>,
    pub created_at: i64,
    pub percent: Percent,
}

impl View for KotatsuBookmarkEntry {
    type V = KotatsuBookmarkEntryView;

    open spec fn view(&self) -> KotatsuBookmarkEntryView {
        KotatsuBookmarkEntryView {
            manga_id: self.manga_id,
            page_id: self.page_id,
            chapter_id: self.chapter_id,
            page: self.page,
            scroll: self.scroll,
            image_url: self.image_url@,
            created_at: self.created_at,
            percent: self.percent,
        }
    }
}

/// The bookmarks of one manga; there is at least one.
#[derive(Debug)]
pub struct KotatsuBookmarkBackup {
    pub manga: KotatsuMangaBackup,
    pub bookmarks: Vec<KotatsuBookmarkEntry>,
}

/// What the bookmarks of one manga hold.
pub struct KotatsuBookmarkView {
    pub manga: KotatsuMangaView,
    pub bookmarks: Seq<KotatsuBookmarkEntryView>,
}

impl View for KotatsuBookmarkBackup {
    type V = KotatsuBookmarkView;

    open spec fn view(&self) -> KotatsuBookmarkView {
        KotatsuBookmarkView { manga: self.manga@, bookmarks: views(self.bookmarks@) }
    }
}

/// The kind of content that a parser serves.
#[derive(Clone, Copy, Debug, PartialEq, Eq, Structural)]
pub enum KotatsuParserContentType {
    Manga,
    Hentai,
    Comics,
    Other,
}

/// One parser of the target ecosystem: its canonical name and the domains
/// that it serves.
#[derive(Debug)]
pub struct KotatsuParser {
    pub name: String,
    pub title: String,
    pub locale: Option<String>,
    pub content_type: KotatsuParserContentType,
    pub domains: Vec<String>,
}

/// What a parser record holds.
pub struct KotatsuParserView {
    pub name: Seq<char>,
    pub title: Seq<char>,
    pub locale: Option<Seq<char>>,
    pub content_type: KotatsuParserContentType,
    pub domains: Seq<Seq<char>>,
}

impl View for KotatsuParser {
    type V = KotatsuParserView;

    open spec fn view(&self) -> KotatsuParserView {
        KotatsuParserView {
            name: self.name@,
            title: self.title@,
            locale: opt_text(self.locale),
            content_type: self.content_type,
            domains: texts(self.domains@),
        }
    }
}

/// The entry that tells the target application which program wrote a backup,
/// and when.
#[derive(Debug)]
pub struct KotatsuIndexEntry {
    pub app_id: String,
    pub app_version: u64,
    pub created_at: u128,
}

impl KotatsuIndexEntry {
    /// The index entry of a backup written at `created_at`, in milliseconds
    /// since the Unix epoch.
    pub fn generate(created_at: u128) -> (r: Self)
        ensures
            r.app_id@ == "com.github.phantomshift.nekotatsu"@,
            r.app_version == 0,
            r.created_at == created_at,
    {
        Self {
            app_id: String::from_str("com.github.phantomshift.nekotatsu"),
            app_version: 0,
            created_at,
        }
    }
}

} // verus!
