//! The records of one manga: how the record of the target format and the
//! favourites, bookmarks and reading state that go with it are made from a
//! manga of the origin backup, once its source is resolved and its URLs and
//! identifiers are corrected.

use vstd::prelude::*;
use vstd::string::StringExecFns;
use crate::correction::str_eq;
use crate::ident::{get_kotatsu_id, kotatsu_id};
use crate::kotatsu::{
    KotatsuBookmarkEntry, KotatsuBookmarkEntryView, KotatsuFavouriteBackup, KotatsuFavouriteView,
    KotatsuHistoryBackup, KotatsuHistoryView, KotatsuMangaBackup, KotatsuMangaView, Percent,
    UNRATED,
};
use crate::neko::{
    views, BackupChapter, BackupHistory, BackupManga, ChapterView, HistoryView, MangaView,
};
use crate::report::{ConversionError, ConversionErrorView};
use crate::urls::{ParsedUrl, ParsedUrlView};

verus! {

/// The id of the category that holds every converted manga.
pub const CATEGORY_DEFAULT: i64 = 2;

/// What is added to the id of an origin category, so that none falls on the
/// id of the category of all manga.
pub const CATEGORY_OFFSET: i64 = 3;

/// The name of the publication state with the given code of the origin
/// ecosystem.
pub open spec fn state_of(status: i32) -> Seq<char> {
    if status == 1 {
        "ONGOING"@
    } else if status == 2 || status == 4 {
        "FINISHED"@
    } else if status == 5 {
        "ABANDONED"@
    } else if status == 6 {
        "PAUSED"@
    } else {
        Seq::empty()
    }
}

/// The manga of the target format for a manga of the origin backup, given the
/// canonical name of its source, its corrected relative and public URL, and
/// the text that identifies it.
pub open spec fn assembled(
    manga: MangaView,
    source_name: Seq<char>,
    relative_url: Seq<char>,
    identifier: Seq<char>,
    public_url: Seq<char>,
) -> KotatsuMangaView {
    KotatsuMangaView {
        id: kotatsu_id(source_name, identifier),
        title: manga.title,
        alt_title: None,
        url: relative_url,
        public_url,
        rating: UNRATED,
        nsfw: false,
        cover_url: manga.thumbnail_url,
        large_cover_url: Some(manga.thumbnail_url),
        state: state_of(manga.status),
        author: manga.author,
        source: source_name,
    }
}

/// What the error about a public URL without a path says.
pub open spec fn empty_path_message(url: Seq<char>) -> Seq<char> {
    "Empty path for public url; resulting url: '"@ + url + "'"@
}

/// The check on a public URL: its path is more than the root.
pub open spec fn public_url_checked(parsed: ParsedUrlView) -> Result<(), ConversionErrorView> {
    if parsed.path == "/"@ {
        Err(ConversionErrorView::URLCheckError(empty_path_message(parsed.text)))
    } else {
        Ok(())
    }
}

/// How far a chapter was read: pages read out of pages read and pages left,
/// 0 where both are 0.
pub open spec fn page_percent(read: i32, left: i32) -> Percent {
    if read + left == 0 {
        Percent::Zero
    } else {
        Percent::OfPages { read, total: (read + left) as i64 }
    }
}

/// The bookmark of a chapter that is flagged as bookmarked.
pub open spec fn bookmark_of(
    manga: KotatsuMangaView,
    chapter: ChapterView,
    chapter_id: i64,
) -> KotatsuBookmarkEntryView {
    KotatsuBookmarkEntryView {
        manga_id: manga.id,
        page_id: 0,
        chapter_id,
        page: chapter.last_page_read,
        scroll: 0,
        image_url: manga.cover_url,
        created_at: 0,
        percent: page_percent(chapter.last_page_read, chapter.pages_left),
    }
}

/// Among the first `n` chapters, the index of the read chapter with the
/// highest number; of several with that number, the first.
pub open spec fn latest_read(chapters: Seq<ChapterView>, n: int) -> Option<int>
    decreases n,
{
    if n <= 0 {
        None
    } else {
        let checking = chapters[n - 1];
        match latest_read(chapters, n - 1) {
            None => if checking.read {
                Some(n - 1)
            } else {
                None
            },
            Some(current) => if checking.read && checking.chapter_number.greater_than(
                chapters[current].chapter_number,
            ) {
                Some(n - 1)
            } else {
                Some(current)
            },
        }
    }
}

/// Among the first `n` chapters, the index of the chapter with the highest
/// number in the total order; of several with that number, the last.
pub open spec fn newest_cached(chapters: Seq<ChapterView>, n: int) -> Option<int>
    decreases n,
{
    if n <= 0 {
        None
    } else {
        match newest_cached(chapters, n - 1) {
            None => Some(n - 1),
            Some(current) => if chapters[n - 1].chapter_number.total_key()
                >= chapters[current].chapter_number.total_key() {
                Some(n - 1)
            } else {
                Some(current)
            },
        }
    }
}

/// The latest time of reading among the first `n` reading records.
pub open spec fn max_read(history: Seq<HistoryView>, n: int) -> Option<i64>
    decreases n,
{
    if n <= 0 {
        None
    } else {
        match max_read(history, n - 1) {
            None => Some(history[n - 1].last_read),
            Some(current) => if history[n - 1].last_read > current {
                Some(history[n - 1].last_read)
            } else {
                Some(current)
            },
        }
    }
}

/// How far a manga was read: the number of the latest read chapter divided
/// by that of the newest chapter, 0 where one of the two is missing or not
/// greater than 0.
pub open spec fn chapter_percent(chapters: Seq<ChapterView>) -> Percent {
    match (latest_read(chapters, chapters.len() as int), newest_cached(
        chapters,
        chapters.len() as int,
    )) {
        (Some(latest), Some(newest)) => if chapters[latest].chapter_number.is_positive()
            && chapters[newest].chapter_number.is_positive() {
            Percent::OfChapters {
                latest: chapters[latest].chapter_number,
                newest: chapters[newest].chapter_number,
            }
        } else {
            Percent::Zero
        },
        _ => Percent::Zero,
    }
}

/// The reading state of a manga. `chapter_id` is the identifier of its
/// latest read chapter, and is not looked at where it has none.
pub open spec fn history_of(
    manga: MangaView,
    converted: KotatsuMangaView,
    chapter_id: i64,
) -> KotatsuHistoryView {
    let latest = latest_read(manga.chapters, manga.chapters.len() as int);
    KotatsuHistoryView {
        manga_id: converted.id,
        created_at: manga.date_added,
        updated_at: match max_read(manga.history, manga.history.len() as int) {
            Some(time) => time,
            None => manga.last_update,
        },
        chapter_id: if latest is Some {
            chapter_id
        } else {
            0
        },
        page: match latest {
            Some(index) => manga.chapters[index].last_page_read,
            None => 0,
        },
        scroll: 0,
        percent: chapter_percent(manga.chapters),
        manga: converted,
    }
}

/// The membership of a manga in the category with the id `category_id`.
pub open spec fn favourite_of(manga: KotatsuMangaView, category_id: i64) -> KotatsuFavouriteView {
    KotatsuFavouriteView {
        manga_id: manga.id,
        category_id,
        sort_key: 0,
        created_at: 0,
        deleted_at: 0,
        manga,
    }
}

/// The memberships of a manga: one for each of its origin categories, in
/// their order, then the one in the category of all manga.
pub open spec fn favourites_of(manga: KotatsuMangaView, categories: Seq<i32>) -> Seq<
    KotatsuFavouriteView,
> {
    Seq::new(
        categories.len() + 1,
        |i: int|
            favourite_of(
                manga,
                if i < categories.len() {
                    (categories[i] + CATEGORY_OFFSET) as i64
                } else {
                    CATEGORY_DEFAULT
                },
            ),
    )
}

/// The name of a publication state.
pub fn state_name(status: i32) -> (r: String)
    ensures
        r@ == state_of(status),
{
    if status == 1 {
        String::from_str("ONGOING")
    } else if status == 2 || status == 4 {
        String::from_str("FINISHED")
    } else if status == 5 {
        String::from_str("ABANDONED")
    } else if status == 6 {
        String::from_str("PAUSED")
    } else {
        String::new()
    }
}

/// Makes the manga of the target format from a manga of the origin backup
/// and the corrected texts.
pub fn assemble_manga(
    manga: &BackupManga,
    source_name: &str,
    relative_url: String,
    identifier: &str,
    public_url: String,
) -> (r: KotatsuMangaBackup)
    ensures
        r@ == assembled(manga@, source_name@, relative_url@, identifier@, public_url@),
{
    KotatsuMangaBackup {
        id: get_kotatsu_id(source_name, identifier),
        title: manga.title.clone(),
        alt_tile: None,
        url: relative_url,
        public_url,
        rating: UNRATED,
        nsfw: false,
        cover_url: manga.thumbnail_url.clone(),
        large_cover_url: Some(manga.thumbnail_url.clone()),
        state: state_name(manga.status),
        author: manga.author.clone(),
        source: String::from_str(source_name),
    }
}

/// Checks a parsed public URL: one whose path is the root is refused.
pub fn check_public_url(parsed: &ParsedUrl) -> (r: Result<(), ConversionError>)
    ensures
        match r {
            Ok(()) => public_url_checked(parsed@) == Ok::<(), ConversionErrorView>(()),
            Err(error) => public_url_checked(parsed@) == Err::<(), ConversionErrorView>(error@),
        },
{
    if str_eq(parsed.path.as_str(), "/") {
        Err(
            ConversionError::URLCheckError(
                String::from_str("Empty path for public url; resulting url: '").concat(
                    parsed.text.as_str(),
                ).concat("'"),
            ),
        )
    } else {
        Ok(())
    }
}

/// How far a chapter with the given page counts was read.
pub fn percent_of_pages(read: i32, left: i32) -> (r: Percent)
    ensures
        r == page_percent(read, left),
{
    let total: i64 = read as i64 + left as i64;
    if total == 0 {
        Percent::Zero
    } else {
        Percent::OfPages { read, total }
    }
}

/// The bookmark of a chapter, given the identifier of the chapter.
pub fn bookmark_entry(manga: &KotatsuMangaBackup, chapter: &BackupChapter, chapter_id: i64) -> (r:
    KotatsuBookmarkEntry)
    ensures
        r@ == bookmark_of(manga@, chapter@, chapter_id),
{
    KotatsuBookmarkEntry {
        manga_id: manga.id,
        page_id: 0,
        chapter_id,
        page: chapter.last_page_read,
        scroll: 0,
        image_url: manga.cover_url.clone(),
        created_at: 0,
        percent: percent_of_pages(chapter.last_page_read, chapter.pages_left),
    }
}

/// The index of the latest read chapter.
pub fn latest_chapter(chapters: &Vec<BackupChapter>) -> (r: Option<usize>)
    ensures
        match r {
            Some(index) => latest_read(views(chapters@), chapters@.len() as int) == Some(
                index as int,
            ) && index < chapters.len(),
            None => latest_read(views(chapters@), chapters@.len() as int) is None,
        },
{
    let mut best: Option<usize> = None;
    let mut i: usize = 0;
    while i < chapters.len()
        invariant
            i <= chapters.len(),
            match best {
                Some(index) => latest_read(views(chapters@), i as int) == Some(index as int)
                    && index < i,
                None => latest_read(views(chapters@), i as int) is None,
            },
        decreases chapters.len() - i,
    {
        let checking = &chapters[i];
        match best {
            None => {
                if checking.read {
                    best = Some(i);
                }
            },
            Some(current) => {
                if checking.read && checking.chapter_number.gt(chapters[current].chapter_number) {
                    best = Some(i);
                }
            },
        }
        i += 1;
    }
    best
}

/// The index of the chapter with the highest number.
pub fn newest_chapter(chapters: &Vec<BackupChapter>) -> (r: Option<usize>)
    ensures
        match r {
            Some(index) => newest_cached(views(chapters@), chapters@.len() as int) == Some(
                index as int,
            ) && index < chapters.len(),
            None => newest_cached(views(chapters@), chapters@.len() as int) is None,
        },
{
    let mut best: Option<usize> = None;
    let mut i: usize = 0;
    while i < chapters.len()
        invariant
            i <= chapters.len(),
            match best {
                Some(index) => newest_cached(views(chapters@), i as int) == Some(index as int)
                    && index < i,
                None => newest_cached(views(chapters@), i as int) is None,
            },
        decreases chapters.len() - i,
    {
        match best {
            None => {
                best = Some(i);
            },
            Some(current) => {
                if chapters[i].chapter_number.total_ge(chapters[current].chapter_number) {
                    best = Some(i);
                }
            },
        }
        i += 1;
    }
    best
}

/// The latest time of reading, or `fallback` where there is no reading record.
pub fn last_read(history: &Vec<BackupHistory>, fallback: i64) -> (r: i64)
    ensures
        r == match max_read(views(history@), history@.len() as int) {
            Some(time) => time,
            None => fallback,
        },
{
    let mut best: Option<i64> = None;
    let mut i: usize = 0;
    while i < history.len()
        invariant
            i <= history.len(),
            best == max_read(views(history@), i as int),
        decreases history.len() - i,
    {
        match best {
            None => {
                best = Some(history[i].last_read);
            },
            Some(current) => {
                if history[i].last_read > current {
                    best = Some(history[i].last_read);
                }
            },
        }
        i += 1;
    }
    match best {
        Some(time) => time,
        None => fallback,
    }
}

/// How far a manga with the given chapters was read.
pub fn percent_of_chapters(chapters: &Vec<BackupChapter>) -> (r: Percent)
    ensures
        r == chapter_percent(views(chapters@)),
{
    match (latest_chapter(chapters), newest_chapter(chapters)) {
        (Some(latest), Some(newest)) => {
            let read = chapters[latest].chapter_number;
            let cached = chapters[newest].chapter_number;
            if read.positive() && cached.positive() {
                Percent::OfChapters { latest: read, newest: cached }
            } else {
                Percent::Zero
            }
        },
        _ => Percent::Zero,
    }
}

/// The reading state of a manga, given the identifier of its latest read
/// chapter.
pub fn history_entry(manga: &BackupManga, converted: KotatsuMangaBackup, chapter_id: i64) -> (r:
    KotatsuHistoryBackup)
    ensures
        r@ == history_of(manga@, converted@, chapter_id),
{
    let latest = latest_chapter(&manga.chapters);
    let percent = percent_of_chapters(&manga.chapters);
    let page: i32 = match latest {
        Some(index) => {
            manga.chapters[index].last_page_read
        },
        None => 0,
    };
    KotatsuHistoryBackup {
        manga_id: converted.id,
        created_at: manga.date_added,
        updated_at: last_read(&manga.history, manga.last_update),
        chapter_id: if latest.is_some() {
            chapter_id
        } else {
            0
        },
        page,
        scroll: 0,
        percent,
        manga: converted,
    }
}

/// The memberships of a manga in its categories.
pub fn favourites(manga: &KotatsuMangaBackup, categories: &Vec<i32>) -> (r: Vec<
    KotatsuFavouriteBackup,
>)
    ensures
        views(r@) == favourites_of(manga@, categories@),
{
    let mut out: Vec<KotatsuFavouriteBackup> = Vec::new();
    let mut i: usize = 0;
    while i < categories.len()
        invariant
            i <= categories.len(),
            out.len() == i,
            forall|j: int| 0 <= j < i ==> (#[trigger] out@[j])@ == favourites_of(manga@, categories@)[j],
        decreases categories.len() - i,
    {
        out.push(
            KotatsuFavouriteBackup {
                manga_id: manga.id,
                category_id: categories[i] as i64 + CATEGORY_OFFSET,
                sort_key: 0,
                created_at: 0,
                deleted_at: 0,
                manga: manga.clone(),
            },
        );
        i += 1;
    }
    out.push(
        KotatsuFavouriteBackup {
            manga_id: manga.id,
            category_id: CATEGORY_DEFAULT,
            sort_key: 0,
            created_at: 0,
            deleted_at: 0,
            manga: manga.clone(),
        },
    );
    out
}

} // verus!
