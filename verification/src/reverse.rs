//! The reverse direction: from the records of a target backup to an origin
//! backup. Only manga, categories and memberships come back; what belongs
//! to chapters is not in a target backup in a form that can be read back.

use vstd::prelude::*;
use vstd::string::StringExecFns;
use crate::correction::str_eq;
use crate::kotatsu::{
    KotatsuCategoryBackup, KotatsuCategoryView, KotatsuFavouriteBackup, KotatsuFavouriteView,
    KotatsuHistoryBackup, KotatsuHistoryView, KotatsuMangaBackup, KotatsuMangaView,
};
use crate::neko::{views, Backup, BackupCategory, BackupManga, BackupView, CategoryView, MangaView};
use crate::resolve::MANGADEX_ID;
use crate::text::{from_chars, has_suffix, matches_at, to_chars};

verus! {

/// The code of the origin ecosystem for a publication state.
pub open spec fn status_of(state: Seq<char>) -> i32 {
    if state == "ONGOING"@ {
        1
    } else if state == "FINISHED"@ {
        2
    } else if state == "ABANDONED"@ {
        5
    } else if state == "PAUSED"@ {
        6
    } else {
        0
    }
}

/// The URL of a cover without the ending that asks for a small picture.
pub open spec fn full_cover(cover: Seq<char>) -> Seq<char> {
    if has_suffix(cover, ".256.jpg"@) {
        cover.take(cover.len() - ".256.jpg"@.len())
    } else {
        cover
    }
}

/// The manga of an origin backup for a manga of the target format. It is
/// filed under MangaDex; the target format has one name for author and
/// artist.
pub open spec fn neko_manga_of(manga: KotatsuMangaView) -> MangaView {
    MangaView {
        source: MANGADEX_ID,
        url: manga.public_url,
        title: manga.title,
        artist: manga.author,
        author: manga.author,
        status: status_of(manga.state),
        thumbnail_url: full_cover(manga.cover_url),
        date_added: 0,
        last_update: 0,
        chapters: Seq::empty(),
        categories: Seq::empty(),
        history: Seq::empty(),
    }
}

/// The 32-bit two's-complement integer congruent to `x` modulo 2^32.
pub open spec fn wrap_i32(x: int) -> i32 {
    let m = x % 0x1_0000_0000;
    if m > i32::MAX {
        (m - 0x1_0000_0000) as i32
    } else {
        m as i32
    }
}

/// The manga that were met, each under the id of its first occurrence.
pub struct Shelf {
    pub ids: Seq<i64>,
    pub manga: Seq<MangaView>,
}

/// The categories that were met, each under the id of its first occurrence.
pub struct Labels {
    pub ids: Seq<i64>,
    pub categories: Seq<CategoryView>,
}

/// The index of `id` in `ids`, or the length of `ids` where it is not in it.
pub open spec fn index_of(ids: Seq<i64>, id: i64) -> int
    decreases ids.len(),
{
    if ids.len() == 0 {
        0
    } else if ids[0] == id {
        0
    } else {
        1 + index_of(ids.skip(1), id)
    }
}

impl Shelf {
    /// The shelf with the manga under `id`, unless it holds one under that id.
    pub open spec fn with_manga(self, id: i64, manga: KotatsuMangaView) -> Shelf {
        if index_of(self.ids, id) < self.ids.len() {
            self
        } else {
            Shelf { ids: self.ids.push(id), manga: self.manga.push(neko_manga_of(manga)) }
        }
    }

    /// The shelf after a membership: it holds the manga of the membership,
    /// which is in one more category.
    pub open spec fn with_favourite(self, favourite: KotatsuFavouriteView) -> Shelf {
        let held = self.with_manga(favourite.manga_id, favourite.manga);
        let index = index_of(held.ids, favourite.manga_id);
        let manga = held.manga[index];
        Shelf {
            ids: held.ids,
            manga: held.manga.update(
                index,
                MangaView {
                    categories: manga.categories.push(wrap_i32(favourite.category_id as int)),
                    ..manga
                },
            ),
        }
    }
}

impl Labels {
    /// The labels with the category, unless they hold one under its id.
    pub open spec fn with_category(self, category: KotatsuCategoryView) -> Labels {
        if index_of(self.ids, category.category_id) < self.ids.len() {
            self
        } else {
            Labels {
                ids: self.ids.push(category.category_id),
                categories: self.categories.push(
                    CategoryView {
                        name: category.title,
                        order: category.sort_key,
                        id: None,
                        manga_sort: None,
                    },
                ),
            }
        }
    }
}

/// The shelf after the first `n` reading states.
pub open spec fn shelf_of_history(history: Seq<KotatsuHistoryView>, n: int) -> Shelf
    decreases n,
{
    if n <= 0 {
        Shelf { ids: Seq::empty(), manga: Seq::empty() }
    } else {
        shelf_of_history(history, n - 1).with_manga(history[n - 1].manga_id, history[n - 1].manga)
    }
}

/// The shelf `start` after the first `n` memberships.
pub open spec fn shelf_of_favourites(
    start: Shelf,
    favourites: Seq<KotatsuFavouriteView>,
    n: int,
) -> Shelf
    decreases n,
{
    if n <= 0 {
        start
    } else {
        shelf_of_favourites(start, favourites, n - 1).with_favourite(favourites[n - 1])
    }
}

/// The labels after the first `n` categories.
pub open spec fn labels_of(categories: Seq<KotatsuCategoryView>, n: int) -> Labels
    decreases n,
{
    if n <= 0 {
        Labels { ids: Seq::empty(), categories: Seq::empty() }
    } else {
        labels_of(categories, n - 1).with_category(categories[n - 1])
    }
}

/// The origin backup for the records of a target backup: its manga in the
/// order in which the reading states and then the memberships name them for
/// the first time, each in the categories of its memberships, and its
/// categories in the order of their first occurrence.
pub open spec fn reversed(
    history: Seq<KotatsuHistoryView>,
    categories: Seq<KotatsuCategoryView>,
    favourites: Seq<KotatsuFavouriteView>,
) -> BackupView {
    BackupView {
        manga: shelf_of_favourites(
            shelf_of_history(history, history.len() as int),
            favourites,
            favourites.len() as int,
        ).manga,
        categories: labels_of(categories, categories.len() as int).categories,
    }
}

/// The code of the origin ecosystem for a publication state.
pub fn status_code(state: &str) -> (r: i32)
    ensures
        r == status_of(state@),
{
    if str_eq(state, "ONGOING") {
        1
    } else if str_eq(state, "FINISHED") {
        2
    } else if str_eq(state, "ABANDONED") {
        5
    } else if str_eq(state, "PAUSED") {
        6
    } else {
        0
    }
}

/// The manga of an origin backup for a manga of the target format.
pub fn kotatsu_to_neko_manga(manga: &KotatsuMangaBackup) -> (r: BackupManga)
    ensures
        r@ == neko_manga_of(manga@),
{
    let cover = to_chars(manga.cover_url.as_str());
    let ending = to_chars(".256.jpg");
    let thumbnail_url = if cover.len() >= ending.len() && matches_at(
        &cover,
        &ending,
        cover.len() - ending.len(),
    ) {
        let kept = from_chars(&cover, 0, cover.len() - ending.len());
        kept
    } else {
        manga.cover_url.clone()
    };
    let r = BackupManga {
        source: MANGADEX_ID,
        url: manga.public_url.clone(),
        title: manga.title.clone(),
        artist: manga.author.clone(),
        author: manga.author.clone(),
        status: status_code(manga.state.as_str()),
        thumbnail_url,
        date_added: 0,
        last_update: 0,
        chapters: Vec::new(),
        categories: Vec::new(),
        history: Vec::new(),
    };
    proof {
        assert(r@.chapters =~= Seq::empty());
        assert(r@.history =~= Seq::empty());
    }
    r
}

/// The integer of 32 bits that the low 32 bits of `x` denote.
pub fn truncate(x: i64) -> (r: i32)
    ensures
        r == wrap_i32(x as int),
{
    let range: i64 = 0x1_0000_0000;
    let m: i64 = if x >= 0 {
        x % range
    } else {
        let k: i64 = (-(x + 1)) % range;
        assert((x as int) % 0x1_0000_0000 == 0x1_0000_0000 - 1 - k);
        range - 1 - k
    };
    if m > 0x7fff_ffff {
        (m - range) as i32
    } else {
        m as i32
    }
}

/// The index of `id` in `ids`, or the length of `ids`.
fn find_id(ids: &Vec<i64>, id: i64) -> (r: usize)
    ensures
        r == index_of(ids@, id),
        r <= ids.len(),
        r < ids.len() ==> ids@[r as int] == id,
{
    let mut i: usize = 0;
    assert(ids@.skip(0) =~= ids@);
    while i < ids.len()
        invariant
            i <= ids.len(),
            index_of(ids@, id) == i + index_of(ids@.skip(i as int), id),
        decreases ids.len() - i,
    {
        assert(ids@.skip(i as int).skip(1) =~= ids@.skip(i + 1));
        if ids[i] == id {
            return i;
        }
        i += 1;
    }
    i
}

/// Whether `id` is one of `ids`.
pub fn has_id(ids: &Vec<i64>, id: i64) -> (r: bool)
    ensures
        r == ids@.contains(id),
{
    let mut i: usize = 0;
    while i < ids.len()
        invariant
            i <= ids.len(),
            forall|j: int| 0 <= j < i ==> ids@[j] != id,
        decreases ids.len() - i,
    {
        if ids[i] == id {
            return true;
        }
        i += 1;
    }
    false
}

/// Puts the manga on the shelf under `id`, unless one is there.
fn shelve(ids: &mut Vec<i64>, shelf: &mut Vec<BackupManga>, id: i64, manga: &KotatsuMangaBackup)
    requires
        old(ids)@.len() == old(shelf)@.len(),
    ensures
        final(ids)@.len() == final(shelf)@.len(),
        (Shelf { ids: final(ids)@, manga: views(final(shelf)@) }) == (Shelf {
            ids: old(ids)@,
            manga: views(old(shelf)@),
        }).with_manga(id, manga@),
{
    if find_id(ids, id) >= ids.len() {
        ids.push(id);
        shelf.push(kotatsu_to_neko_manga(manga));
        assert(views(shelf@) =~= views(old(shelf)@).push(neko_manga_of(manga@)));
    }
}

/// The origin backup for the records of a target backup.
pub fn kotatsu_to_neko(
    history: &Vec<KotatsuHistoryBackup>,
    categories: &Vec<KotatsuCategoryBackup>,
    favourites: &Vec<KotatsuFavouriteBackup>,
) -> (r: Backup)
    ensures
        r@ == reversed(views(history@), views(categories@), views(favourites@)),
{
    let mut ids: Vec<i64> = Vec::new();
    let mut shelf: Vec<BackupManga> = Vec::new();
    let mut i: usize = 0;
    assert(views(shelf@) =~= Seq::<MangaView>::empty());
    while i < history.len()
        invariant
            i <= history.len(),
            ids@.len() == shelf@.len(),
            (Shelf { ids: ids@, manga: views(shelf@) }) == shelf_of_history(
                views(history@),
                i as int,
            ),
        decreases history.len() - i,
    {
        shelve(&mut ids, &mut shelf, history[i].manga_id, &history[i].manga);
        i += 1;
    }
    let ghost start = Shelf { ids: ids@, manga: views(shelf@) };
    let mut label_ids: Vec<i64> = Vec::new();
    let mut labels: Vec<BackupCategory> = Vec::new();
    let mut c: usize = 0;
    assert(views(labels@) =~= Seq::<CategoryView>::empty());
    while c < categories.len()
        invariant
            c <= categories.len(),
            (Labels { ids: label_ids@, categories: views(labels@) }) == labels_of(
                views(categories@),
                c as int,
            ),
        decreases categories.len() - c,
    {
        let category = &categories[c];
        let ghost before = views(labels@);
        if find_id(&label_ids, category.category_id) >= label_ids.len() {
            label_ids.push(category.category_id);
            labels.push(
                BackupCategory {
                    name: category.title.clone(),
                    order: category.sort_key,
                    id: None,
                    manga_sort: None,
                },
            );
            assert(views(labels@) =~= before.push(
                CategoryView {
                    name: category@.title,
                    order: category@.sort_key,
                    id: None,
                    manga_sort: None,
                },
            ));
        }
        c += 1;
    }
    let mut f: usize = 0;
    while f < favourites.len()
        invariant
            f <= favourites.len(),
            ids@.len() == shelf@.len(),
            start == shelf_of_history(views(history@), history@.len() as int),
            (Shelf { ids: ids@, manga: views(shelf@) }) == shelf_of_favourites(
                start,
                views(favourites@),
                f as int,
            ),
            (Labels { ids: label_ids@, categories: views(labels@) }) == labels_of(
                views(categories@),
                categories@.len() as int,
            ),
        decreases favourites.len() - f,
    {
        let favourite = &favourites[f];
        shelve(&mut ids, &mut shelf, favourite.manga_id, &favourite.manga);
        let index = find_id(&ids, favourite.manga_id);
        assert(index < ids.len()) by {
            if ids@.len() > 0 && ids@.last() == favourite.manga_id {
                lemma_index_of_last(ids@, favourite.manga_id);
            }
        }
        let ghost held = views(shelf@);
        let mut manga = shelf.remove(index);
        let ghost before = manga@;
        manga.categories.push(truncate(favourite.category_id));
        let ghost after = manga@;
        shelf.insert(index, manga);
        proof {
            assert(views(shelf@) =~= held.update(index as int, after));
        }
        f += 1;
    }
    Backup { backup_manga: shelf, backup_categories: labels }
}

/// An id that is the last of a list has an index in the list.
proof fn lemma_index_of_last(ids: Seq<i64>, id: i64)
    requires
        ids.len() > 0,
        ids.last() == id,
    ensures
        index_of(ids, id) < ids.len(),
    decreases ids.len(),
{
    if ids[0] != id {
        lemma_index_of_last(ids.skip(1), id);
    }
}

} // verus!
