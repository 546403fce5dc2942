//! The origin backup: the records that a decoded Neko backup holds, as far as
//! conversion reads them.

use vstd::prelude::*;

verus! {

/// Views of the elements of a sequence.
pub open spec fn views<T: View>(s: Seq<T>) -> Seq<T::V> {
    s.map_values(|t: T| t@)
}

/// A chapter number: a single-precision IEEE 754 number, held as its bit
/// pattern. Bit 31 is the sign, the low 31 bits order the magnitudes, and a
/// magnitude above that of infinity is not a number.
#[derive(Clone, Copy, Debug, PartialEq, Eq, Structural)]
pub struct ChapterNumber {
    pub bits: u32,
}

impl ChapterNumber {
    /// The bit pattern without the sign bit.
    pub open spec fn magnitude(self) -> int {
        (self.bits % 0x8000_0000) as int
    }

    /// The sign bit is set.
    pub open spec fn negative(self) -> bool {
        self.bits >= 0x8000_0000
    }

    /// The pattern denotes no number.
    pub open spec fn is_nan(self) -> bool {
        self.magnitude() > 0x7f80_0000
    }

    /// An integer that orders the numbers as their values are ordered; both
    /// zeros have key 0.
    pub open spec fn order_key(self) -> int {
        if self.negative() {
            -self.magnitude()
        } else {
            self.magnitude()
        }
    }

    /// `self > other` as numbers: false as soon as one of them is no number.
    pub open spec fn greater_than(self, other: ChapterNumber) -> bool {
        !self.is_nan() && !other.is_nan() && self.order_key() > other.order_key()
    }

    /// `self > 0.0` as numbers.
    pub open spec fn is_positive(self) -> bool {
        !self.is_nan() && self.order_key() > 0
    }

    /// An integer that orders all bit patterns as the IEEE 754 total order
    /// does: negative patterns below positive ones, minus zero below zero.
    pub open spec fn total_key(self) -> int {
        if self.negative() {
            -self.magnitude() - 1
        } else {
            self.magnitude()
        }
    }

    /// The chapter number with the given bit pattern.
    pub fn from_bits(bits: u32) -> (r: Self)
        ensures
            r.bits == bits,
    {
        ChapterNumber { bits }
    }

    /// Whether `self > other` as numbers.
    pub fn gt(self, other: ChapterNumber) -> (r: bool)
        ensures
            r == self.greater_than(other),
    {
        let a: u32 = self.bits % 0x8000_0000;
        let b: u32 = other.bits % 0x8000_0000;
        if a > 0x7f80_0000 || b > 0x7f80_0000 {
            return false;
        }
        let a_neg = self.bits >= 0x8000_0000;
        let b_neg = other.bits >= 0x8000_0000;
        if a_neg {
            if b_neg {
                a < b
            } else {
                false
            }
        } else {
            if b_neg {
                a > 0 || b > 0
            } else {
                a > b
            }
        }
    }

    /// Whether `self > 0.0` as a number.
    pub fn positive(self) -> (r: bool)
        ensures
            r == self.is_positive(),
    {
        let a: u32 = self.bits % 0x8000_0000;
        self.bits < 0x8000_0000 && a > 0 && a <= 0x7f80_0000
    }

    /// Whether `self` is at least `other` in the total order.
    pub fn total_ge(self, other: ChapterNumber) -> (r: bool)
        ensures
            r == (self.total_key() >= other.total_key()),
    {
        let a: u32 = self.bits % 0x8000_0000;
        let b: u32 = other.bits % 0x8000_0000;
        let a_neg = self.bits >= 0x8000_0000;
        let b_neg = other.bits >= 0x8000_0000;
        if a_neg {
            if b_neg {
                a <= b
            } else {
                false
            }
        } else {
            if b_neg {
                true
            } else {
                a >= b
            }
        }
    }
}

/// One chapter of a manga in the origin backup.
#[derive(Debug)]
pub struct BackupChapter {
    pub url: String,
    pub read: bool,
    pub bookmark: bool,
    pub last_page_read: i32,
    pub pages_left: i32,
    pub chapter_number: ChapterNumber,
}

/// What a chapter holds.
pub struct ChapterView {
    pub url: Seq<char>,
    pub read: bool,
    pub bookmark: bool,
    pub last_page_read: i32,
    pub pages_left: i32,
    pub chapter_number: ChapterNumber,
}

impl View for BackupChapter {
    type V = ChapterView;

    open spec fn view(&self) -> ChapterView {
        ChapterView {
            url: self.url@,
            read: self.read,
            bookmark: self.bookmark,
            last_page_read: self.last_page_read,
            pages_left: self.pages_left,
            chapter_number: self.chapter_number,
        }
    }
}

/// One reading record of a manga in the origin backup.
#[derive(Debug)]
pub struct BackupHistory {
    pub url: String,
    pub last_read: i64,
}

/// What a reading record holds.
pub struct HistoryView {
    pub url: Seq<char>,
    pub last_read: i64,
}

impl View for BackupHistory {
    type V = HistoryView;

    open spec fn view(&self) -> HistoryView {
        HistoryView { url: self.url@, last_read: self.last_read }
    }
}

/// One manga of the origin backup.
#[derive(Debug)]
pub struct BackupManga {
    pub source: i64,
    pub url: String,
    pub title: String,
    pub artist: String,
    pub author: String,
    pub status: i32,
    pub thumbnail_url: String,
    pub date_added: i64,
    pub last_update: i64,
    pub chapters: Vec<BackupChapter>,
    pub categories: Vec<i32>,
    pub history: Vec<BackupHistory>,
}

/// What a manga of the origin backup holds.
pub struct MangaView {
    pub source: i64,
    pub url: Seq<char>,
    pub title: Seq<char>,
    pub artist: Seq<char>,
    pub author: Seq<char>,
    pub status: i32,
    pub thumbnail_url: Seq<char>,
    pub date_added: i64,
    pub last_update: i64,
    pub chapters: Seq<ChapterView>,
    pub categories: Seq<i32>,
    pub history: Seq<HistoryView>,
}

impl View for BackupManga {
    type V = MangaView;

    open spec fn view(&self) -> MangaView {
        MangaView {
            source: self.source,
            url: self.url@,
            title: self.title@,
            artist: self.artist@,
            author: self.author@,
            status: self.status,
            thumbnail_url: self.thumbnail_url@,
            date_added: self.date_added,
            last_update: self.last_update,
            chapters: views(self.chapters@),
            categories: self.categories@,
            history: views(self.history@),
        }
    }
}

/// One category of the origin backup.
#[derive(Debug)]
pub struct BackupCategory {
    pub name: String,
    pub order: i32,
    pub id: Option<i32>,
    pub manga_sort: Option<i32>,
}

/// What a category of the origin backup holds.
pub struct CategoryView {
    pub name: Seq<char>,
    pub order: i32,
    pub id: Option<i32>,
    pub manga_sort: Option<i32>,
}

impl View for BackupCategory {
    type V = CategoryView;

    open spec fn view(&self) -> CategoryView {
        CategoryView {
            name: self.name@,
            order: self.order,
            id: self.id,
            manga_sort: self.manga_sort,
        }
    }
}

/// A decoded origin backup: its manga and its categories, each in the order
/// of the file.
#[derive(Debug)]
pub struct Backup {
    pub backup_manga: Vec<BackupManga>,
    pub backup_categories: Vec<BackupCategory>,
}

/// What an origin backup holds.
pub struct BackupView {
    pub manga: Seq<MangaView>,
    pub categories: Seq<CategoryView>,
}

impl View for Backup {
    type V = BackupView;

    open spec fn view(&self) -> BackupView {
        BackupView {
            manga: views(self.backup_manga@),
            categories: views(self.backup_categories@),
        }
    }
}

} // verus!
