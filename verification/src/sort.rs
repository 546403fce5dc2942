//! The sort mode of an origin category, and the sort order of
//! the target format.

use vstd::prelude::*;
use crate::kotatsu::KotatsuListSortOrder;

verus! {

/// The scheme under which the origin backup numbers its sort modes.
///
/// Mainline backups do not store a sort mode for their categories, which is
/// what `Default` is for.
#[derive(Clone, Copy, Debug, PartialEq, Eq, Structural)]
pub enum CategorySortType {
    Default,
    /// The classic scheme of J2K and Neko: a letter for the direction, moved
    /// on by two for each sort mode.
    J2K,
}

/// The sort modes of the J2K scheme. Their codes start at the character code
/// of `a` for the ascending and of `b` for the descending direction, and each
/// mode adds two.
#[derive(Clone, Copy, Debug, PartialEq, Eq, Structural)]
pub enum J2KMangaSort {
    TitleAscending,
    TitleDescending,
    LastReadAscending,
    LastReadDescending,
    LatestChapterAscending,
    LatestChapterDescending,
    UnreadAscending,
    UnreadDescending,
    TotalChaptersAscending,
    TotalChaptersDescending,
    DateAddedAscending,
    DateAddedDescending,
    DateFetchedAscending,
    DateFetchedDescending,
    DragAndDropAscending,
    DragAndDropDescending,
}

/// The lowest code of the J2K scheme.
pub const J2K_FIRST_CODE: i32 = 97;

/// The highest code of the J2K scheme.
pub const J2K_LAST_CODE: i32 = 112;

impl J2KMangaSort {
    /// The code under which the origin backup stores this sort mode.
    pub open spec fn code(self) -> int {
        match self {
            J2KMangaSort::TitleAscending => 97,
            J2KMangaSort::TitleDescending => 98,
            J2KMangaSort::LastReadAscending => 99,
            J2KMangaSort::LastReadDescending => 100,
            J2KMangaSort::LatestChapterAscending => 101,
            J2KMangaSort::LatestChapterDescending => 102,
            J2KMangaSort::UnreadAscending => 103,
            J2KMangaSort::UnreadDescending => 104,
            J2KMangaSort::TotalChaptersAscending => 105,
            J2KMangaSort::TotalChaptersDescending => 106,
            J2KMangaSort::DateAddedAscending => 107,
            J2KMangaSort::DateAddedDescending => 108,
            J2KMangaSort::DateFetchedAscending => 109,
            J2KMangaSort::DateFetchedDescending => 110,
            J2KMangaSort::DragAndDropAscending => 111,
            J2KMangaSort::DragAndDropDescending => 112,
        }
    }

    /// The sort order of the target format that comes closest to this mode.
    /// Where the target format has no equal, the nearest one stands in; the
    /// modes by total chapters and by hand have none and get `NEWEST`.
    pub open spec fn order(self) -> KotatsuListSortOrder {
        match self {
            J2KMangaSort::TitleAscending => KotatsuListSortOrder::ALPHABETIC,
            J2KMangaSort::TitleDescending => KotatsuListSortOrder::ALPHABETIC_REVERSE,
            J2KMangaSort::LastReadAscending => KotatsuListSortOrder::LAST_READ,
            J2KMangaSort::LastReadDescending => KotatsuListSortOrder::LONG_AGO_READ,
            J2KMangaSort::LatestChapterAscending => KotatsuListSortOrder::UPDATED,
            J2KMangaSort::LatestChapterDescending => KotatsuListSortOrder::OLDEST,
            J2KMangaSort::UnreadAscending => KotatsuListSortOrder::NEW_CHAPTERS,
            J2KMangaSort::UnreadDescending => KotatsuListSortOrder::PROGRESS,
            J2KMangaSort::TotalChaptersAscending => KotatsuListSortOrder::NEWEST,
            J2KMangaSort::TotalChaptersDescending => KotatsuListSortOrder::NEWEST,
            J2KMangaSort::DateAddedAscending => KotatsuListSortOrder::NEWEST,
            J2KMangaSort::DateAddedDescending => KotatsuListSortOrder::OLDEST,
            J2KMangaSort::DateFetchedAscending => KotatsuListSortOrder::UPDATED,
            J2KMangaSort::DateFetchedDescending => KotatsuListSortOrder::OLDEST,
            J2KMangaSort::DragAndDropAscending => KotatsuListSortOrder::NEWEST,
            J2KMangaSort::DragAndDropDescending => KotatsuListSortOrder::NEWEST,
        }
    }

    /// The sort mode with the given code, for the codes of the scheme.
    pub fn try_from(value: i32) -> (r: Result<Self, &'static str>)
        ensures
            r is Ok <==> J2K_FIRST_CODE <= value <= J2K_LAST_CODE,
            r matches Ok(sort) ==> sort.code() == value,
            r matches Err(reason) ==> reason@ == "not in range"@,
    {
        if value == 97 {
            Ok(J2KMangaSort::TitleAscending)
        } else if value == 98 {
            Ok(J2KMangaSort::TitleDescending)
        } else if value == 99 {
            Ok(J2KMangaSort::LastReadAscending)
        } else if value == 100 {
            Ok(J2KMangaSort::LastReadDescending)
        } else if value == 101 {
            Ok(J2KMangaSort::LatestChapterAscending)
        } else if value == 102 {
            Ok(J2KMangaSort::LatestChapterDescending)
        } else if value == 103 {
            Ok(J2KMangaSort::UnreadAscending)
        } else if value == 104 {
            Ok(J2KMangaSort::UnreadDescending)
        } else if value == 105 {
            Ok(J2KMangaSort::TotalChaptersAscending)
        } else if value == 106 {
            Ok(J2KMangaSort::TotalChaptersDescending)
        } else if value == 107 {
            Ok(J2KMangaSort::DateAddedAscending)
        } else if value == 108 {
            Ok(J2KMangaSort::DateAddedDescending)
        } else if value == 109 {
            Ok(J2KMangaSort::DateFetchedAscending)
        } else if value == 110 {
            Ok(J2KMangaSort::DateFetchedDescending)
        } else if value == 111 {
            Ok(J2KMangaSort::DragAndDropAscending)
        } else if value == 112 {
            Ok(J2KMangaSort::DragAndDropDescending)
        } else {
            Err("not in range")
        }
    }

    /// The sort order of the target format for this mode.
    pub fn to_order(self) -> (r: KotatsuListSortOrder)
        ensures
            r == self.order(),
    {
        match self {
            J2KMangaSort::TitleAscending => KotatsuListSortOrder::ALPHABETIC,
            J2KMangaSort::TitleDescending => KotatsuListSortOrder::ALPHABETIC_REVERSE,
            J2KMangaSort::LastReadAscending => KotatsuListSortOrder::LAST_READ,
            J2KMangaSort::LastReadDescending => KotatsuListSortOrder::LONG_AGO_READ,
            J2KMangaSort::LatestChapterAscending => KotatsuListSortOrder::UPDATED,
            J2KMangaSort::LatestChapterDescending => KotatsuListSortOrder::OLDEST,
            J2KMangaSort::UnreadAscending => KotatsuListSortOrder::NEW_CHAPTERS,
            J2KMangaSort::UnreadDescending => KotatsuListSortOrder::PROGRESS,
            J2KMangaSort::TotalChaptersAscending => KotatsuListSortOrder::NEWEST,
            J2KMangaSort::TotalChaptersDescending => KotatsuListSortOrder::NEWEST,
            J2KMangaSort::DateAddedAscending => KotatsuListSortOrder::NEWEST,
            J2KMangaSort::DateAddedDescending => KotatsuListSortOrder::OLDEST,
            J2KMangaSort::DateFetchedAscending => KotatsuListSortOrder::UPDATED,
            J2KMangaSort::DateFetchedDescending => KotatsuListSortOrder::OLDEST,
            J2KMangaSort::DragAndDropAscending => KotatsuListSortOrder::NEWEST,
            J2KMangaSort::DragAndDropDescending => KotatsuListSortOrder::NEWEST,
        }
    }
}

/// The sort mode of the J2K scheme that has the code `id`, if any.
pub open spec fn j2k_sort(id: int) -> Option<J2KMangaSort> {
    if id == 97 {
        Some(J2KMangaSort::TitleAscending)
    } else if id == 98 {
        Some(J2KMangaSort::TitleDescending)
    } else if id == 99 {
        Some(J2KMangaSort::LastReadAscending)
    } else if id == 100 {
        Some(J2KMangaSort::LastReadDescending)
    } else if id == 101 {
        Some(J2KMangaSort::LatestChapterAscending)
    } else if id == 102 {
        Some(J2KMangaSort::LatestChapterDescending)
    } else if id == 103 {
        Some(J2KMangaSort::UnreadAscending)
    } else if id == 104 {
        Some(J2KMangaSort::UnreadDescending)
    } else if id == 105 {
        Some(J2KMangaSort::TotalChaptersAscending)
    } else if id == 106 {
        Some(J2KMangaSort::TotalChaptersDescending)
    } else if id == 107 {
        Some(J2KMangaSort::DateAddedAscending)
    } else if id == 108 {
        Some(J2KMangaSort::DateAddedDescending)
    } else if id == 109 {
        Some(J2KMangaSort::DateFetchedAscending)
    } else if id == 110 {
        Some(J2KMangaSort::DateFetchedDescending)
    } else if id == 111 {
        Some(J2KMangaSort::DragAndDropAscending)
    } else if id == 112 {
        Some(J2KMangaSort::DragAndDropDescending)
    } else {
        None
    }
}

impl CategorySortType {
    /// The sort order of the target format for the sort-mode code `id`:
    /// `NEWEST` under the default scheme and for every code that the J2K
    /// scheme does not know.
    pub open spec fn order_for(self, id: int) -> KotatsuListSortOrder {
        match self {
            CategorySortType::Default => KotatsuListSortOrder::NEWEST,
            CategorySortType::J2K => match j2k_sort(id) {
                Some(sort) => sort.order(),
                None => KotatsuListSortOrder::NEWEST,
            },
        }
    }

    /// The sort order for the sort-mode code of an origin category. Every code has
    /// exactly one sort order; one outside the scheme has `NEWEST`.
    pub fn convert(&self, id: i32) -> (r: KotatsuListSortOrder)
        ensures
            r == self.order_for(id as int),
            !(J2K_FIRST_CODE <= id <= J2K_LAST_CODE) ==> r == KotatsuListSortOrder::NEWEST,
    {
        match *self {
            CategorySortType::Default => KotatsuListSortOrder::NEWEST,
            CategorySortType::J2K => match J2KMangaSort::try_from(id) {
                Ok(sort) => sort.to_order(),
                Err(_) => KotatsuListSortOrder::NEWEST,
            },
        }
    }
}

/// Every code of the J2K scheme belongs to exactly one sort mode, and every
/// sort mode has a code of the scheme.
pub proof fn j2k_codes_are_the_scheme(id: int, sort: J2KMangaSort)
    ensures
        j2k_sort(id) is Some <==> J2K_FIRST_CODE <= id <= J2K_LAST_CODE,
        j2k_sort(id) == Some(sort) <==> sort.code() == id,
{
}

} // verus!
