use nekotatsu::correction::{correct_identifier, correct_url, public_url, relative_url};
use nekotatsu::extensions::{ExtensionInfo, ExtensionList, SourceInfo};
use nekotatsu::kotatsu::{KotatsuIndexEntry, KotatsuListSortOrder};
use nekotatsu::neko::ChapterNumber;
use nekotatsu::sort::{CategorySortType, J2KMangaSort};
use nekotatsu::text::{decimal, parse_i64, to_chars};

fn source(id: &str, name: &str, url: &str) -> SourceInfo {
    SourceInfo {
        name: name.to_string(),
        lang: "en".to_string(),
        id: id.to_string(),
        baseUrl: url.to_string(),
    }
}

fn package(sources: Vec<SourceInfo>) -> ExtensionInfo {
    ExtensionInfo {
        name: "package".to_string(),
        pkg: "pkg".to_string(),
        apk: "apk".to_string(),
        lang: "en".to_string(),
        code: 1,
        version: "1.0".to_string(),
        nsfw: 0,
        sources,
    }
}

#[test]
fn decimal_text_of_integers() {
    assert_eq!(decimal(0), "0");
    assert_eq!(decimal(7), "7");
    assert_eq!(decimal(-42), "-42");
    assert_eq!(decimal(i64::MAX), "9223372036854775807");
    assert_eq!(decimal(i64::MIN), "-9223372036854775808");
}

#[test]
fn parse_reads_what_decimal_writes() {
    for n in [0i64, 1, -1, 10, 99, -100, i64::MAX, i64::MIN, 2499283573021220255] {
        assert_eq!(parse_i64(&to_chars(&decimal(n))), Some(n));
    }
}

#[test]
fn parse_accepts_signs_and_refuses_the_rest() {
    assert_eq!(parse_i64(&to_chars("+5")), Some(5));
    assert_eq!(parse_i64(&to_chars("-0")), Some(0));
    assert_eq!(parse_i64(&to_chars("007")), Some(7));
    assert_eq!(parse_i64(&to_chars("")), None);
    assert_eq!(parse_i64(&to_chars("-")), None);
    assert_eq!(parse_i64(&to_chars("+")), None);
    assert_eq!(parse_i64(&to_chars("12a")), None);
    assert_eq!(parse_i64(&to_chars(" 12")), None);
    assert_eq!(parse_i64(&to_chars("9223372036854775808")), None);
    assert_eq!(parse_i64(&to_chars("-9223372036854775809")), None);
    assert_eq!(parse_i64(&to_chars("99999999999999999999999999")), None);
}

#[test]
fn registry_finds_the_first_source_with_the_id() {
    let list = ExtensionList::new(vec![
        package(vec![source("1", "One", "https://one.example")]),
        package(vec![
            source("2", "Two", "https://two.example"),
            source("1", "Other", "https://other.example"),
        ]),
    ]);
    assert_eq!(list.get_source(1).unwrap().name, "One");
    assert_eq!(list.get_source(2).unwrap().baseUrl, "https://two.example");
    assert!(list.get_source(3).is_none());
    assert!(list.get_source(0).is_none());
}

#[test]
fn registry_compares_the_id_as_text() {
    let list = ExtensionList::new(vec![package(vec![source("007", "Bond", "https://b.example")])]);
    assert!(list.get_source(7).is_none());
}

#[test]
fn unknown_descriptor_carries_the_id() {
    let list = ExtensionList::default();
    let found = list.describe(-12);
    assert_eq!(found.name, "Unknown");
    assert_eq!(found.id, "-12");
    assert_eq!(found.lang, "en");
    assert_eq!(found.baseUrl, "example.com");
    let unknown = SourceInfo::default();
    assert_eq!(unknown.name, "Unknown");
    assert_eq!(unknown.id, "0");
}

#[test]
fn every_j2k_code_has_its_sort_order() {
    let expected = [
        KotatsuListSortOrder::ALPHABETIC,
        KotatsuListSortOrder::ALPHABETIC_REVERSE,
        KotatsuListSortOrder::LAST_READ,
        KotatsuListSortOrder::LONG_AGO_READ,
        KotatsuListSortOrder::UPDATED,
        KotatsuListSortOrder::OLDEST,
        KotatsuListSortOrder::NEW_CHAPTERS,
        KotatsuListSortOrder::PROGRESS,
        KotatsuListSortOrder::NEWEST,
        KotatsuListSortOrder::NEWEST,
        KotatsuListSortOrder::NEWEST,
        KotatsuListSortOrder::OLDEST,
        KotatsuListSortOrder::UPDATED,
        KotatsuListSortOrder::OLDEST,
        KotatsuListSortOrder::NEWEST,
        KotatsuListSortOrder::NEWEST,
    ];
    for (offset, order) in expected.iter().enumerate() {
        let code = 'a' as i32 + offset as i32;
        assert_eq!(CategorySortType::J2K.convert(code), *order);
        assert_eq!(CategorySortType::Default.convert(code), KotatsuListSortOrder::NEWEST);
    }
}

#[test]
fn codes_outside_the_scheme_fall_back_to_newest() {
    for code in [i32::MIN, -1, 0, 1, 96, 113, 1000, i32::MAX] {
        assert_eq!(CategorySortType::J2K.convert(code), KotatsuListSortOrder::NEWEST);
        assert_eq!(J2KMangaSort::try_from(code), Err("not in range"));
    }
    assert_eq!(J2KMangaSort::try_from(97), Ok(J2KMangaSort::TitleAscending));
    assert_eq!(J2KMangaSort::try_from(112), Ok(J2KMangaSort::DragAndDropDescending));
}

#[test]
fn chapter_numbers_compare_as_their_values() {
    let number = |value: f32| ChapterNumber::from_bits(value.to_bits());
    let values = [
        f32::NEG_INFINITY, -10.5, -1.0, -0.0, 0.0, 0.5, 1.0, 2.5, 10.5, f32::INFINITY, f32::NAN,
        -f32::NAN, f32::MIN_POSITIVE, f32::MAX, f32::MIN,
    ];
    for a in values {
        for b in values {
            assert_eq!(number(a).gt(number(b)), a > b, "{a} > {b}");
            assert_eq!(
                number(a).total_ge(number(b)),
                a.total_cmp(&b) != std::cmp::Ordering::Less,
                "{a} >= {b} in the total order"
            );
        }
        assert_eq!(number(a).positive(), a > 0.0, "{a} > 0");
    }
}

#[test]
fn mangadex_rules() {
    assert_eq!(correct_url("MANGADEX", "/manga/abc123"), "/title/abc123");
    assert_eq!(correct_url("OTHER", "/manga/abc123"), "/manga/abc123");
    assert_eq!(correct_identifier("MANGADEX", "/title/abc123"), "abc123");
    assert_eq!(correct_identifier("MANGADEX", "/chapter/5"), "5");
    assert_eq!(correct_identifier("OTHER", "/chapter/5"), "/chapter/5");
    assert_eq!(relative_url("MANGADEX", "mangadex.org/", "/manga/abc123"), "abc123");
    assert_eq!(
        public_url("MANGADEX", "mangadex.org/", "/manga/abc123"),
        "https://mangadex.org/title/abc123"
    );
}

#[test]
fn built_in_rules_for_other_sources() {
    assert_eq!(relative_url("DANKE", "danke.moe/", "lock-on"), "lock-on");
    assert_eq!(public_url("DANKE", "danke.moe/", "lock-on"), "https://danke.moe/lock-on");
    assert_eq!(public_url("DANKE", "danke.moe", "//read/x"), "https://danke.moe/read/x");
    assert_eq!(public_url("TOOMICS", "toomics.com/en", "/webtoon/1"), "https://toomics.com/en/webtoon/1");
    assert_eq!(public_url("DANKE", "danke.moe/", ""), "https://danke.moe/");
}

#[test]
fn index_entry_names_the_program() {
    let entry = KotatsuIndexEntry::generate(1_700_000_000_123);
    assert_eq!(entry.app_id, "com.github.phantomshift.nekotatsu");
    assert_eq!(entry.app_version, 0);
    assert_eq!(entry.created_at, 1_700_000_000_123);
}

#[test]
fn re_exports_name_the_same_items() {
    assert_eq!(nekotatsu::get_kotatsu_id("DANKE", "lock-on"), 837652778770567995);
    assert_eq!(nekotatsu::correct_url("MANGADEX", "/manga/a/manga/b"), "/title/a/title/b");
    assert_eq!(nekotatsu::correct_identifier("MANGADEX", "/title//chapter/x/title/"), "x");
}
