use nekotatsu::convert::MangaConverter;
use nekotatsu::extensions::{ExtensionInfo, ExtensionList, SourceInfo};
use nekotatsu::ident::get_kotatsu_id;
use nekotatsu::kotatsu::{KotatsuListSortOrder, KotatsuParser, KotatsuParserContentType, Percent};
use nekotatsu::neko::{
    Backup, BackupCategory, BackupChapter, BackupHistory, BackupManga, ChapterNumber,
};
use nekotatsu::report::{ConversionError, LogLevel, Warning};
use nekotatsu::sort::CategorySortType;
use nekotatsu::tally::MangaConversionResult;

const MANGADEX: i64 = 2499283573021220255;

fn number(value: f32) -> ChapterNumber {
    ChapterNumber::from_bits(value.to_bits())
}

fn source(id: i64, name: &str, url: &str) -> SourceInfo {
    SourceInfo {
        name: name.to_string(),
        lang: "en".to_string(),
        id: id.to_string(),
        baseUrl: url.to_string(),
    }
}

fn registry(sources: Vec<SourceInfo>) -> ExtensionList {
    ExtensionList::new(vec![ExtensionInfo {
        name: "package".to_string(),
        pkg: "pkg".to_string(),
        apk: "apk".to_string(),
        lang: "en".to_string(),
        code: 1,
        version: "1.0".to_string(),
        nsfw: 0,
        sources,
    }])
}

fn parser(name: &str, domains: &[&str]) -> KotatsuParser {
    KotatsuParser {
        name: name.to_string(),
        title: name.to_string(),
        locale: None,
        content_type: KotatsuParserContentType::Manga,
        domains: domains.iter().map(|d| d.to_string()).collect(),
    }
}

fn chapter(url: &str, read: bool, bookmark: bool, page: i32, left: i32, no: f32) -> BackupChapter {
    BackupChapter {
        url: url.to_string(),
        read,
        bookmark,
        last_page_read: page,
        pages_left: left,
        chapter_number: number(no),
    }
}

fn manga(source: i64, title: &str, url: &str) -> BackupManga {
    BackupManga {
        source,
        url: url.to_string(),
        title: title.to_string(),
        artist: "artist".to_string(),
        author: "author".to_string(),
        status: 1,
        thumbnail_url: "https://covers.example/c.jpg".to_string(),
        date_added: 100,
        last_update: 200,
        chapters: vec![],
        categories: vec![],
        history: vec![],
    }
}

fn converter() -> MangaConverter {
    MangaConverter::new()
        .with_extensions(registry(vec![
            source(MANGADEX, "MangaDex", "https://mangadex.org"),
            source(11, "Danke", "https://danke.moe"),
            source(12, "Nobody", "https://nobody.example"),
            source(13, "Broken", "not a url"),
            source(14, "Rootless", "https://www.rootless.example"),
        ]))
        .with_parsers(vec![
            parser("DANKE", &["danke.moe"]),
            parser("ROOTLESS", &["rootless.example"]),
        ])
}

fn convert(backup: Backup) -> MangaConversionResult {
    converter().convert_backup(backup, "Library", &|_: &SourceInfo| true)
}

#[test]
fn one_manga_of_mangadex() {
    let mut dex = manga(MANGADEX, "A Title", "/manga/abc123");
    dex.categories = vec![4];
    dex.chapters = vec![chapter("/chapter/5", true, false, 10, 0, 5.0)];
    let backup = Backup {
        backup_manga: vec![dex],
        backup_categories: vec![BackupCategory {
            name: "Reading".to_string(),
            order: 4,
            id: None,
            manga_sort: Some('a' as i32),
        }],
    };
    let result = convert(backup);
    assert_eq!(result.total_manga, 1);
    assert_eq!(result.errored_manga, 0);
    assert_eq!(result.ignored_manga, 0);
    assert!(result.warnings.is_empty());

    assert_eq!(result.categories.len(), 2);
    assert_eq!(result.categories[0].category_id, 2);
    assert_eq!(result.categories[0].title, "Library");
    assert_eq!(result.categories[0].order, Some(KotatsuListSortOrder::ALPHABETIC));
    assert_eq!(result.categories[0].track, Some(true));
    assert_eq!(result.categories[1].category_id, 7);
    assert_eq!(result.categories[1].sort_key, 4);
    assert_eq!(result.categories[1].title, "Reading");
    assert_eq!(result.categories[1].order, Some(KotatsuListSortOrder::ALPHABETIC));
    assert_eq!(result.categories[1].track, None);
    assert_eq!(result.categories[1].show_in_lib, Some(true));

    assert_eq!(result.favourites.len(), 2);
    assert_eq!(result.favourites[0].category_id, 7);
    assert_eq!(result.favourites[1].category_id, 2);
    let converted = &result.favourites[0].manga;
    assert_eq!(converted.source, "MANGADEX");
    assert_eq!(converted.url, "abc123");
    assert_eq!(converted.public_url, "https://mangadex.org/title/abc123");
    assert_eq!(converted.id, get_kotatsu_id("MANGADEX", "abc123"));
    assert_eq!(converted.id, -8278850605021820072);
    assert_eq!(converted.title, "A Title");
    assert_eq!(converted.state, "ONGOING");
    assert_eq!(converted.author, "author");
    assert_eq!(converted.rating, -1);
    assert!(!converted.nsfw);
    assert_eq!(converted.alt_tile, None);
    assert_eq!(converted.cover_url, "https://covers.example/c.jpg");
    assert_eq!(converted.large_cover_url.as_deref(), Some("https://covers.example/c.jpg"));
    assert_eq!(result.favourites[0].manga_id, converted.id);

    assert_eq!(result.history.len(), 1);
    let history = &result.history[0];
    assert_eq!(history.manga_id, converted.id);
    assert_eq!(history.created_at, 100);
    assert_eq!(history.updated_at, 200);
    assert_eq!(history.chapter_id, get_kotatsu_id("MANGADEX", "5"));
    assert_eq!(history.chapter_id, -4289199082712012179);
    assert_eq!(history.page, 10);
    assert_eq!(history.scroll, 0);
    assert_eq!(
        history.percent,
        Percent::OfChapters { latest: number(5.0), newest: number(5.0) }
    );
    assert!(result.bookmarks.is_empty());
}

#[test]
fn bookmark_without_pages_has_percent_zero() {
    let mut danke = manga(11, "Lock On", "lock-on");
    danke.chapters = vec![
        chapter("/c/1", false, true, 0, 0, 1.0),
        chapter("/c/2", false, false, 3, 4, 2.0),
        chapter("/c/3", true, true, 3, 9, 3.0),
    ];
    let result = convert(Backup { backup_manga: vec![danke], backup_categories: vec![] });
    assert_eq!(result.bookmarks.len(), 1);
    let marks = &result.bookmarks[0];
    assert_eq!(marks.manga.source, "DANKE");
    assert_eq!(marks.bookmarks.len(), 2);
    assert_eq!(marks.bookmarks[0].percent, Percent::Zero);
    assert_eq!(marks.bookmarks[0].page, 0);
    assert_eq!(marks.bookmarks[0].chapter_id, get_kotatsu_id("DANKE", "/c/1"));
    assert_eq!(marks.bookmarks[0].image_url, "https://covers.example/c.jpg");
    assert_eq!(marks.bookmarks[1].percent, Percent::OfPages { read: 3, total: 12 });
    assert_eq!(marks.bookmarks[1].page, 3);
    assert_eq!(marks.bookmarks[1].chapter_id, get_kotatsu_id("DANKE", "/c/3"));
    assert_eq!(marks.bookmarks[1].manga_id, marks.manga.id);
}

#[test]
fn bookmark_page_counts_do_not_overflow() {
    let mut danke = manga(11, "Lock On", "lock-on");
    danke.chapters = vec![chapter("/c/1", false, true, i32::MAX, 1, 1.0)];
    let result = convert(Backup { backup_manga: vec![danke], backup_categories: vec![] });
    assert_eq!(
        result.bookmarks[0].bookmarks[0].percent,
        Percent::OfPages { read: i32::MAX, total: i32::MAX as i64 + 1 }
    );
}

#[test]
fn history_takes_the_latest_read_chapter_and_the_latest_reading() {
    let mut danke = manga(11, "Lock On", "lock-on");
    danke.chapters = vec![
        chapter("/c/2", true, false, 7, 0, 2.0),
        chapter("/c/2b", true, false, 8, 0, 2.0),
        chapter("/c/9", false, false, 0, 0, 9.0),
        chapter("/c/1", true, false, 1, 0, 1.0),
        chapter("/c/8", false, false, 0, 0, 8.0),
    ];
    danke.history = vec![
        BackupHistory { url: "/c/1".to_string(), last_read: 30 },
        BackupHistory { url: "/c/2".to_string(), last_read: 50 },
        BackupHistory { url: "/c/2b".to_string(), last_read: 40 },
    ];
    let result = convert(Backup { backup_manga: vec![danke], backup_categories: vec![] });
    let history = &result.history[0];
    assert_eq!(history.chapter_id, get_kotatsu_id("DANKE", "/c/2"));
    assert_eq!(history.page, 7);
    assert_eq!(history.updated_at, 50);
    assert_eq!(
        history.percent,
        Percent::OfChapters { latest: number(2.0), newest: number(9.0) }
    );
}

#[test]
fn history_without_a_read_chapter() {
    let mut danke = manga(11, "Lock On", "lock-on");
    danke.chapters = vec![chapter("/c/2", false, false, 7, 0, 2.0)];
    let result = convert(Backup { backup_manga: vec![danke], backup_categories: vec![] });
    let history = &result.history[0];
    assert_eq!(history.chapter_id, 0);
    assert_eq!(history.page, 0);
    assert_eq!(history.percent, Percent::Zero);
    assert_eq!(history.updated_at, 200);
}

#[test]
fn history_percent_is_zero_for_chapter_numbers_that_are_not_positive() {
    let mut danke = manga(11, "Lock On", "lock-on");
    danke.chapters = vec![chapter("/c/0", true, false, 7, 0, 0.0)];
    let result = convert(Backup { backup_manga: vec![danke], backup_categories: vec![] });
    assert_eq!(result.history[0].percent, Percent::Zero);
    assert_eq!(result.history[0].chapter_id, get_kotatsu_id("DANKE", "/c/0"));

    let mut other = manga(11, "Lock On", "lock-on");
    other.chapters = vec![chapter("/c/m", true, false, 7, 0, -1.0)];
    let result = convert(Backup { backup_manga: vec![other], backup_categories: vec![] });
    assert_eq!(result.history[0].percent, Percent::Zero);
}

#[test]
fn filtered_source_is_ignored_and_leaves_no_record() {
    let backup = Backup {
        backup_manga: vec![
            manga(11, "Kept", "kept"),
            manga(14, "Dropped", "/dropped"),
            manga(99, "Dropped and unknown", "/x"),
            manga(14, "Dropped too", "/dropped-too"),
        ],
        backup_categories: vec![],
    };
    let result = converter().convert_backup(backup, "Library", &|source: &SourceInfo| {
        source.id != "14" && source.id != "99"
    });
    assert_eq!(result.total_manga, 4);
    assert_eq!(result.ignored_manga, 3);
    assert_eq!(result.errored_manga, 0);
    assert_eq!(result.history.len(), 1);
    assert_eq!(result.history[0].manga.title, "Kept");
    assert_eq!(result.favourites.len(), 1);
    assert!(result.favourites.iter().all(|f| f.manga.source == "DANKE"));
    assert!(result.bookmarks.is_empty());
    assert!(result.errored_sources.is_empty());
    assert!(result.errored_sources_count.is_empty());
    assert!(result.unknown_sources.is_empty());
    assert!(result.warnings.is_empty());
}

#[test]
fn unknown_source_is_reported_once_at_the_normal_level() {
    let backup = Backup {
        backup_manga: vec![manga(77, "First", "/a"), manga(77, "Second", "/b"), manga(78, "Third", "/c")],
        backup_categories: vec![],
    };
    let result = convert(backup);
    assert_eq!(result.errored_manga, 3);
    assert_eq!(result.ignored_manga, 0);
    assert_eq!(result.unknown_sources, vec!["77".to_string(), "78".to_string()]);
    assert_eq!(result.errored_sources, vec![("Unknown".to_string(), "example.com".to_string())]);
    assert_eq!(result.errored_sources_count, vec![("Unknown".to_string(), 3)]);
    assert!(result.history.is_empty());
    let levels: Vec<LogLevel> = result.warnings.iter().map(|w| w.level()).collect();
    assert_eq!(levels, vec![LogLevel::Info, LogLevel::VeryVerbose, LogLevel::Info]);
    assert_eq!(
        result.warnings[0].message(),
        "Unable to convert 'First', unknown Tachiyomi source (ID 77)"
    );
    assert_eq!(
        result.warnings[1].message(),
        "Unable to convert 'Second', unknown Tachiyomi source (ID 77)"
    );
    assert!(matches!(&result.warnings[1], Warning::UnknownSource { repeated: true, .. }));
}

#[test]
fn local_manga_counts_as_errored() {
    let result = convert(Backup { backup_manga: vec![manga(0, "Mine", "/m")], backup_categories: vec![] });
    assert_eq!(result.errored_manga, 1);
    assert!(result.errored_sources_count.is_empty());
    assert_eq!(result.warnings.len(), 1);
    assert_eq!(result.warnings[0].level(), LogLevel::Verbose);
    assert_eq!(
        result.warnings[0].message(),
        "Unable to convert 'Mine', local manga currently unsupported"
    );
}

#[test]
fn local_manga_is_not_asked_of_the_filter() {
    let result = converter().convert_backup(
        Backup { backup_manga: vec![manga(0, "Mine", "/m")], backup_categories: vec![] },
        "Library",
        &|_: &SourceInfo| false,
    );
    assert_eq!(result.errored_manga, 1);
    assert_eq!(result.ignored_manga, 0);
}

#[test]
fn source_without_parser_is_tallied() {
    let backup = Backup {
        backup_manga: vec![manga(12, "One", "/one"), manga(12, "Two", "/two")],
        backup_categories: vec![],
    };
    let result = convert(backup);
    assert_eq!(result.errored_manga, 2);
    assert_eq!(
        result.errored_sources,
        vec![("Nobody".to_string(), "https://nobody.example".to_string())]
    );
    assert_eq!(result.errored_sources_count, vec![("Nobody".to_string(), 2)]);
    assert!(result.unknown_sources.is_empty());
    assert!(result.history.is_empty() && result.favourites.is_empty());
    assert_eq!(
        result.warnings[0].message(),
        "Unable to convert 'One' from source Nobody (https://nobody.example), Kotatsu parser not found"
    );
}

#[test]
fn base_url_that_does_not_parse_fails_the_manga_only() {
    let backup = Backup {
        backup_manga: vec![manga(13, "Bad", "/bad"), manga(11, "Good", "good")],
        backup_categories: vec![],
    };
    let result = convert(backup);
    assert_eq!(result.errored_manga, 1);
    assert_eq!(result.history.len(), 1);
    assert_eq!(result.history[0].manga.title, "Good");
    assert!(result.errored_sources.is_empty());
    assert_eq!(result.errored_sources_count, vec![("Broken".to_string(), 1)]);
    match &result.warnings[0] {
        Warning::ConversionFailed { error: ConversionError::URLParseError(error), .. } => {
            assert_eq!(*error, url::ParseError::RelativeUrlWithoutBase);
        }
        other => panic!("{other:?}"),
    }
    assert_eq!(
        result.warnings[0].message(),
        "Unable to convert 'Bad' from source Broken (not a url), a URL failed to be parsed: RelativeUrlWithoutBase"
    );
}

#[test]
fn public_url_without_path_fails_the_check() {
    let backup = Backup { backup_manga: vec![manga(11, "Empty", "")], backup_categories: vec![] };
    let result = convert(backup);
    assert_eq!(result.errored_manga, 1);
    match &result.warnings[0] {
        Warning::ConversionFailed { error: ConversionError::URLCheckError(detail), .. } => {
            assert_eq!(detail, "Empty path for public url; resulting url: 'https://danke.moe/'");
        }
        other => panic!("{other:?}"),
    }
    assert_eq!(
        result.warnings[0].message(),
        "Unable to convert 'Empty' from source Danke (https://danke.moe), a URL failed a check: Empty path for public url; resulting url: 'https://danke.moe/'"
    );
}

#[test]
fn source_is_found_by_its_host_without_www() {
    let result = convert(Backup { backup_manga: vec![manga(14, "R", "/r")], backup_categories: vec![] });
    assert_eq!(result.history.len(), 1);
    assert_eq!(result.history[0].manga.source, "ROOTLESS");
    assert_eq!(result.history[0].manga.public_url, "https://www.rootless.example/r");
}

#[test]
fn source_is_found_by_its_name_whatever_the_case() {
    let engine = MangaConverter::new()
        .with_extensions(registry(vec![source(21, "MiXed", "https://elsewhere.example")]))
        .with_parsers(vec![parser("OTHER", &["other.example"]), parser("MIXED", &[])]);
    let result = engine.convert_backup(
        Backup { backup_manga: vec![manga(21, "M", "/m")], backup_categories: vec![] },
        "Library",
        &|_: &SourceInfo| true,
    );
    assert_eq!(result.history[0].manga.source, "MIXED");
}

#[test]
fn soft_match_is_off_by_default() {
    let make = || {
        MangaConverter::new()
            .with_extensions(registry(vec![source(31, "Brand", "https://brand.org")]))
            .with_parsers(vec![parser("FIRST", &["first.com"]), parser("BRANDCOM", &["brand.com"])])
    };
    let backup = || Backup { backup_manga: vec![manga(31, "B", "/b")], backup_categories: vec![] };
    let exact = make().convert_backup(backup(), "Library", &|_: &SourceInfo| true);
    assert_eq!(exact.errored_manga, 1);
    let soft = make().with_soft_match(true).convert_backup(backup(), "Library", &|_: &SourceInfo| true);
    assert_eq!(soft.errored_manga, 0);
    assert_eq!(soft.history[0].manga.source, "BRANDCOM");
}

#[test]
fn settled_names_are_kept() {
    let mut names = std::collections::HashMap::new();
    names.insert(11i64, "OVERRIDE".to_string());
    names.insert(MANGADEX, "IGNORED".to_string());
    let mut engine = converter().with_sources(names);
    assert_eq!(engine.get_source_name(&manga(11, "a", "b")), "OVERRIDE");
    assert_eq!(engine.get_source_name(&manga(MANGADEX, "a", "b")), "MANGADEX");
    assert_eq!(engine.get_source_name(&manga(1998944621602463790, "a", "b")), "MANGAPLUSPARSER_EN");
    assert_eq!(engine.get_source_name(&manga(12, "a", "b")), "UNKNOWN");
    assert_eq!(engine.get_source_name(&manga(12, "a", "b")), "UNKNOWN");
    assert_eq!(engine.get_source_name(&manga(555, "a", "b")), "UNKNOWN");
}

#[test]
fn categories_follow_the_sort_scheme() {
    let categories = || {
        vec![
            BackupCategory { name: "A".to_string(), order: 0, id: Some(9), manga_sort: Some(100) },
            BackupCategory { name: "B".to_string(), order: 1, id: None, manga_sort: None },
            BackupCategory { name: "C".to_string(), order: 2, id: None, manga_sort: Some(5) },
        ]
    };
    let result = convert(Backup { backup_manga: vec![], backup_categories: categories() });
    let ids: Vec<i64> = result.categories.iter().map(|c| c.category_id).collect();
    assert_eq!(ids, vec![2, 12, 4, 5]);
    assert_eq!(result.categories[1].order, Some(KotatsuListSortOrder::LONG_AGO_READ));
    assert_eq!(result.categories[2].order, None);
    assert_eq!(result.categories[3].order, Some(KotatsuListSortOrder::NEWEST));
    let plain = converter()
        .with_category_sort_type(CategorySortType::Default)
        .convert_backup(
            Backup { backup_manga: vec![], backup_categories: categories() },
            "Mine",
            &|_: &SourceInfo| true,
        );
    assert_eq!(plain.categories[0].title, "Mine");
    assert_eq!(plain.categories[1].order, Some(KotatsuListSortOrder::NEWEST));
    assert_eq!(plain.total_manga, 0);
}

#[test]
fn two_runs_give_the_same_result() {
    let backup = || {
        let mut dex = manga(MANGADEX, "A Title", "/manga/abc123");
        dex.chapters = vec![chapter("/chapter/5", true, true, 10, 2, 5.0)];
        dex.categories = vec![1, 2];
        Backup {
            backup_manga: vec![dex, manga(77, "U", "/u"), manga(12, "N", "/n"), manga(0, "L", "/l")],
            backup_categories: vec![],
        }
    };
    let first = convert(backup());
    let second = convert(backup());
    assert_eq!(format!("{first:?}"), format!("{second:?}"));
}

#[test]
fn status_codes_have_their_state() {
    for (status, state) in
        [(0, ""), (1, "ONGOING"), (2, "FINISHED"), (3, ""), (4, "FINISHED"), (5, "ABANDONED"), (6, "PAUSED"), (7, ""), (-1, "")]
    {
        let mut danke = manga(11, "S", "s");
        danke.status = status;
        let result = convert(Backup { backup_manga: vec![danke], backup_categories: vec![] });
        assert_eq!(result.history[0].manga.state, state);
    }
}

#[test]
fn fixed_ids_are_not_settled_and_resolved_ids_are() {
    let resolved = |engine: &mut MangaConverter, id: i64| engine.get_source_name(&manga(id, "a", "b"));
    let mut engine = MangaConverter::new();
    assert_eq!(resolved(&mut engine, MANGADEX), "MANGADEX");
    assert_eq!(resolved(&mut engine, 5), "UNKNOWN");
    assert_eq!(resolved(&mut engine, 5), "UNKNOWN");
    let mut seeded = std::collections::HashMap::new();
    seeded.insert(5i64, "FIVE".to_string());
    let mut engine = MangaConverter::new().with_sources(seeded);
    assert_eq!(resolved(&mut engine, 5), "FIVE");
    assert_eq!(resolved(&mut engine, 6), "UNKNOWN");
}
