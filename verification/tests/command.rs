use nekotatsu::command::{
    confirms, conversion_report, default_output_name, omitted_line, output_extension,
    CommandResult, CommandVerbosity,
};
use nekotatsu::config::{ConfigFile, SourceFilterEntry, SourceFilterList};
use nekotatsu::extensions::SourceInfo;
use nekotatsu::kotatsu::{
    KotatsuCategoryBackup, KotatsuFavouriteBackup, KotatsuHistoryBackup, KotatsuMangaBackup,
    Percent,
};
use nekotatsu::report::LogLevel;
use nekotatsu::reverse::{kotatsu_to_neko, kotatsu_to_neko_manga, truncate};
use nekotatsu::tally::MangaConversionResult;

fn source(id: &str, name: &str, url: &str) -> SourceInfo {
    SourceInfo {
        name: name.to_string(),
        lang: "en".to_string(),
        id: id.to_string(),
        baseUrl: url.to_string(),
    }
}

fn result() -> MangaConversionResult {
    MangaConversionResult {
        categories: vec![],
        favourites: vec![],
        history: vec![],
        bookmarks: vec![],
        errored_sources: vec![],
        errored_sources_count: vec![],
        unknown_sources: vec![],
        total_manga: 0,
        errored_manga: 0,
        ignored_manga: 0,
        warnings: vec![],
    }
}

fn texts(lines: Vec<(LogLevel, String)>) -> Vec<(LogLevel, &'static str)> {
    lines.into_iter().map(|(level, text)| (level, &*Box::leak(text.into_boxed_str()))).collect()
}

#[test]
fn parse_config() {
    let config = ConfigFile {
        whitelist: Some(vec![
            SourceFilterEntry::from_id(1252145125),
            SourceFilterEntry::from_text("mangadex"),
            SourceFilterEntry::from_text("toomic.com/en"),
        ]),
        blacklist: Some(vec![
            SourceFilterEntry::from_id(4201337),
            SourceFilterEntry::from_text("mangasomething"),
            SourceFilterEntry::from_text("my.manga.me"),
        ]),
    };
    println!("{config:?}");
    assert_eq!(
        config.whitelist,
        Some(vec![
            SourceFilterEntry::Id(1252145125),
            SourceFilterEntry::Name("mangadex".to_string()),
            SourceFilterEntry::Url("toomic.com/en".to_string()),
        ])
    );
    assert_eq!(
        config.blacklist,
        Some(vec![
            SourceFilterEntry::Id(4201337),
            SourceFilterEntry::Name("mangasomething".to_string()),
            SourceFilterEntry::Url("my.manga.me".to_string()),
        ])
    );
}

#[test]
fn entries_are_held_in_lower_case() {
    assert_eq!(SourceFilterEntry::from_text("MangaDex"), SourceFilterEntry::Name("mangadex".to_string()));
    assert_eq!(SourceFilterEntry::from_text("ÄÖ"), SourceFilterEntry::Name("äö".to_string()));
    assert_eq!(SourceFilterEntry::from_text("Toomic.COM/En"), SourceFilterEntry::Url("toomic.com/en".to_string()));
    assert_eq!(SourceFilterEntry::from_text("Ä.COM"), SourceFilterEntry::Url("Ä.com".to_string()));
}

#[test]
fn list_is_asked_by_id_name_and_url() {
    let list = vec![
        SourceFilterEntry::Id(7),
        SourceFilterEntry::Name("danke".to_string()),
        SourceFilterEntry::Url("https://one.example".to_string()),
    ];
    assert!(list.check_source(false, &source("7", "Seven", "https://seven.example")));
    assert!(list.check_source(false, &source("+7", "Seven", "https://seven.example")));
    assert!(list.check_source(false, &source("8", "DANKE", "https://danke.moe")));
    assert!(list.check_source(false, &source("9", "One", "HTTPS://ONE.example")));
    assert!(!list.check_source(true, &source("10", "Ten", "https://ten.example")));
    let empty: Vec<SourceFilterEntry> = vec![];
    assert!(empty.check_source(true, &source("not a number", "x", "y")));
    assert!(!empty.check_source(false, &source("7", "x", "y")));
}

#[test]
fn configuration_wants_what_is_listed_and_not_left_out() {
    let seven = source("7", "Seven", "https://seven.example");
    let eight = source("8", "Eight", "https://eight.example");
    let all = ConfigFile::default();
    assert!(all.whitelist.is_none() && all.blacklist.is_none());
    assert!(all.accepts(&seven) && all.accepts(&eight));
    let only_seven = ConfigFile { whitelist: Some(vec![SourceFilterEntry::Id(7)]), blacklist: None };
    assert!(only_seven.accepts(&seven));
    assert!(!only_seven.accepts(&eight));
    let not_seven = ConfigFile { whitelist: None, blacklist: Some(vec![SourceFilterEntry::Id(7)]) };
    assert!(!not_seven.accepts(&seven));
    assert!(not_seven.accepts(&eight));
    let both = ConfigFile {
        whitelist: Some(vec![SourceFilterEntry::Id(7), SourceFilterEntry::Id(8)]),
        blacklist: Some(vec![SourceFilterEntry::Name("eight".to_string())]),
    };
    assert!(both.accepts(&seven));
    assert!(!both.accepts(&eight));
    let empty = ConfigFile { whitelist: Some(vec![]), blacklist: Some(vec![]) };
    assert!(empty.accepts(&seven));
}

#[test]
fn verbosity_decides_what_is_shown() {
    assert_eq!(CommandVerbosity::from_flags(false, false), CommandVerbosity::Quiet);
    assert_eq!(CommandVerbosity::from_flags(false, true), CommandVerbosity::Verbose);
    assert_eq!(CommandVerbosity::from_flags(true, false), CommandVerbosity::VeryVerbose);
    assert_eq!(CommandVerbosity::from_flags(true, true), CommandVerbosity::VeryVerbose);
    assert!(!CommandVerbosity::Quiet.should_display(false));
    assert!(!CommandVerbosity::Quiet.should_display(true));
    assert!(CommandVerbosity::Verbose.should_display(false));
    assert!(!CommandVerbosity::Verbose.should_display(true));
    assert!(CommandVerbosity::VeryVerbose.should_display(false));
    assert!(CommandVerbosity::VeryVerbose.should_display(true));
    assert!(CommandVerbosity::Quiet.shows(LogLevel::Info));
    assert!(!CommandVerbosity::Quiet.shows(LogLevel::Verbose));
    assert!(CommandVerbosity::Verbose.shows(LogLevel::Verbose));
    assert!(!CommandVerbosity::Verbose.shows(LogLevel::VeryVerbose));
    assert!(CommandVerbosity::VeryVerbose.shows(LogLevel::VeryVerbose));
}

#[test]
fn output_names_and_answers() {
    assert_eq!(default_output_name(false), "neko_converted");
    assert_eq!(default_output_name(true), "kotatsu_converted");
    assert_eq!(output_extension(false), "zip");
    assert_eq!(output_extension(true), "tachibk");
    assert!(confirms("y") && confirms("Y\n") && confirms("yes\r\n") && confirms("YeS  "));
    assert!(!confirms("") && !confirms("n") && !confirms(" y") && !confirms("yes please") && !confirms("\n"));
    assert_eq!(omitted_line("bookmarks"), "bookmarks is empty, ommitted from converted backup");
    assert!(matches!(CommandResult::Nothing, CommandResult::Nothing));
}

#[test]
fn report_of_a_run_without_errors() {
    let mut done = result();
    done.total_manga = 12;
    done.ignored_manga = 2;
    assert_eq!(
        texts(conversion_report(&done, CommandVerbosity::Quiet, false, "out.zip")),
        vec![(LogLevel::Info, "10 manga successfully converted (2 ignored), output: out.zip")]
    );
    assert_eq!(
        texts(conversion_report(&done, CommandVerbosity::VeryVerbose, true, "out.zip")),
        vec![
            (LogLevel::Info, "10 manga successfully converted (2 ignored), output: out.zip"),
            (
                LogLevel::Info,
                "[IMPORTANT] Command run with 'soft match' on; some sources may not behave as intended"
            ),
        ]
    );
}

fn failed() -> MangaConversionResult {
    let mut done = result();
    done.total_manga = 9;
    done.errored_manga = 4;
    done.errored_sources = vec![
        ("Unknown".to_string(), "example.com".to_string()),
        ("Nobody".to_string(), "https://nobody.example".to_string()),
    ];
    done.errored_sources_count = vec![("Nobody".to_string(), 1), ("Unknown".to_string(), 3)];
    done.unknown_sources = vec!["77".to_string(), "78".to_string()];
    done
}

#[test]
fn report_of_a_run_with_errors() {
    let first = "4 of 9 manga and 2 sources failed to convert (2 unknown).";
    let last = "Conversion completed with errors, output: out.zip";
    assert_eq!(
        texts(conversion_report(&failed(), CommandVerbosity::Quiet, false, "out.zip")),
        vec![
            (LogLevel::Info, first),
            (LogLevel::Info, "Try running again with verbose (-v) on for details"),
            (LogLevel::Info, last),
        ]
    );
    assert_eq!(
        texts(conversion_report(&failed(), CommandVerbosity::Verbose, false, "out.zip")),
        vec![
            (LogLevel::Info, first),
            (LogLevel::Verbose, "Sources that errored: Unknown, Nobody"),
            (LogLevel::Verbose, "Unknown Tachiyomi/Mihon source IDs: 77, 78"),
            (LogLevel::Info, last),
            (LogLevel::Verbose, "Run command with very verbose (-V) to display ALL debug information."),
        ]
    );
    assert_eq!(
        texts(conversion_report(&failed(), CommandVerbosity::VeryVerbose, false, "out.zip")),
        vec![
            (LogLevel::Info, first),
            (LogLevel::VeryVerbose, "Sources that errorred:"),
            (LogLevel::VeryVerbose, "Unknown (example.com), count: 3"),
            (LogLevel::VeryVerbose, "Nobody (https://nobody.example), count: 1"),
            (LogLevel::VeryVerbose, "Unknown Tachiyomi/Mihon source IDs:"),
            (LogLevel::VeryVerbose, "77"),
            (LogLevel::VeryVerbose, "78"),
            (LogLevel::Info, last),
        ]
    );
    let mut known = failed();
    known.unknown_sources.clear();
    known.errored_sources_count.clear();
    assert_eq!(
        texts(conversion_report(&known, CommandVerbosity::VeryVerbose, false, "o")),
        vec![
            (LogLevel::Info, "4 of 9 manga and 2 sources failed to convert (0 unknown)."),
            (LogLevel::VeryVerbose, "Sources that errorred:"),
            (LogLevel::VeryVerbose, "Unknown (example.com), count: 0"),
            (LogLevel::VeryVerbose, "Nobody (https://nobody.example), count: 0"),
            (LogLevel::Info, "Conversion completed with errors, output: o"),
        ]
    );
}

fn converted(id: i64, title: &str, state: &str, cover: &str) -> KotatsuMangaBackup {
    KotatsuMangaBackup {
        id,
        title: title.to_string(),
        alt_tile: None,
        url: "relative".to_string(),
        public_url: format!("https://mangadex.org/title/{title}"),
        rating: -1,
        nsfw: false,
        cover_url: cover.to_string(),
        large_cover_url: None,
        state: state.to_string(),
        author: "someone".to_string(),
        source: "MANGADEX".to_string(),
    }
}

#[test]
fn manga_of_the_target_format_comes_back() {
    let back = kotatsu_to_neko_manga(&converted(5, "t", "FINISHED", "https://c.example/x.jpg.256.jpg"));
    assert_eq!(back.source, 2499283573021220255);
    assert_eq!(back.url, "https://mangadex.org/title/t");
    assert_eq!(back.title, "t");
    assert_eq!(back.author, "someone");
    assert_eq!(back.artist, "someone");
    assert_eq!(back.status, 2);
    assert_eq!(back.thumbnail_url, "https://c.example/x.jpg");
    assert!(back.chapters.is_empty() && back.categories.is_empty() && back.history.is_empty());
    for (state, status) in [("ONGOING", 1), ("FINISHED", 2), ("ABANDONED", 5), ("PAUSED", 6), ("", 0), ("ongoing", 0)] {
        let back = kotatsu_to_neko_manga(&converted(5, "t", state, "cover"));
        assert_eq!(back.status, status);
        assert_eq!(back.thumbnail_url, "cover");
    }
    assert_eq!(kotatsu_to_neko_manga(&converted(5, "t", "", ".256.jpg")).thumbnail_url, "");
}

#[test]
fn low_bits_of_a_category_id() {
    assert_eq!(truncate(0), 0);
    assert_eq!(truncate(5), 5);
    assert_eq!(truncate(-5), -5);
    assert_eq!(truncate(i32::MAX as i64), i32::MAX);
    assert_eq!(truncate(i32::MAX as i64 + 1), i32::MIN);
    assert_eq!(truncate(i32::MIN as i64 - 1), i32::MAX);
    for x in [i64::MIN, i64::MAX, 1 << 32, (1 << 32) + 7, -(1 << 32) - 7, 0x1234_5678_9abc_def0] {
        assert_eq!(truncate(x), x as i32);
    }
}

#[test]
fn records_of_a_target_backup_come_back() {
    let history = vec![
        KotatsuHistoryBackup {
            manga_id: 2,
            created_at: 0,
            updated_at: 0,
            chapter_id: 0,
            page: 0,
            scroll: 0,
            percent: Percent::Zero,
            manga: converted(2, "two", "", ""),
        },
        KotatsuHistoryBackup {
            manga_id: 2,
            created_at: 0,
            updated_at: 0,
            chapter_id: 0,
            page: 0,
            scroll: 0,
            percent: Percent::Zero,
            manga: converted(2, "two again", "", ""),
        },
    ];
    let category = |id: i64, title: &str, key: i32| KotatsuCategoryBackup {
        category_id: id,
        created_at: 0,
        sort_key: key,
        title: title.to_string(),
        order: None,
        track: None,
        show_in_lib: None,
        deleted_at: 0,
    };
    let favourite = |manga: i64, title: &str, category: i64| KotatsuFavouriteBackup {
        manga_id: manga,
        category_id: category,
        sort_key: 0,
        created_at: 0,
        deleted_at: 0,
        manga: converted(manga, title, "", ""),
    };
    let backup = kotatsu_to_neko(
        &history,
        &vec![category(7, "Seven", 1), category(2, "Library", 0), category(7, "Seven again", 5)],
        &vec![favourite(1, "one", 7), favourite(2, "two as favourite", 7), favourite(1, "one", 2), favourite(3, "three", (1 << 32) + 4)],
    );
    let titles: Vec<&str> = backup.backup_manga.iter().map(|m| m.title.as_str()).collect();
    assert_eq!(titles, vec!["two", "one", "three"]);
    assert_eq!(backup.backup_manga[0].categories, vec![7]);
    assert_eq!(backup.backup_manga[1].categories, vec![7, 2]);
    assert_eq!(backup.backup_manga[2].categories, vec![4]);
    let names: Vec<(&str, i32)> =
        backup.backup_categories.iter().map(|c| (c.name.as_str(), c.order)).collect();
    assert_eq!(names, vec![("Seven", 1), ("Library", 0)]);
    assert!(backup.backup_categories.iter().all(|c| c.id.is_none() && c.manga_sort.is_none()));
    let none = kotatsu_to_neko(&vec![], &vec![], &vec![]);
    assert!(none.backup_manga.is_empty() && none.backup_categories.is_empty());
}
