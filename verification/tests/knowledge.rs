use nekotatsu::archive::{
    decode_gzip_backup, encode_archive, encode_gzip_backup, entry_named, extract_parsers,
    read_archive,
    update_parsers, ArchiveError, DecodeError,
};
use nekotatsu::kotatsu::KotatsuParserContentType;
use nekotatsu::parsers::{
    archive_root, domain_capture_methods, find_domains, is_parser_source, mine_parsers,
    split_domains, DomainCaptureMethod, Pattern,
};

const SITE: &str = "kotatsu-parsers-master/src/main/kotlin/org/koitharu/kotatsu/parsers/site/";

fn strings(items: &[&str]) -> Vec<String> {
    items.iter().map(|s| s.to_string()).collect()
}

#[test]
fn domains_are_split_at_commas_and_cleaned() {
    assert_eq!(split_domains("\"a.com\", \"b.org\""), strings(&["a.com", "b.org"]));
    assert_eq!(split_domains("\"a.com\",\n\t\"b.org\",\r\n"), strings(&["a.com", "b.org"]));
    assert_eq!(split_domains("a.com"), strings(&["a.com"]));
    assert_eq!(split_domains(""), Vec::<String>::new());
    assert_eq!(split_domains(" , \"\" ,, "), Vec::<String>::new());
    assert_eq!(split_domains("\"a b\""), strings(&["ab"]));
}

#[test]
fn declaration_with_all_parts() {
    let source = r#"
@MangaSourceParser("MANGADEX", "MangaDex", "en", ContentType.HENTAI)
internal class MangaDexParser(context: MangaLoaderContext) : PagedMangaParser(context, MangaParserSource.MANGADEX, 20) {
    override val configKeyDomain = ConfigKey.Domain("mangadex.org", "mangadex.cc")
}
"#;
    let (parsers, without_domains) = mine_parsers(source).unwrap();
    assert!(!without_domains);
    assert_eq!(parsers.len(), 1);
    assert_eq!(parsers[0].name, "MANGADEX");
    assert_eq!(parsers[0].title, "MangaDex");
    assert_eq!(parsers[0].locale.as_deref(), Some("en"));
    assert_eq!(parsers[0].content_type, KotatsuParserContentType::Hentai);
    assert_eq!(parsers[0].domains, strings(&["mangadex.org", "mangadex.cc"]));
}

#[test]
fn declaration_without_locale_and_type() {
    let source = r#"@MangaSourceParser("DANKE", "Danke fürs Lesen")
class Danke(context: MangaLoaderContext) : GuyaParser(context, MangaParserSource.DANKE, "danke.moe")"#;
    let (parsers, without_domains) = mine_parsers(source).unwrap();
    assert!(!without_domains);
    assert_eq!(parsers.len(), 1);
    assert_eq!(parsers[0].name, "DANKE");
    assert_eq!(parsers[0].title, "Danke fürs Lesen");
    assert_eq!(parsers[0].locale, None);
    assert_eq!(parsers[0].content_type, KotatsuParserContentType::Manga);
    assert_eq!(parsers[0].domains, strings(&["danke.moe"]));
}

#[test]
fn content_types_are_read() {
    for (token, expected) in [
        ("ContentType.MANGA", KotatsuParserContentType::Manga),
        ("ContentType.HENTAI", KotatsuParserContentType::Hentai),
        ("ContentType.COMICS", KotatsuParserContentType::Comics),
        ("ContentType.OTHER", KotatsuParserContentType::Other),
        ("ContentType.NOVEL", KotatsuParserContentType::Manga),
    ] {
        let source = format!("@MangaSourceParser(\"A\", \"B\", \"en\", {token})");
        let (parsers, without_domains) = mine_parsers(&source).unwrap();
        assert_eq!(parsers[0].content_type, expected);
        assert!(without_domains);
        assert!(parsers[0].domains.is_empty());
    }
}

#[test]
fn several_declarations_share_the_domains_of_the_file() {
    let source = r#"
@MangaSourceParser("ONE_EN", "One", "en")
class OneEn(context: MangaLoaderContext) : One(context, MangaParserSource.ONE_EN)
@MangaSourceParser("ONE_FR", "One", "fr")
class OneFr(context: MangaLoaderContext) : One(context, MangaParserSource.ONE_FR)
abstract class One(context: MangaLoaderContext, source: MangaParserSource) :
    Base(context = context, source = source, siteId = 3, siteDomain = "one.example/x")
"#;
    let (parsers, without_domains) = mine_parsers(source).unwrap();
    assert!(!without_domains);
    let names: Vec<&str> = parsers.iter().map(|p| p.name.as_str()).collect();
    assert_eq!(names, vec!["ONE_EN", "ONE_FR"]);
    assert_eq!(parsers[0].locale.as_deref(), Some("en"));
    assert_eq!(parsers[1].locale.as_deref(), Some("fr"));
    assert_eq!(parsers[0].domains, strings(&["one.example/x"]));
    assert_eq!(parsers[1].domains, strings(&["one.example/x"]));
}

#[test]
fn file_without_declaration_gives_nothing() {
    let source = "class Helper { val configKeyDomain = ConfigKey.Domain(\"a.com\") }";
    let (parsers, without_domains) = mine_parsers(source).unwrap();
    assert!(parsers.is_empty());
    assert!(!without_domains);
}

#[test]
fn list_form_wins_over_the_single_forms() {
    let source = "Base(context, MangaParserSource.X, \"single.example\")\nConfigKey.Domain(\n\t\"first.example\",\n\t\"second.example\",\n)";
    let methods = domain_capture_methods();
    assert_eq!(methods.len(), 4);
    assert!(matches!(methods[0], DomainCaptureMethod::Multiple(_)));
    assert_eq!(
        find_domains(&methods, source).unwrap(),
        Some(strings(&["first.example", "second.example"]))
    );
    assert_eq!(
        methods[1].capture_domains(source).unwrap(),
        Some(strings(&["single.example"]))
    );
    assert_eq!(find_domains(&methods, "nothing here").unwrap(), None);
    assert_eq!(
        find_domains(&methods, "X(context = context, source = S.X, DOMAIN = \"named.example\"").unwrap(),
        Some(strings(&["named.example"]))
    );
}

#[test]
fn pattern_that_does_not_compile_is_an_error() {
    let broken = DomainCaptureMethod::Single(Pattern {
        text: "(".to_string(),
        dot_matches_new_line: false,
        case_insensitive: false,
    });
    assert!(broken.capture_domains("anything").is_err());
    assert!(find_domains(&vec![broken], "anything").is_err());
}

#[test]
fn parser_paths() {
    assert_eq!(archive_root("kotatsu-parsers-master/"), "kotatsu-parsers-master");
    assert_eq!(archive_root("root/a/b"), "root");
    assert_eq!(archive_root("plain"), "plain");
    assert_eq!(archive_root(""), "");
    let root = "kotatsu-parsers-master";
    assert!(is_parser_source(root, &format!("{SITE}en/Danke.kt")));
    assert!(!is_parser_source(root, &format!("{SITE}en/Danke.java")));
    assert!(!is_parser_source(root, &format!("{SITE}en/")));
    assert!(!is_parser_source(root, "kotatsu-parsers-master/src/main/kotlin/Other.kt"));
    assert!(!is_parser_source("other", &format!("{SITE}en/Danke.kt")));
}

#[test]
fn files_are_mined_in_order() {
    let files = vec![
        ("@MangaSourceParser(\"A\", \"A\", \"en\")\nConfigKey.Domain(\"a.example\")".to_string(), "a.kt".to_string()),
        ("no parser".to_string(), "b.kt".to_string()),
        ("@MangaSourceParser(\"C\", \"C\")".to_string(), "c.kt".to_string()),
    ];
    let (parsers, without_domains) = extract_parsers(&files).unwrap();
    let names: Vec<&str> = parsers.iter().map(|p| p.name.as_str()).collect();
    assert_eq!(names, vec!["A", "C"]);
    assert_eq!(without_domains, strings(&["c.kt"]));
}

fn archive(entries: &[(&str, &str)]) -> Vec<u8> {
    let entries: Vec<(String, String)> =
        entries.iter().map(|(n, t)| (n.to_string(), t.to_string())).collect();
    let (bytes, omitted) = encode_archive(&entries).unwrap();
    assert!(omitted.is_empty());
    bytes
}

#[test]
fn knowledge_base_is_built_from_an_archive() {
    let danke = format!("{SITE}en/Danke.kt");
    let none = format!("{SITE}en/Nothing.kt");
    let bytes = archive(&[
        ("kotatsu-parsers-master/README.md", "@MangaSourceParser(\"README\", \"Not a parser\")"),
        (danke.as_str(), "@MangaSourceParser(\"DANKE\", \"Danke\", \"en\")\nX(context, MangaParserSource.DANKE, \"danke.moe\")"),
        (none.as_str(), "@MangaSourceParser(\"NOTHING\", \"Nothing\", \"en\")"),
        ("kotatsu-parsers-master/src/main/kotlin/org/koitharu/kotatsu/parsers/Util.kt", "@MangaSourceParser(\"UTIL\", \"Util\")"),
    ]);
    let (parsers, without_domains) = update_parsers(bytes).unwrap();
    let names: Vec<&str> = parsers.iter().map(|p| p.name.as_str()).collect();
    assert_eq!(names, vec!["DANKE", "NOTHING"]);
    assert_eq!(parsers[0].domains, strings(&["danke.moe"]));
    assert_eq!(without_domains, vec![none]);
}

#[test]
fn archive_without_entries_is_refused() {
    let (bytes, _) = encode_archive(&vec![]).unwrap();
    match update_parsers(bytes) {
        Err(error @ ArchiveError::Empty) => assert_eq!(error.message(), "Archive is empty"),
        other => panic!("{other:?}"),
    }
    assert!(matches!(update_parsers(b"not a zip".to_vec()), Err(ArchiveError::Zip(_))));
}

#[test]
fn empty_lists_are_left_out_of_the_archive() {
    let entries = vec![
        ("history".to_string(), "[\n  {\"manga_id\": 1}\n]".to_string()),
        ("categories".to_string(), "[{\"category_id\": 2}]".to_string()),
        ("favourites".to_string(), " [] \n".to_string()),
        ("bookmarks".to_string(), "[]".to_string()),
        ("index".to_string(), "[{\"app_id\": \"x\"}]".to_string()),
    ];
    let (bytes, omitted) = encode_archive(&entries).unwrap();
    assert_eq!(omitted, strings(&["favourites", "bookmarks"]));
    let wanted = strings(&["history", "categories", "favourites", "bookmarks", "index"]);
    let read = read_archive(bytes.clone(), wanted).unwrap();
    let names: Vec<&str> = read.iter().map(|e| e.0.as_str()).collect();
    assert_eq!(names, vec!["history", "categories", "index"]);
    assert!(entry_named(&read, "bookmarks").is_none());
    assert!(entry_named(&read, "favourites").is_none());
    assert_eq!(entry_named(&read, "history").unwrap(), "[\n  {\"manga_id\": 1}\n]");
    assert_eq!(entry_named(&read, "categories").unwrap(), "[{\"category_id\": 2}]");
    let some = read_archive(bytes, strings(&["history", "favourites"])).unwrap();
    assert_eq!(some.len(), 1);
    assert_eq!(some[0].0, "history");
}

#[test]
fn lists_that_only_look_empty_are_kept() {
    let entries = vec![
        ("a".to_string(), "[ ]".to_string()),
        ("b".to_string(), "".to_string()),
        ("c".to_string(), "[]]".to_string()),
        ("d".to_string(), "\u{2003}[]\u{a0}".to_string()),
    ];
    let (_, omitted) = encode_archive(&entries).unwrap();
    assert_eq!(omitted, strings(&["d"]));
}

#[test]
fn gzip_round_trip() {
    let data = b"a backup, packed and unpacked again".to_vec();
    for best in [false, true] {
        let packed = encode_gzip_backup(&data, best).unwrap();
        assert_ne!(packed, data);
        assert_eq!(decode_gzip_backup(&packed).unwrap(), data);
    }
    assert_eq!(decode_gzip_backup(&encode_gzip_backup(b"", false).unwrap()).unwrap(), Vec::<u8>::new());
}

#[test]
fn bytes_that_are_no_gzip_file_are_told_apart() {
    match decode_gzip_backup(b"PK\x03\x04 this is a zip file") {
        Err(DecodeError::NotABackup(message)) => {
            assert!(message.starts_with(
                "Error occurred when parsing input archive, is it an actual neko backup? Original error: "
            ));
        }
        other => panic!("{other:?}"),
    }
    let packed = encode_gzip_backup(b"some data that is cut off", false).unwrap();
    match decode_gzip_backup(&packed[..packed.len() - 6]) {
        Err(DecodeError::Read(error)) => {
            assert_eq!(error.kind(), std::io::ErrorKind::UnexpectedEof);
        }
        other => panic!("{other:?}"),
    }
}

#[test]
fn entry_that_does_not_fit_fails_the_archive() {
    let entries = vec![
        ("history".to_string(), "[1]".to_string()),
        ("history".to_string(), "[2]".to_string()),
    ];
    assert!(encode_archive(&entries).is_err());
    let fine = vec![
        ("history".to_string(), "[1]".to_string()),
        ("history".to_string(), "[]".to_string()),
    ];
    let (_, omitted) = encode_archive(&fine).unwrap();
    assert_eq!(omitted, strings(&["history"]));
}

#[test]
fn archive_errors_say_what_is_wrong() {
    assert_eq!(ArchiveError::Empty.message(), "Archive is empty");
    assert_eq!(ArchiveError::Name.message(), "Archive starts with a name that cannot be read");
}

#[test]
fn packing_is_the_same_each_time() {
    let data = b"the same data, packed twice".to_vec();
    assert_eq!(
        encode_gzip_backup(&data, true).unwrap(),
        encode_gzip_backup(&data, true).unwrap()
    );
    assert_eq!(
        encode_gzip_backup(&data, false).unwrap(),
        encode_gzip_backup(&data, false).unwrap()
    );
}
