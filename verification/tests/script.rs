use nekotatsu::convert::MangaConverter;
use nekotatsu::extensions::{ExtensionInfo, ExtensionList, SourceInfo};
use nekotatsu::ident::get_kotatsu_id;
use nekotatsu::kotatsu::{KotatsuParser, KotatsuParserContentType};
use nekotatsu::neko::{Backup, BackupChapter, BackupManga, ChapterNumber};
use nekotatsu::report::{ConversionError, Warning};
use nekotatsu::script_interface::{ScriptError, ScriptRuntime};

const SCRIPT: &str = r#"
function correct_relative_url(name, domain, url)
    return "/r/" .. name .. "/" .. url
end
function correct_public_url(name, domain, url)
    return "https://" .. domain .. "p/" .. url
end
function correct_manga_identifier(name, current)
    if current == "/r/DANKE/boom" then
        error("no identifier")
    end
    return "id:" .. current
end
function correct_chapter_identifier(name, current)
    if current == "bad" then
        error("no chapter")
    end
    return "ch:" .. current
end
"#;

fn engine(runtime: ScriptRuntime) -> MangaConverter {
    MangaConverter::new()
        .with_extensions(ExtensionList::new(vec![ExtensionInfo {
            name: "package".to_string(),
            pkg: "pkg".to_string(),
            apk: "apk".to_string(),
            lang: "en".to_string(),
            code: 1,
            version: "1.0".to_string(),
            nsfw: 0,
            sources: vec![SourceInfo {
                name: "Danke".to_string(),
                lang: "en".to_string(),
                id: "11".to_string(),
                baseUrl: "https://danke.moe".to_string(),
            }],
        }]))
        .with_parsers(vec![KotatsuParser {
            name: "DANKE".to_string(),
            title: "Danke".to_string(),
            locale: Some("en".to_string()),
            content_type: KotatsuParserContentType::Manga,
            domains: vec!["danke.moe".to_string()],
        }])
        .with_runtime(runtime)
}

fn manga(url: &str, chapters: Vec<BackupChapter>) -> BackupManga {
    BackupManga {
        source: 11,
        url: url.to_string(),
        title: "T".to_string(),
        artist: String::new(),
        author: String::new(),
        status: 0,
        thumbnail_url: String::new(),
        date_added: 0,
        last_update: 0,
        chapters,
        categories: vec![],
        history: vec![],
    }
}

fn chapter(url: &str, read: bool, bookmark: bool) -> BackupChapter {
    BackupChapter {
        url: url.to_string(),
        read,
        bookmark,
        last_page_read: 1,
        pages_left: 1,
        chapter_number: ChapterNumber::from_bits(1.0f32.to_bits()),
    }
}

#[test]
fn lua_test() {
    let runtime = ScriptRuntime::default();
    let url = runtime.correct_relative_url("DANKE", "danke.moe", "lock-on").unwrap();
    let public_url = runtime.correct_public_url("DANKE", "danke.moe", "lock-on").unwrap();
    println!("URL: {url}");
    println!("Public URL: {public_url}");
    assert_eq!(url, "lock-on");
    assert_eq!(public_url, "https://danke.moe/lock-on");
}

#[test]
fn built_in_runtime_applies_the_rules() {
    let runtime = ScriptRuntime::default();
    assert!(runtime.built_in());
    assert!(runtime.script().is_none());
    assert_eq!(runtime.correct_relative_url("MANGADEX", "mangadex.org/", "/manga/x").unwrap(), "x");
    assert_eq!(runtime.correct_manga_identifier("MANGADEX", "/title/x").unwrap(), "x");
    assert_eq!(runtime.correct_chapter_identifier("MANGADEX", "/chapter/7").unwrap(), "7");
    assert_eq!(runtime.correct_chapter_identifier("OTHER", "/chapter/7").unwrap(), "/chapter/7");
}

#[test]
fn script_runtime_calls_the_script() {
    let runtime = ScriptRuntime::from_chunk(SCRIPT.as_bytes()).unwrap();
    assert!(!runtime.built_in());
    assert!(runtime.script().is_some());
    assert_eq!(runtime.correct_relative_url("A", "b.c/", "d").unwrap(), "/r/A/d");
    assert_eq!(runtime.correct_public_url("A", "b.c/", "d").unwrap(), "https://b.c/p/d");
    assert_eq!(runtime.correct_manga_identifier("A", "x").unwrap(), "id:x");
    assert_eq!(runtime.correct_chapter_identifier("A", "x").unwrap(), "ch:x");
    match runtime.correct_chapter_identifier("A", "bad") {
        Err(ScriptError::RuntimeError(_)) => {}
        other => panic!("{other:?}"),
    }
}

#[test]
fn script_without_a_function_is_incomplete() {
    let source = "function correct_relative_url() end\nfunction correct_public_url() end\n";
    match ScriptRuntime::from_chunk(source.as_bytes()) {
        Err(ScriptError::IncompleteError(detail)) => {
            assert_eq!(detail, "Missing function 'correct_manga_identifier'");
        }
        other => panic!("{other:?}"),
    }
    match ScriptRuntime::from_chunk(b"") {
        Err(error @ ScriptError::IncompleteError(_)) => {
            assert_eq!(
                error.message(),
                "script is not complete: Missing function 'correct_relative_url'"
            );
            assert_eq!(
                error.detail(),
                "IncompleteError(\"Missing function 'correct_relative_url'\")"
            );
        }
        other => panic!("{other:?}"),
    }
}

#[test]
fn script_that_does_not_compile_is_a_runtime_error() {
    match ScriptRuntime::from_chunk(b"function (") {
        Err(error @ ScriptError::RuntimeError(_)) => {
            assert_eq!(error.message(), "error running script");
            assert!(error.detail().starts_with("RuntimeError("));
        }
        other => panic!("{other:?}"),
    }
    assert!(matches!(
        ScriptRuntime::from_chunk(b"correct_relative_url = 5"),
        Err(ScriptError::RuntimeError(_))
    ));
}

#[test]
fn conversion_uses_the_script() {
    let runtime = ScriptRuntime::from_chunk(SCRIPT.as_bytes()).unwrap();
    let backup = Backup {
        backup_manga: vec![manga(
            "lock-on",
            vec![chapter("one", false, true), chapter("bad", true, true), chapter("bad", false, true)],
        )],
        backup_categories: vec![],
    };
    let result = engine(runtime).convert_backup(backup, "Library", &|_: &SourceInfo| true);
    assert_eq!(result.errored_manga, 0);
    let converted = &result.history[0].manga;
    assert_eq!(converted.url, "/r/DANKE/lock-on");
    assert_eq!(converted.public_url, "https://danke.moe/p/lock-on");
    assert_eq!(converted.id, get_kotatsu_id("DANKE", "id:/r/DANKE/lock-on"));
    let marks = &result.bookmarks[0].bookmarks;
    assert_eq!(marks.len(), 3);
    assert_eq!(marks[0].chapter_id, get_kotatsu_id("DANKE", "ch:one"));
    assert_eq!(marks[1].chapter_id, get_kotatsu_id("DANKE", "bad"));
    assert_eq!(marks[2].chapter_id, get_kotatsu_id("DANKE", "bad"));
    assert_eq!(result.history[0].chapter_id, get_kotatsu_id("DANKE", "bad"));
    assert_eq!(result.warnings.len(), 1);
    match &result.warnings[0] {
        Warning::ChapterIdFallback { title, cause: ScriptError::RuntimeError(_) } => {
            assert_eq!(title, "T");
        }
        other => panic!("{other:?}"),
    }
    assert!(result.warnings[0]
        .message()
        .starts_with("Error getting chapter ID for T, there may be issues for this manga's chapters. Error: RuntimeError("));
}

#[test]
fn script_error_fails_the_manga_only() {
    let runtime = ScriptRuntime::from_chunk(SCRIPT.as_bytes()).unwrap();
    let backup = Backup {
        backup_manga: vec![manga("boom", vec![]), manga("fine", vec![])],
        backup_categories: vec![],
    };
    let result = engine(runtime).convert_backup(backup, "Library", &|_: &SourceInfo| true);
    assert_eq!(result.errored_manga, 1);
    assert_eq!(result.history.len(), 1);
    assert_eq!(result.history[0].manga.url, "/r/DANKE/fine");
    assert_eq!(result.errored_sources_count, vec![("Danke".to_string(), 1)]);
    match &result.warnings[0] {
        Warning::ConversionFailed {
            error: ConversionError::ScriptError(ScriptError::RuntimeError(_)),
            ..
        } => {}
        other => panic!("{other:?}"),
    }
    assert!(result.warnings[0].message().starts_with(
        "Unable to convert 'T' from source Danke (https://danke.moe), runtime error in script occurred: RuntimeError("
    ));
}

#[test]
fn each_correction_calls_its_function_with_its_arguments() {
    let runtime = ScriptRuntime::from_chunk(SCRIPT.as_bytes()).unwrap();
    let script = runtime.script().unwrap();
    let global = |name: &str| script.lua.globals().get::<mlua::Function>(name).unwrap();
    let (function, args) = script.relative_url_call("name", "domain", "url");
    assert_eq!(*function, global("correct_relative_url"));
    assert_eq!(args, vec!["name", "domain", "url"]);
    let (function, args) = script.public_url_call("name", "domain", "url");
    assert_eq!(*function, global("correct_public_url"));
    assert_eq!(args, vec!["name", "domain", "url"]);
    let (function, args) = script.manga_identifier_call("name", "current");
    assert_eq!(*function, global("correct_manga_identifier"));
    assert_eq!(args, vec!["name", "current"]);
    let (function, args) = script.chapter_identifier_call("name", "current");
    assert_eq!(*function, global("correct_chapter_identifier"));
    assert_eq!(args, vec!["name", "current"]);
}

#[test]
fn the_first_missing_function_is_reported() {
    let lookups = |lua: &mlua::Lua| {
        let find = |name: &str| lua.globals().get::<Option<mlua::Function>>(name);
        (
            find("correct_relative_url"),
            find("correct_public_url"),
            find("correct_manga_identifier"),
            find("correct_chapter_identifier"),
        )
    };
    let lua = mlua::Lua::new();
    lua.load("function correct_relative_url() end\nfunction correct_chapter_identifier() end")
        .exec()
        .unwrap();
    let (a, b, c, d) = lookups(&lua);
    match ScriptRuntime::from_lookups(lua, a, b, c, d) {
        Err(ScriptError::IncompleteError(detail)) => {
            assert_eq!(detail, "Missing function 'correct_public_url'");
        }
        other => panic!("{other:?}"),
    }
    let lua = mlua::Lua::new();
    lua.load(SCRIPT).exec().unwrap();
    let (a, b, c, _) = lookups(&lua);
    let failed: Result<Option<mlua::Function>, mlua::Error> =
        Err(mlua::Error::runtime("lookup failed"));
    match ScriptRuntime::from_lookups(lua, a, b, c, failed) {
        Err(ScriptError::RuntimeError(_)) => {}
        other => panic!("{other:?}"),
    }
    let lua = mlua::Lua::new();
    lua.load(SCRIPT).exec().unwrap();
    let (a, b, c, d) = lookups(&lua);
    let runtime = ScriptRuntime::from_lookups(lua, a, b, c, d).unwrap();
    assert!(!runtime.built_in());
    assert_eq!(runtime.correct_manga_identifier("A", "x").unwrap(), "id:x");
}
