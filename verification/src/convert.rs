//! The conversion engine: from an origin backup to the records of the
//! target backup.

use std::collections::HashMap;
use vstd::prelude::*;
use vstd::string::StringExecFns;
use crate::correction::{
    built_in_public_url, built_in_relative_url, corrected_identifier, str_eq,
};
use crate::extensions::{descriptor, ExtensionList, SourceInfo, SourceInfoView};
use crate::ident::{get_kotatsu_id, kotatsu_id};
use crate::kotatsu::{
    KotatsuBookmarkEntry, KotatsuBookmarkEntryView, KotatsuMangaBackup, KotatsuMangaView,
    KotatsuParser, KotatsuParserView,
};
use crate::manga::{
    assemble_manga, assembled, bookmark_entry, bookmark_of, check_public_url, favourites,
    favourites_of, history_entry, history_of, latest_chapter, latest_read, public_url_checked,
};
use crate::neko::{views, Backup, BackupManga, BackupView, ChapterView, MangaView};
use crate::report::{ConversionError, ConversionErrorView};
use crate::resolve::{resolve_name, source_name, unknown_name, MANGADEX_ID, MANGAPLUS_ID};
use crate::script_interface::{
    allowed_answer, answer_view, ScriptError, ScriptErrorView, ScriptRuntime, ScriptView,
};
use crate::sort::CategorySortType;
use crate::tally::{
    categories_of, started, ConversionView, MangaConversionResult, MangaOutcome, MangaRecords, OutcomeView,
    RecordsView,
};
use crate::text::decimal_of;
use crate::urls::{parse_url, parsed_url};

verus! {

/// The texts of a table of names.
pub open spec fn name_texts(names: Map<i64, String>) -> Map<i64, Seq<char>> {
    names.map_values(|name: String| name@)
}

/// Converts the manga of an origin backup. It holds the registry of sources,
/// the knowledge base of parsers and the corrections, and remembers the name
/// that it gave each source.
#[derive(Debug)]
pub struct MangaConverter {
    sources: HashMap<i64, String>,
    parsers: Vec<KotatsuParser>,
    pub extensions: ExtensionList,
    soft_match: bool,
    runtime: ScriptRuntime,
    category_sort_type: CategorySortType,
}

/// What a converter holds, as far as conversion depends on it.
pub struct ConverterView {
    /// The names that are settled: given beforehand or resolved earlier.
    pub settled: Map<i64, Seq<char>>,
    /// The knowledge base.
    pub parsers: Seq<KotatsuParserView>,
    /// The descriptors of the registry in lookup order.
    pub registry: Seq<SourceInfoView>,
    pub soft_match: bool,
    /// The script that provides the corrections; none for the built-in
    /// rules.
    pub script: Option<ScriptView>,
    pub sort: CategorySortType,
}

impl ConverterView {
    /// The corrections are the built-in rules, not those of a script.
    pub open spec fn built_in(self) -> bool {
        self.script is None
    }

    /// The view after the name of the source with the given id was asked
    /// for: a name that was resolved is settled. The two fixed ids are
    /// never settled, and a settled id keeps its entry.
    pub open spec fn settling(self, id: i64) -> ConverterView {
        if id == MANGADEX_ID || id == MANGAPLUS_ID || self.settled.contains_key(id) {
            self
        } else {
            ConverterView { settled: self.settled.insert(id, self.name_of(id)), ..self }
        }
    }

    /// The canonical name of the source with the given id.
    pub open spec fn name_of(self, id: i64) -> Seq<char> {
        source_name(self.settled, self.registry, self.parsers, self.soft_match, id)
    }

    /// `self` differs from `other` at most in names that were settled as
    /// they would have been resolved: every source has the same name.
    pub open spec fn same_names(self, other: ConverterView) -> bool {
        &&& self.parsers == other.parsers
        &&& self.registry == other.registry
        &&& self.soft_match == other.soft_match
        &&& self.script == other.script
        &&& self.sort == other.sort
        &&& forall|id: i64| self.name_of(id) == other.name_of(id)
    }
}

impl View for MangaConverter {
    type V = ConverterView;

    closed spec fn view(&self) -> ConverterView {
        ConverterView {
            settled: name_texts(self.sources@),
            parsers: views(self.parsers@),
            registry: self.extensions@,
            soft_match: self.soft_match,
            script: self.runtime@,
            sort: self.category_sort_type,
        }
    }
}

impl MangaConverter {
    /// A converter with an empty registry and knowledge base, exact matching,
    /// the built-in corrections and the J2K sort scheme.
    pub fn new() -> (r: Self)
        ensures
            r@ == (ConverterView {
                settled: Map::empty(),
                parsers: Seq::empty(),
                registry: Seq::empty(),
                soft_match: false,
                script: None,
                sort: CategorySortType::J2K,
            }),
    {
        let r = Self {
            sources: HashMap::new(),
            parsers: Vec::new(),
            extensions: ExtensionList::default(),
            soft_match: false,
            runtime: ScriptRuntime::default(),
            category_sort_type: CategorySortType::J2K,
        };
        proof {
            assert(r@.settled =~= Map::empty());
            assert(r@.parsers =~= Seq::empty());
        }
        r
    }

    /// The converter with the given names settled beforehand.
    pub fn with_sources(self, sources: HashMap<i64, String>) -> (r: Self)
        ensures
            r@ == (ConverterView { settled: name_texts(sources@), ..self@ }),
    {
        Self { sources, ..self }
    }

    /// The converter with the given knowledge base.
    pub fn with_parsers(self, parsers: Vec<KotatsuParser>) -> (r: Self)
        ensures
            r@ == (ConverterView { parsers: views(parsers@), ..self@ }),
    {
        Self { parsers, ..self }
    }

    /// The converter with the given registry.
    pub fn with_extensions(self, extensions: ExtensionList) -> (r: Self)
        ensures
            r@ == (ConverterView { registry: extensions@, ..self@ }),
    {
        Self { extensions, ..self }
    }

    /// The converter with soft matching switched on or off.
    pub fn with_soft_match(self, enabled: bool) -> (r: Self)
        ensures
            r@ == (ConverterView { soft_match: enabled, ..self@ }),
    {
        Self { soft_match: enabled, ..self }
    }

    /// The converter with the given provider of corrections.
    pub fn with_runtime(self, runtime: ScriptRuntime) -> (r: Self)
        ensures
            r@ == (ConverterView { script: runtime@, ..self@ }),
    {
        Self { runtime, ..self }
    }

    /// The converter with the given sort scheme.
    pub fn with_category_sort_type(self, category_sort_type: CategorySortType) -> (r: Self)
        ensures
            r@ == (ConverterView { sort: category_sort_type, ..self@ }),
    {
        Self { category_sort_type, ..self }
    }

    /// The canonical name of the source of `manga`. A name that is resolved
    /// is settled, so that the source keeps it for the whole run.
    pub fn get_source_name(&mut self, manga: &BackupManga) -> (r: String)
        ensures
            r@ == old(self)@.name_of(manga.source),
            final(self)@ == old(self)@.settling(manga.source),
            final(self)@.same_names(old(self)@),
    {
        broadcast use vstd::std_specs::hash::group_hash_axioms;

        let id = manga.source;
        if id == MANGADEX_ID {
            return String::from_str("MANGADEX");
        }
        if id == MANGAPLUS_ID {
            return String::from_str("MANGAPLUSPARSER_EN");
        }
        match self.sources.get(&id) {
            Some(name) => {
                return name.clone();
            },
            None => {},
        }
        let name = resolve_name(&self.extensions, &self.parsers, self.soft_match, id);
        let ghost before = self@;
        self.sources.insert(id, name.clone());
        proof {
            assert(self@.settled =~= before.settled.insert(id, name@));
            assert(name@ == before.name_of(id));
            assert(forall|other: i64| self@.name_of(other) == before.name_of(other));
        }
        name
    }
}

/// What a correction returned: a text, or the error of the script.
pub type Answer = Result<Seq<char>, ScriptErrorView>;

/// The text of an answer, or `fallback` where the correction failed.
pub open spec fn answer_or(answer: Answer, fallback: Seq<char>) -> Seq<char> {
    match answer {
        Ok(text) => text,
        Err(_) => fallback,
    }
}

/// What the corrections returned for one manga. A correction that was not
/// called, because an earlier step had failed, stands with what the built-in
/// rules return.
pub struct Answers {
    pub relative_url: Answer,
    pub manga_identifier: Answer,
    pub public_url: Answer,
}

/// The domain of a source as the corrections get it: its base URL from the
/// host on.
pub open spec fn domain_of(source: SourceInfoView) -> Seq<char> {
    match parsed_url(source.base_url) {
        Ok(base) => base.from_host,
        Err(_) => Seq::empty(),
    }
}

/// The answers are ones that the corrections may give for the manga.
pub open spec fn answers_allowed(
    built_in: bool,
    name: Seq<char>,
    source: SourceInfoView,
    manga: MangaView,
    answers: Answers,
) -> bool {
    &&& allowed_answer(
        built_in,
        built_in_relative_url(name, domain_of(source), manga.url),
        answers.relative_url,
    )
    &&& allowed_answer(
        built_in,
        corrected_identifier(name, answer_or(answers.relative_url, Seq::empty())),
        answers.manga_identifier,
    )
    &&& allowed_answer(
        built_in,
        built_in_public_url(name, domain_of(source), manga.url),
        answers.public_url,
    )
}

/// The manga of the target format, or the reason why there is none, for a
/// manga of the source `source`, which has the canonical name `name`, given
/// the answers of the corrections. The base URL of the source must parse;
/// each correction must succeed, the relative URL first, then the
/// identifier, then the public URL; the public URL must parse and have a
/// path.
pub open spec fn manga_from(
    manga: MangaView,
    source: SourceInfoView,
    name: Seq<char>,
    answers: Answers,
) -> Result<KotatsuMangaView, ConversionErrorView> {
    match parsed_url(source.base_url) {
        Err(error) => Err(ConversionErrorView::URLParseError(error)),
        Ok(_) => match answers.relative_url {
            Err(error) => Err(ConversionErrorView::ScriptError(error)),
            Ok(relative_url) => match answers.manga_identifier {
                Err(error) => Err(ConversionErrorView::ScriptError(error)),
                Ok(identifier) => match answers.public_url {
                    Err(error) => Err(ConversionErrorView::ScriptError(error)),
                    Ok(public_url) => match parsed_url(public_url) {
                        Err(error) => Err(ConversionErrorView::URLParseError(error)),
                        Ok(parsed) => match public_url_checked(parsed) {
                            Err(error) => Err(error),
                            Ok(()) => Ok(
                                assembled(manga, name, relative_url, identifier, public_url),
                            ),
                        },
                    },
                },
            },
        },
    }
}

/// What building the record of a manga returned, with views for records.
pub open spec fn built_view(result: Result<KotatsuMangaBackup, ConversionError>) -> Result<
    KotatsuMangaView,
    ConversionErrorView,
> {
    match result {
        Ok(manga) => Ok(manga@),
        Err(error) => Err(error@),
    }
}

/// `result` is what building the record of the manga may return: what
/// `manga_from` gives for answers that the corrections may give.
pub open spec fn built(
    converter: ConverterView,
    manga: MangaView,
    source: SourceInfoView,
    result: Result<KotatsuMangaView, ConversionErrorView>,
) -> bool {
    exists|answers: Answers|
        answers_allowed(
            converter.built_in(),
            converter.name_of(manga.source),
            source,
            manga,
            answers,
        ) && #[trigger] manga_from(manga, source, converter.name_of(manga.source), answers)
            == result
}

/// The identifier of a chapter: derived from the corrected path, or from the
/// path as it is where the correction failed.
pub open spec fn chapter_id_from(name: Seq<char>, path: Seq<char>, answer: Answer) -> i64 {
    kotatsu_id(name, answer_or(answer, path))
}

/// The bookmarks among the first `n` chapters, given the answer of the
/// correction for each chapter.
pub open spec fn bookmarks_from(
    manga: KotatsuMangaView,
    chapters: Seq<ChapterView>,
    answers: Seq<Answer>,
    n: int,
) -> Seq<KotatsuBookmarkEntryView>
    decreases n,
{
    if n <= 0 {
        Seq::empty()
    } else {
        let before = bookmarks_from(manga, chapters, answers, n - 1);
        let chapter = chapters[n - 1];
        if chapter.bookmark {
            before.push(
                bookmark_of(
                    manga,
                    chapter,
                    chapter_id_from(manga.source, chapter.url, answers[n - 1]),
                ),
            )
        } else {
            before
        }
    }
}

/// The first error among the answers for the bookmarked ones of the first
/// `n` chapters.
pub open spec fn first_error(chapters: Seq<ChapterView>, answers: Seq<Answer>, n: int) -> Option<
    ScriptErrorView,
>
    decreases n,
{
    if n <= 0 {
        None
    } else {
        match first_error(chapters, answers, n - 1) {
            Some(error) => Some(error),
            None => if chapters[n - 1].bookmark {
                match answers[n - 1] {
                    Err(error) => Some(error),
                    Ok(_) => None,
                }
            } else {
                None
            },
        }
    }
}

/// The answers are ones that the correction of chapter identifiers may give:
/// one for each chapter, and a last one for the latest read chapter, asked
/// for again for the reading state.
pub open spec fn chapter_answers_allowed(
    built_in: bool,
    name: Seq<char>,
    chapters: Seq<ChapterView>,
    answers: Seq<Answer>,
) -> bool {
    &&& answers.len() == chapters.len() + 1
    &&& forall|i: int|
        0 <= i < chapters.len() ==> allowed_answer(
            built_in,
            corrected_identifier(name, chapters[i].url),
            #[trigger] answers[i],
        )
    &&& allowed_answer(
        built_in,
        match latest_read(chapters, chapters.len() as int) {
            Some(latest) => corrected_identifier(name, chapters[latest].url),
            None => Seq::empty(),
        },
        answers[chapters.len() as int],
    )
}

/// The records of a converted manga, given the answers of the correction of
/// chapter identifiers.
pub open spec fn records_from(
    manga: MangaView,
    converted: KotatsuMangaView,
    answers: Seq<Answer>,
) -> RecordsView {
    let count = manga.chapters.len() as int;
    let latest = latest_read(manga.chapters, count);
    RecordsView {
        manga: converted,
        favourites: favourites_of(converted, manga.categories),
        bookmarks: bookmarks_from(converted, manga.chapters, answers, count),
        history: history_of(
            manga,
            converted,
            match latest {
                Some(index) => chapter_id_from(
                    converted.source,
                    manga.chapters[index].url,
                    answers[count],
                ),
                None => 0,
            },
        ),
        chapter_error: match first_error(manga.chapters, answers, count) {
            Some(error) => Some(error),
            None => match (latest, answers[count]) {
                (Some(_), Err(error)) => Some(error),
                _ => None,
            },
        },
    }
}

/// `records` are records that a converted manga may get: those that
/// `records_from` gives for answers that the corrections may give.
pub open spec fn recorded_chapters(
    built_in: bool,
    manga: MangaView,
    converted: KotatsuMangaView,
    records: RecordsView,
) -> bool {
    exists|answers: Seq<Answer>|
        chapter_answers_allowed(built_in, converted.source, manga.chapters, answers)
            && #[trigger] records_from(manga, converted, answers) == records
}

/// The bookmarks among the first `n` chapters depend on the first `n`
/// answers only, and so does the first error.
pub proof fn lemma_chapter_prefix(
    manga: KotatsuMangaView,
    chapters: Seq<ChapterView>,
    one: Seq<Answer>,
    other: Seq<Answer>,
    n: int,
)
    requires
        forall|i: int| 0 <= i < n ==> one[i] == other[i],
    ensures
        bookmarks_from(manga, chapters, one, n) == bookmarks_from(manga, chapters, other, n),
        first_error(chapters, one, n) == first_error(chapters, other, n),
    decreases n,
{
    if n > 0 {
        lemma_chapter_prefix(manga, chapters, one, other, n - 1);
    }
}

/// The filter gives the descriptor `source` the verdict `verdict`.
pub open spec fn filter_says<F: Fn(&SourceInfo) -> bool>(
    filter: F,
    source: SourceInfoView,
    verdict: bool,
) -> bool {
    exists|asked: SourceInfo| #[trigger] call_ensures(filter, (&asked,), verdict) && asked@ == source
}

/// `outcome` is an outcome that the manga may have. A manga without a source
/// is local. Any other is ignored where the filter turns its descriptor
/// down. Of those that pass, a manga whose descriptor has the name `Unknown`
/// has an unknown source; one whose record cannot be built has failed; one
/// whose source has the name `UNKNOWN` has no parser; any other is
/// converted.
pub open spec fn outcome_allowed<F: Fn(&SourceInfo) -> bool>(
    converter: ConverterView,
    manga: MangaView,
    filter: F,
    outcome: OutcomeView,
) -> bool {
    let source = descriptor(converter.registry, manga.source);
    if manga.source == 0 {
        outcome is Local
    } else {
        match outcome {
            OutcomeView::Local => false,
            OutcomeView::Ignored => filter_says(filter, source, false),
            OutcomeView::UnknownSource(found) => {
                &&& found == source
                &&& filter_says(filter, source, true)
                &&& source.name == "Unknown"@
            },
            OutcomeView::Failed(found, error) => {
                &&& found == source
                &&& filter_says(filter, source, true)
                &&& source.name != "Unknown"@
                &&& built(converter, manga, source, Err(error))
            },
            OutcomeView::NoParser(found) => {
                &&& found == source
                &&& filter_says(filter, source, true)
                &&& source.name != "Unknown"@
                &&& converter.name_of(manga.source) == unknown_name()
                &&& exists|converted: KotatsuMangaView| #[trigger]
                    built(converter, manga, source, Ok(converted))
            },
            OutcomeView::Converted(records) => {
                &&& filter_says(filter, source, true)
                &&& source.name != "Unknown"@
                &&& converter.name_of(manga.source) != unknown_name()
                &&& built(converter, manga, source, Ok(records.manga))
                &&& recorded_chapters(converter.built_in(), manga, records.manga, records)
            },
        }
    }
}

impl MangaConverter {
    /// Builds the manga of the target format for a manga of the source that
    /// `source_info` describes.
    pub fn manga_to_kotatsu(&mut self, manga: &BackupManga, source_info: &SourceInfo) -> (r: Result<
        KotatsuMangaBackup,
        ConversionError,
    >)
        ensures
            final(self)@.same_names(old(self)@),
            built(old(self)@, manga@, source_info@, built_view(r)),
            r matches Ok(converted) ==> converted@.source == old(self)@.name_of(manga.source),
    {
        let ghost converter = self@;
        let ghost name = converter.name_of(manga.source);
        let ghost domain = domain_of(source_info@);
        let ghost relative_rule: Answer = Ok(built_in_relative_url(name, domain, manga@.url));
        let ghost public_rule: Answer = Ok(built_in_public_url(name, domain, manga@.url));
        let base = match parse_url(source_info.baseUrl.as_str()) {
            Ok(base) => base,
            Err(error) => {
                proof {
                    let answers = Answers {
                        relative_url: relative_rule,
                        manga_identifier: Ok(
                            corrected_identifier(name, answer_or(relative_rule, Seq::empty())),
                        ),
                        public_url: public_rule,
                    };
                    assert(manga_from(manga@, source_info@, name, answers) == Err::<
                        KotatsuMangaView,
                        ConversionErrorView,
                    >(ConversionErrorView::URLParseError(error)));
                }
                return Err(ConversionError::URLParseError(error));
            },
        };
        let source_name = self.get_source_name(manga);
        let relative = self.runtime.correct_relative_url(
            source_name.as_str(),
            base.from_host.as_str(),
            manga.url.as_str(),
        );
        let ghost relative_answer = answer_view(relative);
        let relative_url = match relative {
            Ok(text) => text,
            Err(error) => {
                proof {
                    let answers = Answers {
                        relative_url: relative_answer,
                        manga_identifier: Ok(corrected_identifier(name, Seq::empty())),
                        public_url: public_rule,
                    };
                    assert(manga_from(manga@, source_info@, name, answers) == Err::<
                        KotatsuMangaView,
                        ConversionErrorView,
                    >(ConversionErrorView::ScriptError(error@)));
                }
                return Err(ConversionError::ScriptError(error));
            },
        };
        let identified = self.runtime.correct_manga_identifier(
            source_name.as_str(),
            relative_url.as_str(),
        );
        let ghost identifier_answer = answer_view(identified);
        let identifier = match identified {
            Ok(text) => text,
            Err(error) => {
                proof {
                    let answers = Answers {
                        relative_url: relative_answer,
                        manga_identifier: identifier_answer,
                        public_url: public_rule,
                    };
                    assert(manga_from(manga@, source_info@, name, answers) == Err::<
                        KotatsuMangaView,
                        ConversionErrorView,
                    >(ConversionErrorView::ScriptError(error@)));
                }
                return Err(ConversionError::ScriptError(error));
            },
        };
        let published = self.runtime.correct_public_url(
            source_name.as_str(),
            base.from_host.as_str(),
            manga.url.as_str(),
        );
        let ghost answers = Answers {
            relative_url: relative_answer,
            manga_identifier: identifier_answer,
            public_url: answer_view(published),
        };
        let public_url = match published {
            Ok(text) => text,
            Err(error) => {
                proof {
                    assert(manga_from(manga@, source_info@, name, answers) == Err::<
                        KotatsuMangaView,
                        ConversionErrorView,
                    >(ConversionErrorView::ScriptError(error@)));
                }
                return Err(ConversionError::ScriptError(error));
            },
        };
        let parsed = match parse_url(public_url.as_str()) {
            Ok(parsed) => parsed,
            Err(error) => {
                return Err(ConversionError::URLParseError(error));
            },
        };
        match check_public_url(&parsed) {
            Ok(()) => {},
            Err(error) => {
                return Err(error);
            },
        }
        let converted = assemble_manga(
            manga,
            source_name.as_str(),
            relative_url,
            identifier.as_str(),
            public_url,
        );
        Ok(converted)
    }

    /// The identifier of a chapter of a source: derived from the corrected
    /// path, or from the path as it is where the correction fails. The
    /// first error of a manga is kept in `first_error`.
    fn chapter_id(&self, name: &str, path: &str, first_error: &mut Option<ScriptError>) -> (r: (
        i64,
        Ghost<Answer>,
    ))
        ensures
            allowed_answer(self@.built_in(), corrected_identifier(name@, path@), r.1@),
            r.0 == chapter_id_from(name@, path@, r.1@),
            error_view(*final(first_error)) == match error_view(*old(first_error)) {
                Some(error) => Some(error),
                None => match r.1@ {
                    Err(error) => Some(error),
                    Ok(_) => None,
                },
            },
    {
        let answer = self.runtime.correct_chapter_identifier(name, path);
        let ghost seen = answer_view(answer);
        match answer {
            Ok(text) => (get_kotatsu_id(name, text.as_str()), Ghost(seen)),
            Err(error) => {
                if first_error.is_none() {
                    *first_error = Some(error);
                }
                (get_kotatsu_id(name, path), Ghost(seen))
            },
        }
    }

    /// The records of a manga that was converted to `converted`.
    pub fn manga_records(&self, manga: &BackupManga, converted: KotatsuMangaBackup) -> (r:
        MangaRecords)
        ensures
            r@.manga == converted@,
            recorded_chapters(self@.built_in(), manga@, converted@, r@),
    {
        let ghost chapters = manga@.chapters;
        let ghost name = converted@.source;
        let memberships = favourites(&converted, &manga.categories);
        let mut chapter_error: Option<ScriptError> = None;
        let mut bookmarks: Vec<KotatsuBookmarkEntry> = Vec::new();
        let ghost mut answers: Seq<Answer> = Seq::empty();
        let mut i: usize = 0;
        while i < manga.chapters.len()
            invariant
                i <= manga.chapters.len(),
                chapters == manga@.chapters,
                chapters.len() == manga.chapters@.len(),
                name == converted@.source,
                answers.len() == i,
                forall|j: int|
                    0 <= j < i ==> allowed_answer(
                        self@.built_in(),
                        corrected_identifier(name, chapters[j].url),
                        #[trigger] answers[j],
                    ),
                views(bookmarks@) == bookmarks_from(converted@, chapters, answers, i as int),
                error_view(chapter_error) == first_error(chapters, answers, i as int),
            decreases manga.chapters.len() - i,
        {
            let chapter = &manga.chapters[i];
            let ghost before = answers;
            if chapter.bookmark {
                let (id, Ghost(answer)) = self.chapter_id(
                    converted.source.as_str(),
                    chapter.url.as_str(),
                    &mut chapter_error,
                );
                bookmarks.push(bookmark_entry(&converted, chapter, id));
                proof {
                    answers = answers.push(answer);
                }
            } else {
                proof {
                    answers = answers.push(Ok(corrected_identifier(name, chapter@.url)));
                }
            }
            proof {
                lemma_chapter_prefix(converted@, chapters, before, answers, i as int);
            }
            i += 1;
        }
        let latest = latest_chapter(&manga.chapters);
        let ghost count = chapters.len() as int;
        let ghost before = answers;
        let chapter_id: i64 = match latest {
            Some(index) => {
                let (id, Ghost(answer)) = self.chapter_id(
                    converted.source.as_str(),
                    manga.chapters[index].url.as_str(),
                    &mut chapter_error,
                );
                proof {
                    answers = answers.push(answer);
                }
                id
            },
            None => {
                proof {
                    answers = answers.push(Ok(Seq::empty()));
                }
                0
            },
        };
        let history = history_entry(manga, converted.clone(), chapter_id);
        let records = MangaRecords {
            manga: converted,
            favourites: memberships,
            bookmarks,
            history,
            chapter_error,
        };
        proof {
            lemma_chapter_prefix(converted@, chapters, before, answers, count);
            assert(records_from(manga@, converted@, answers) == records@);
        }
        records
    }
}

/// The error that an optional script error holds.
pub open spec fn error_view(error: Option<ScriptError>) -> Option<ScriptErrorView> {
    match error {
        Some(error) => Some(error@),
        None => None,
    }
}

/// The result after the first `n` manga of the backup, each with its outcome,
/// have been entered.
pub open spec fn tallied(
    start: ConversionView,
    manga: Seq<MangaView>,
    outcomes: Seq<OutcomeView>,
    n: int,
) -> ConversionView
    decreases n,
{
    if n <= 0 {
        start
    } else {
        tallied(start, manga, outcomes, n - 1).recorded(manga[n - 1], outcomes[n - 1])
    }
}

/// `result` is the result of converting `backup` where the manga had the
/// outcomes `outcomes`: each manga has an outcome that it may have, and the
/// result holds the categories of the backup and what the outcomes
/// contribute, manga by manga in the order of the backup.
pub open spec fn conversion_via<F: Fn(&SourceInfo) -> bool>(
    converter: ConverterView,
    backup: BackupView,
    favorites_name: Seq<char>,
    filter: F,
    outcomes: Seq<OutcomeView>,
    result: ConversionView,
) -> bool {
    &&& outcomes.len() == backup.manga.len()
    &&& forall|i: int|
        0 <= i < backup.manga.len() ==> outcome_allowed(
            converter,
            backup.manga[i],
            filter,
            #[trigger] outcomes[i],
        )
    &&& result == tallied(
        started(backup, favorites_name, converter.sort),
        backup.manga,
        outcomes,
        backup.manga.len() as int,
    )
}

/// `result` is a result of converting `backup`.
pub open spec fn is_conversion<F: Fn(&SourceInfo) -> bool>(
    converter: ConverterView,
    backup: BackupView,
    favorites_name: Seq<char>,
    filter: F,
    result: ConversionView,
) -> bool {
    exists|outcomes: Seq<OutcomeView>|
        conversion_via(converter, backup, favorites_name, filter, outcomes, result)
}

/// An outcome that a manga may have under a converter is one that it may have
/// under any converter that gives every source the same name.
pub proof fn lemma_outcome_under_same_names<F: Fn(&SourceInfo) -> bool>(
    one: ConverterView,
    other: ConverterView,
    manga: MangaView,
    filter: F,
    outcome: OutcomeView,
)
    requires
        one.same_names(other),
        outcome_allowed(one, manga, filter, outcome),
    ensures
        outcome_allowed(other, manga, filter, outcome),
{
    let source = descriptor(one.registry, manga.source);
    assert forall|result: Result<KotatsuMangaView, ConversionErrorView>|
        built(one, manga, source, result) implies built(other, manga, source, result) by {
        let answers = choose|answers: Answers|
            answers_allowed(one.built_in(), one.name_of(manga.source), source, manga, answers)
                && #[trigger] manga_from(manga, source, one.name_of(manga.source), answers)
                == result;
        assert(manga_from(manga, source, other.name_of(manga.source), answers) == result);
    }
    if manga.source != 0 {
        match outcome {
            OutcomeView::NoParser(_) => {
                let converted = choose|converted: KotatsuMangaView| #[trigger]
                    built(one, manga, source, Ok(converted));
                assert(built(other, manga, source, Ok(converted)));
            },
            _ => {},
        }
    }
}

impl MangaConverter {
    /// Converts one manga: decides what becomes of it and, where it is
    /// converted, makes its records.
    pub fn convert_manga<F: Fn(&SourceInfo) -> bool>(
        &mut self,
        manga: &BackupManga,
        source_filter: &F,
    ) -> (r: MangaOutcome)
        requires
            forall|asked: SourceInfo|
                asked@.id == decimal_of(manga.source as int) ==> call_requires(
                    *source_filter,
                    (&asked,),
                ),
        ensures
            final(self)@.same_names(old(self)@),
            outcome_allowed(old(self)@, manga@, *source_filter, r@),
    {
        if manga.source == 0 {
            return MangaOutcome::Local;
        }
        let source = self.extensions.describe(manga.source);
        let accepted = source_filter(&source);
        if !accepted {
            return MangaOutcome::Ignored;
        }
        if str_eq(source.name.as_str(), "Unknown") {
            return MangaOutcome::UnknownSource(source);
        }
        match self.manga_to_kotatsu(manga, &source) {
            Err(error) => MangaOutcome::Failed(source, error),
            Ok(converted) => {
                if str_eq(converted.source.as_str(), "UNKNOWN") {
                    MangaOutcome::NoParser(source)
                } else {
                    let records = self.manga_records(manga, converted);
                    MangaOutcome::Converted(records)
                }
            },
        }
    }

    /// Converts an origin backup. Every manga is taken in the order of the
    /// backup and entered into the result with its outcome; none stops the
    /// run. `favorites_name` names the category of all manga.
    /// `source_filter` says of a source descriptor whether the manga of that
    /// source are wanted.
    pub fn convert_backup<F: Fn(&SourceInfo) -> bool>(
        self,
        backup: Backup,
        favorites_name: &str,
        source_filter: &F,
    ) -> (r: MangaConversionResult)
        requires
            forall|asked: SourceInfo, id: i64|
                asked@.id == decimal_of(id as int) ==> call_requires(*source_filter, (&asked,)),
        ensures
            is_conversion(self@, backup@, favorites_name@, *source_filter, r@),
            r@.categories == categories_of(backup@.categories, favorites_name@, self@.sort),
            r@.consistent(),
            r@.entered() == r@.total_manga == backup@.manga.len(),
    {
        let mut engine = self;
        let ghost converter = engine@;
        let ghost start = started(backup@, favorites_name@, converter.sort);
        let mut result = MangaConversionResult::start(
            &backup,
            favorites_name,
            &engine.category_sort_type,
        );
        let ghost mut outcomes: Seq<OutcomeView> = Seq::empty();
        let mut i: usize = 0;
        while i < backup.backup_manga.len()
            invariant
                i <= backup.backup_manga.len(),
                backup@.manga.len() == backup.backup_manga@.len(),
                engine@.same_names(converter),
                start == started(backup@, favorites_name@, converter.sort),
                outcomes.len() == i,
                forall|j: int|
                    0 <= j < i ==> outcome_allowed(
                        converter,
                        backup@.manga[j],
                        *source_filter,
                        #[trigger] outcomes[j],
                    ),
                result@ == tallied(start, backup@.manga, outcomes, i as int),
                result@.consistent(),
                result@.entered() == i,
                result@.total_manga == backup@.manga.len(),
                result@.categories == start.categories,
                forall|asked: SourceInfo, id: i64|
                    asked@.id == decimal_of(id as int) ==> call_requires(
                        *source_filter,
                        (&asked,),
                    ),
            decreases backup.backup_manga.len() - i,
        {
            let manga = &backup.backup_manga[i];
            let ghost before = engine@;
            let ghost entered = outcomes;
            let outcome = engine.convert_manga(manga, source_filter);
            proof {
                lemma_outcome_under_same_names(
                    before,
                    converter,
                    manga@,
                    *source_filter,
                    outcome@,
                );
                outcomes = outcomes.push(outcome@);
                lemma_tallied_prefix(start, backup@.manga, entered, outcomes, i as int);
            }
            result.record(manga, outcome);
            i += 1;
        }
        proof {
            assert(conversion_via(
                converter,
                backup@,
                favorites_name@,
                *source_filter,
                outcomes,
                result@,
            ));
        }
        result
    }
}

/// The result after the first `n` manga depends on the first `n` outcomes
/// only.
pub proof fn lemma_tallied_prefix(
    start: ConversionView,
    manga: Seq<MangaView>,
    one: Seq<OutcomeView>,
    other: Seq<OutcomeView>,
    n: int,
)
    requires
        forall|i: int| 0 <= i < n ==> one[i] == other[i],
    ensures
        tallied(start, manga, one, n) == tallied(start, manga, other, n),
    decreases n,
{
    if n > 0 {
        lemma_tallied_prefix(start, manga, one, other, n - 1);
    }
}

} // verus!
