//! What holds of every conversion run.

use vstd::prelude::*;
use crate::convert::{
    answers_allowed, built, chapter_answers_allowed, conversion_via, manga_from, outcome_allowed,
    filter_says, recorded_chapters, records_from, tallied, Answer, Answers, ConverterView,
};
use crate::extensions::{descriptor, lemma_first_with_id_has_id, SourceInfo, SourceInfoView};
use crate::kotatsu::KotatsuMangaView;
use crate::neko::{BackupView, MangaView};
use crate::report::{ConversionErrorView, LogLevel, WarningView};
use crate::script_interface::allowed_answer;
use crate::tally::{started, ConversionView, OutcomeView, RecordsView};
use crate::text::decimal_of;

verus! {

/// The filter gives descriptors that hold the same the same verdict.
pub open spec fn filter_is_steady<F: Fn(&SourceInfo) -> bool>(filter: F) -> bool {
    forall|one: SourceInfo, other: SourceInfo, first: bool, second: bool|
        one@ == other@ && #[trigger] call_ensures(filter, (&one,), first) && #[trigger] call_ensures(
            filter,
            (&other,),
            second,
        ) ==> first == second
}

/// The filter turns every descriptor of the source with the id `id` down.
pub open spec fn filter_rejects<F: Fn(&SourceInfo) -> bool>(filter: F, id: i64) -> bool {
    forall|asked: SourceInfo, verdict: bool|
        asked@.id == decimal_of(id as int) && #[trigger] call_ensures(filter, (&asked,), verdict)
            ==> !verdict
}

/// How many of the first `n` manga were ignored.
pub open spec fn ignored_among(outcomes: Seq<OutcomeView>, n: int) -> int
    decreases n,
{
    if n <= 0 {
        0
    } else {
        ignored_among(outcomes, n - 1) + if outcomes[n - 1] is Ignored {
            1int
        } else {
            0int
        }
    }
}

/// How many of the first `n` manga could not be converted.
pub open spec fn errored_among(outcomes: Seq<OutcomeView>, n: int) -> int
    decreases n,
{
    if n <= 0 {
        0
    } else {
        errored_among(outcomes, n - 1) + if outcomes[n - 1].errored() {
            1int
        } else {
            0int
        }
    }
}

/// How many of the first `n` manga were converted.
pub open spec fn converted_among(outcomes: Seq<OutcomeView>, n: int) -> int
    decreases n,
{
    if n <= 0 {
        0
    } else {
        converted_among(outcomes, n - 1) + if outcomes[n - 1] is Converted {
            1int
        } else {
            0int
        }
    }
}

/// Under the built-in corrections, the record of a manga, or the reason why
/// it has none, is determined.
pub proof fn built_is_determined(
    converter: ConverterView,
    manga: MangaView,
    source: SourceInfoView,
    one: Result<KotatsuMangaView, ConversionErrorView>,
    other: Result<KotatsuMangaView, ConversionErrorView>,
)
    requires
        converter.built_in(),
        built(converter, manga, source, one),
        built(converter, manga, source, other),
    ensures
        one == other,
{
    let name = converter.name_of(manga.source);
    let first = choose|answers: Answers|
        answers_allowed(converter.built_in(), name, source, manga, answers) && #[trigger] manga_from(
            manga,
            source,
            name,
            answers,
        ) == one;
    let second = choose|answers: Answers|
        answers_allowed(converter.built_in(), name, source, manga, answers) && #[trigger] manga_from(
            manga,
            source,
            name,
            answers,
        ) == other;
    assert(first.relative_url == second.relative_url);
    assert(first.manga_identifier == second.manga_identifier);
    assert(first.public_url == second.public_url);
    assert(first == second);
}

/// Under the built-in corrections, the records of a converted manga are
/// determined.
pub proof fn records_are_determined(
    manga: MangaView,
    converted: KotatsuMangaView,
    one: RecordsView,
    other: RecordsView,
)
    requires
        recorded_chapters(true, manga, converted, one),
        recorded_chapters(true, manga, converted, other),
    ensures
        one == other,
{
    let first = choose|answers: Seq<Answer>|
        chapter_answers_allowed(true, converted.source, manga.chapters, answers)
            && #[trigger] records_from(manga, converted, answers) == one;
    let second = choose|answers: Seq<Answer>|
        chapter_answers_allowed(true, converted.source, manga.chapters, answers)
            && #[trigger] records_from(manga, converted, answers) == other;
    assert forall|i: int| 0 <= i < first.len() implies first[i] == second[i] by {
        if i < manga.chapters.len() {
            assert(allowed_answer(
                true,
                crate::correction::corrected_identifier(converted.source, manga.chapters[i].url),
                first[i],
            ));
            assert(allowed_answer(
                true,
                crate::correction::corrected_identifier(converted.source, manga.chapters[i].url),
                second[i],
            ));
        }
    }
    assert(first =~= second);
}

/// Under the built-in corrections and a steady filter, a manga has one
/// outcome.
pub proof fn outcome_is_determined<F: Fn(&SourceInfo) -> bool>(
    converter: ConverterView,
    manga: MangaView,
    filter: F,
    one: OutcomeView,
    other: OutcomeView,
)
    requires
        converter.built_in(),
        filter_is_steady(filter),
        outcome_allowed(converter, manga, filter, one),
        outcome_allowed(converter, manga, filter, other),
    ensures
        one == other,
{
    let source = descriptor(converter.registry, manga.source);
    if manga.source != 0 {
        if filter_says(filter, source, false) && filter_says(filter, source, true) {
            let refused = choose|asked: SourceInfo| #[trigger]
                call_ensures(filter, (&asked,), false) && asked@ == source;
            let accepted = choose|asked: SourceInfo| #[trigger]
                call_ensures(filter, (&asked,), true) && asked@ == source;
            assert(refused@ == accepted@);
            assert(false);
        }
        match (one, other) {
            (OutcomeView::Failed(_, first), OutcomeView::Failed(_, second)) => {
                built_is_determined(converter, manga, source, Err(first), Err(second));
            },
            (OutcomeView::Failed(_, first), OutcomeView::NoParser(_)) => {
                let converted = choose|converted: KotatsuMangaView| #[trigger]
                    built(converter, manga, source, Ok(converted));
                built_is_determined(converter, manga, source, Err(first), Ok(converted));
            },
            (OutcomeView::NoParser(_), OutcomeView::Failed(_, second)) => {
                let converted = choose|converted: KotatsuMangaView| #[trigger]
                    built(converter, manga, source, Ok(converted));
                built_is_determined(converter, manga, source, Err(second), Ok(converted));
            },
            (OutcomeView::Failed(_, first), OutcomeView::Converted(records)) => {
                built_is_determined(converter, manga, source, Err(first), Ok(records.manga));
            },
            (OutcomeView::Converted(records), OutcomeView::Failed(_, second)) => {
                built_is_determined(converter, manga, source, Err(second), Ok(records.manga));
            },
            (OutcomeView::Converted(first), OutcomeView::Converted(second)) => {
                built_is_determined(converter, manga, source, Ok(first.manga), Ok(second.manga));
                records_are_determined(manga, first.manga, first, second);
            },
            _ => {},
        }
    }
}

/// Conversion is repeatable: under the built-in corrections and a steady
/// filter, two runs of one converter on one backup give the same outcomes
/// manga by manga and the same result, every derived identifier included.
pub proof fn conversion_is_repeatable<F: Fn(&SourceInfo) -> bool>(
    converter: ConverterView,
    backup: BackupView,
    favorites_name: Seq<char>,
    filter: F,
    first_outcomes: Seq<OutcomeView>,
    first: ConversionView,
    second_outcomes: Seq<OutcomeView>,
    second: ConversionView,
)
    requires
        converter.built_in(),
        filter_is_steady(filter),
        conversion_via(converter, backup, favorites_name, filter, first_outcomes, first),
        conversion_via(converter, backup, favorites_name, filter, second_outcomes, second),
    ensures
        first_outcomes == second_outcomes,
        first == second,
{
    assert forall|i: int| 0 <= i < backup.manga.len() implies first_outcomes[i]
        == second_outcomes[i] by {
        outcome_is_determined(
            converter,
            backup.manga[i],
            filter,
            first_outcomes[i],
            second_outcomes[i],
        );
    }
    assert(first_outcomes =~= second_outcomes);
}

/// A manga of a source that the filter turns down is ignored, whatever else
/// holds of it.
pub proof fn rejected_source_is_ignored<F: Fn(&SourceInfo) -> bool>(
    converter: ConverterView,
    manga: MangaView,
    filter: F,
    outcome: OutcomeView,
)
    requires
        manga.source != 0,
        filter_rejects(filter, manga.source),
        outcome_allowed(converter, manga, filter, outcome),
    ensures
        outcome is Ignored,
{
    let source = descriptor(converter.registry, manga.source);
    lemma_first_with_id_has_id(converter.registry, decimal_of(manga.source as int));
    assert(source.id == decimal_of(manga.source as int));
    if filter_says(filter, source, true) {
        let accepted = choose|asked: SourceInfo| #[trigger]
            call_ensures(filter, (&asked,), true) && asked@ == source;
        assert(accepted@.id == decimal_of(manga.source as int));
        assert(false);
    }
}

/// The counts of a result follow the outcomes: an ignored manga is counted
/// as ignored and as nothing else, one that could not be converted as
/// errored, and each converted manga has one reading state.
pub proof fn counts_follow_outcomes(
    start: ConversionView,
    manga: Seq<MangaView>,
    outcomes: Seq<OutcomeView>,
    n: int,
)
    ensures
        tallied(start, manga, outcomes, n).ignored_manga == start.ignored_manga + ignored_among(
            outcomes,
            n,
        ),
        tallied(start, manga, outcomes, n).errored_manga == start.errored_manga + errored_among(
            outcomes,
            n,
        ),
        tallied(start, manga, outcomes, n).history.len() == start.history.len() + converted_among(
            outcomes,
            n,
        ),
        tallied(start, manga, outcomes, n).total_manga == start.total_manga,
        tallied(start, manga, outcomes, n).categories == start.categories,
    decreases n,
{
    if n > 0 {
        counts_follow_outcomes(start, manga, outcomes, n - 1);
    }
}

/// The manga among the first `n` that are not of the source with the id
/// `id`.
pub open spec fn manga_of_others(manga: Seq<MangaView>, id: i64, n: int) -> Seq<MangaView>
    decreases n,
{
    if n <= 0 {
        Seq::empty()
    } else if manga[n - 1].source == id {
        manga_of_others(manga, id, n - 1)
    } else {
        manga_of_others(manga, id, n - 1).push(manga[n - 1])
    }
}

/// The outcomes of the manga among the first `n` that are not of the source
/// with the id `id`.
pub open spec fn outcomes_of_others(
    manga: Seq<MangaView>,
    outcomes: Seq<OutcomeView>,
    id: i64,
    n: int,
) -> Seq<OutcomeView>
    decreases n,
{
    if n <= 0 {
        Seq::empty()
    } else if manga[n - 1].source == id {
        outcomes_of_others(manga, outcomes, id, n - 1)
    } else {
        outcomes_of_others(manga, outcomes, id, n - 1).push(outcomes[n - 1])
    }
}

/// How many of the first `n` manga are of the source with the id `id`.
pub open spec fn manga_of_source(manga: Seq<MangaView>, id: i64, n: int) -> int
    decreases n,
{
    if n <= 0 {
        0
    } else {
        manga_of_source(manga, id, n - 1) + if manga[n - 1].source == id {
            1int
        } else {
            0int
        }
    }
}

/// The result with `count` fewer manga in the backup, all of them ignored.
pub open spec fn without_ignored(result: ConversionView, count: int) -> ConversionView {
    ConversionView {
        total_manga: result.total_manga - count,
        ignored_manga: result.ignored_manga - count,
        ..result
    }
}

/// The result after the first `n` manga depends on the first `n` manga and
/// outcomes only.
proof fn lemma_tallied_agrees(
    start: ConversionView,
    manga: Seq<MangaView>,
    outcomes: Seq<OutcomeView>,
    other_manga: Seq<MangaView>,
    other_outcomes: Seq<OutcomeView>,
    n: int,
)
    requires
        forall|i: int| 0 <= i < n ==> manga[i] == other_manga[i] && outcomes[i] == other_outcomes[i],
    ensures
        tallied(start, manga, outcomes, n) == tallied(start, other_manga, other_outcomes, n),
    decreases n,
{
    if n > 0 {
        lemma_tallied_agrees(start, manga, outcomes, other_manga, other_outcomes, n - 1);
    }
}

/// Entering outcomes does not look at the number of manga of the backup nor
/// at the number of those that were ignored.
proof fn lemma_tallied_without_ignored(
    start: ConversionView,
    manga: Seq<MangaView>,
    outcomes: Seq<OutcomeView>,
    n: int,
    count: int,
)
    ensures
        tallied(without_ignored(start, count), manga, outcomes, n) == without_ignored(
            tallied(start, manga, outcomes, n),
            count,
        ),
    decreases n,
{
    if n > 0 {
        lemma_tallied_without_ignored(start, manga, outcomes, n - 1, count);
    }
}

/// The manga of the other sources, and their outcomes, are as many.
proof fn lemma_others_len(manga: Seq<MangaView>, outcomes: Seq<OutcomeView>, id: i64, n: int)
    requires
        0 <= n <= manga.len(),
    ensures
        manga_of_others(manga, id, n).len() == outcomes_of_others(manga, outcomes, id, n).len(),
        manga_of_others(manga, id, n).len() + manga_of_source(manga, id, n) == n,
    decreases n,
{
    if n > 0 {
        lemma_others_len(manga, outcomes, id, n - 1);
    }
}

/// Where every manga of one source is ignored, the result after the first
/// `n` manga is that of the manga of the other sources, but for the count of
/// those that were ignored.
proof fn lemma_tallied_without_source(
    start: ConversionView,
    manga: Seq<MangaView>,
    outcomes: Seq<OutcomeView>,
    id: i64,
    n: int,
)
    requires
        0 <= n <= manga.len(),
        forall|i: int| 0 <= i < n && manga[i].source == id ==> #[trigger] outcomes[i] is Ignored,
    ensures
        tallied(
            start,
            manga_of_others(manga, id, n),
            outcomes_of_others(manga, outcomes, id, n),
            manga_of_others(manga, id, n).len() as int,
        ) == (ConversionView {
            ignored_manga: tallied(start, manga, outcomes, n).ignored_manga - manga_of_source(
                manga,
                id,
                n,
            ),
            ..tallied(start, manga, outcomes, n)
        }),
    decreases n,
{
    if n > 0 {
        lemma_tallied_without_source(start, manga, outcomes, id, n - 1);
        lemma_others_len(manga, outcomes, id, n - 1);
        if manga[n - 1].source == id {
            assert(outcomes[n - 1] is Ignored);
        } else {
            let before_manga = manga_of_others(manga, id, n - 1);
            let before_outcomes = outcomes_of_others(manga, outcomes, id, n - 1);
            let count = before_manga.len() as int;
            lemma_tallied_agrees(
                start,
                before_manga,
                before_outcomes,
                before_manga.push(manga[n - 1]),
                before_outcomes.push(outcomes[n - 1]),
                count,
            );
        }
    }
}

/// The outcomes of the manga of the other sources are outcomes that they may
/// have.
proof fn lemma_others_allowed<F: Fn(&SourceInfo) -> bool>(
    converter: ConverterView,
    manga: Seq<MangaView>,
    filter: F,
    outcomes: Seq<OutcomeView>,
    id: i64,
    n: int,
)
    requires
        0 <= n <= manga.len(),
        forall|i: int|
            0 <= i < n ==> outcome_allowed(converter, manga[i], filter, #[trigger] outcomes[i]),
    ensures
        forall|i: int|
            0 <= i < manga_of_others(manga, id, n).len() ==> outcome_allowed(
                converter,
                manga_of_others(manga, id, n)[i],
                filter,
                #[trigger] outcomes_of_others(manga, outcomes, id, n)[i],
            ),
    decreases n,
{
    if n > 0 {
        lemma_others_allowed(converter, manga, filter, outcomes, id, n - 1);
        lemma_others_len(manga, outcomes, id, n - 1);
        if manga[n - 1].source != id {
            assert(outcome_allowed(converter, manga[n - 1], filter, outcomes[n - 1]));
        }
    }
}

/// A source that the filter turns down leaves no trace but in the counts:
/// the result of a run is that of a run on the backup without the manga of
/// that source, where they had the same outcomes, but that it counts them
/// among the manga of the backup and among those that were ignored. So no
/// record, no tally and no warning stems from a manga of that source, and
/// none of them is counted as errored.
pub proof fn rejected_source_leaves_no_record<F: Fn(&SourceInfo) -> bool>(
    converter: ConverterView,
    backup: BackupView,
    favorites_name: Seq<char>,
    filter: F,
    outcomes: Seq<OutcomeView>,
    result: ConversionView,
    id: i64,
)
    requires
        id != 0,
        filter_rejects(filter, id),
        conversion_via(converter, backup, favorites_name, filter, outcomes, result),
    ensures
        conversion_via(
            converter,
            BackupView {
                manga: manga_of_others(backup.manga, id, backup.manga.len() as int),
                categories: backup.categories,
            },
            favorites_name,
            filter,
            outcomes_of_others(backup.manga, outcomes, id, backup.manga.len() as int),
            without_ignored(result, manga_of_source(backup.manga, id, backup.manga.len() as int)),
        ),
{
    let n = backup.manga.len() as int;
    let others = manga_of_others(backup.manga, id, n);
    let their_outcomes = outcomes_of_others(backup.manga, outcomes, id, n);
    let count = manga_of_source(backup.manga, id, n);
    let start = started(backup, favorites_name, converter.sort);
    let smaller = BackupView { manga: others, categories: backup.categories };
    assert forall|i: int| 0 <= i < n && backup.manga[i].source == id implies #[trigger] outcomes[i]
        is Ignored by {
        rejected_source_is_ignored(converter, backup.manga[i], filter, outcomes[i]);
    }
    lemma_others_len(backup.manga, outcomes, id, n);
    lemma_others_allowed(converter, backup.manga, filter, outcomes, id, n);
    lemma_tallied_without_source(start, backup.manga, outcomes, id, n);
    assert(started(smaller, favorites_name, converter.sort) == without_ignored(
        ConversionView { ignored_manga: count, ..start },
        count,
    ));
    lemma_tallied_without_ignored(
        ConversionView { ignored_manga: count, ..start },
        others,
        their_outcomes,
        others.len() as int,
        count,
    );
    lemma_tallied_more_ignored(start, others, their_outcomes, others.len() as int, count);
}

/// Manga that were ignored before the first is entered are ignored after the
/// last.
proof fn lemma_tallied_more_ignored(
    start: ConversionView,
    manga: Seq<MangaView>,
    outcomes: Seq<OutcomeView>,
    n: int,
    count: int,
)
    ensures
        tallied(ConversionView { ignored_manga: start.ignored_manga + count, ..start }, manga, outcomes, n)
            == (ConversionView {
            ignored_manga: tallied(start, manga, outcomes, n).ignored_manga + count,
            ..tallied(start, manga, outcomes, n)
        }),
    decreases n,
{
    if n > 0 {
        lemma_tallied_more_ignored(start, manga, outcomes, n - 1, count);
    }
}

/// How many of the first `n` warnings report an unknown source at the normal
/// level.
pub open spec fn unknown_reports(warnings: Seq<WarningView>, n: int) -> int
    decreases n,
{
    if n <= 0 {
        0
    } else {
        unknown_reports(warnings, n - 1) + if warnings[n - 1] is UnknownSource && warnings[n
            - 1].level() == LogLevel::Info {
            1int
        } else {
            0int
        }
    }
}

/// Each unknown source is listed once and was reported once at the normal
/// level.
pub open spec fn unknown_sources_reported_once(result: ConversionView) -> bool {
    &&& result.unknown_sources.no_duplicates()
    &&& unknown_reports(result.warnings, result.warnings.len() as int)
        == result.unknown_sources.len()
}

/// The count among the first `n` warnings depends on those warnings only.
proof fn lemma_unknown_reports_agree(one: Seq<WarningView>, other: Seq<WarningView>, n: int)
    requires
        forall|i: int| 0 <= i < n ==> one[i] == other[i],
    ensures
        unknown_reports(one, n) == unknown_reports(other, n),
    decreases n,
{
    if n > 0 {
        lemma_unknown_reports_agree(one, other, n - 1);
    }
}

/// Entering an outcome keeps each unknown source listed once and reported
/// once at the normal level.
pub proof fn recording_reports_unknown_sources_once(
    result: ConversionView,
    manga: MangaView,
    outcome: OutcomeView,
)
    requires
        unknown_sources_reported_once(result),
    ensures
        unknown_sources_reported_once(result.recorded(manga, outcome)),
{
    let after = result.recorded(manga, outcome);
    let n = result.warnings.len() as int;
    if after.warnings.len() == n + 1 {
        lemma_unknown_reports_agree(result.warnings, after.warnings, n);
    } else {
        assert(after.warnings == result.warnings);
    }
}

/// However often a source that the registry does not know occurs in a
/// backup, a run lists it once and reports it once at the normal level;
/// every further manga of that source is reported to a very verbose log only.
pub proof fn unknown_sources_are_reported_once(
    start: ConversionView,
    manga: Seq<MangaView>,
    outcomes: Seq<OutcomeView>,
    n: int,
)
    requires
        unknown_sources_reported_once(start),
    ensures
        unknown_sources_reported_once(tallied(start, manga, outcomes, n)),
    decreases n,
{
    if n > 0 {
        unknown_sources_are_reported_once(start, manga, outcomes, n - 1);
        recording_reports_unknown_sources_once(
            tallied(start, manga, outcomes, n - 1),
            manga[n - 1],
            outcomes[n - 1],
        );
    }
}

/// The result of a conversion lists each unknown source once and reports it
/// once at the normal level.
pub proof fn conversion_reports_unknown_sources_once<F: Fn(&SourceInfo) -> bool>(
    converter: ConverterView,
    backup: BackupView,
    favorites_name: Seq<char>,
    filter: F,
    outcomes: Seq<OutcomeView>,
    result: ConversionView,
)
    requires
        conversion_via(converter, backup, favorites_name, filter, outcomes, result),
    ensures
        unknown_sources_reported_once(result),
{
    let start = started(backup, favorites_name, converter.sort);
    unknown_sources_are_reported_once(start, backup.manga, outcomes, backup.manga.len() as int);
}

} // verus!
