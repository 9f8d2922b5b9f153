//! What holds of every scan, whatever the registry and the documents.
//!
//! A scan is told as the sequence of the caller's answers; [`run`] gives the
//! state that the scan is in after them. Every law below speaks of `run`, so
//! of every state that a scan can reach.

use crate::report::{ContainedResultView, ScanResultView};
use crate::score::Score;
use crate::session::{AnalysisView, ScanAction, ScanError, ScanEventView, ScanView};
use crate::strategy::ScanStrategy;
use vstd::prelude::*;

verus! {

/// The state of a scan after the caller's answers `events`, in order.
pub open spec fn run(strategy: ScanStrategy, events: Seq<ScanEventView>) -> ScanView
    decreases events.len(),
{
    if events.len() == 0 {
        ScanView::Querying
    } else {
        strategy.step(run(strategy, events.drop_last()), events.last())
    }
}

/// What holds of the findings of a scan at every moment.
pub open spec fn sound(strategy: ScanStrategy, found: ScanResultView) -> bool {
    &&& found.license is Some <==> strategy.confident(found.score)
    &&& found.containing.len() <= strategy.max_passes
    &&& !strategy.optimize ==> found.containing.len() == 0
    &&& strategy.conclusive(found.score) ==> found.containing.len() == 0
    &&& forall|i: int|
        0 <= i < found.containing.len() ==> !(#[trigger] found.containing[i]).score.lt(
            strategy.confidence_threshold,
        )
}

/// Whether a state is steady, as every state of a scan is: its findings
/// are sound, and it asks for another pass only where one is left and the
/// first match did not settle the scan.
pub open spec fn steady(strategy: ScanStrategy, state: ScanView) -> bool {
    match state {
        ScanView::Querying => true,
        ScanView::Failed { .. } => true,
        ScanView::Narrowing { found, .. } => {
            &&& sound(strategy, found)
            &&& found.containing.len() < strategy.max_passes
            &&& strategy.digs_deeper(found.score)
        },
        ScanView::Masking { found } => {
            &&& sound(strategy, found)
            &&& found.containing.len() >= 1
            &&& strategy.digs_deeper(found.score)
        },
        ScanView::Finished { result } => sound(strategy, result),
    }
}

/// Whether every score that the registry gave in `events` lies between 0.0
/// and 1.0.
pub open spec fn analyses_in_unit_range(events: Seq<ScanEventView>) -> bool {
    forall|i: int|
        0 <= i < events.len() ==> (#[trigger] events[i] matches ScanEventView::Analyzed(analysis)
            ==> analysis.score.in_unit_range())
}

/// Whether every narrowing in `events` came with a score between 0.0 and
/// 1.0.
pub open spec fn narrowings_in_unit_range(events: Seq<ScanEventView>) -> bool {
    forall|i: int|
        0 <= i < events.len() ==> (#[trigger] events[i] matches ScanEventView::Narrowed {
            score,
            ..
        } ==> score.in_unit_range())
}

/// Whether every narrowing in `events` gave lines of a document of
/// `total_lines` lines, and at least one.
pub open spec fn narrowings_within(events: Seq<ScanEventView>, total_lines: int) -> bool {
    forall|i: int|
        0 <= i < events.len() ==> (#[trigger] events[i] matches ScanEventView::Narrowed {
            line_range,
            ..
        } ==> 0 <= line_range.0 < line_range.1 <= total_lines)
}

/// A step from a steady state leads to a steady state.
pub proof fn lemma_step_keeps_steady(
    strategy: ScanStrategy,
    state: ScanView,
    event: ScanEventView,
)
    requires
        steady(strategy, state),
    ensures
        steady(strategy, strategy.step(state, event)),
{
}

/// Every state that a scan reaches is steady.
pub proof fn lemma_run_is_steady(strategy: ScanStrategy, events: Seq<ScanEventView>)
    ensures
        steady(strategy, run(strategy, events)),
    decreases events.len(),
{
    if events.len() > 0 {
        lemma_run_is_steady(strategy, events.drop_last());
        lemma_step_keeps_steady(
            strategy,
            run(strategy, events.drop_last()),
            events.last(),
        );
    }
}

/// Once the document was analyzed, a scan names its license if and only if
/// the overall score exceeds the confidence threshold.
pub proof fn lemma_license_iff_confident(strategy: ScanStrategy, events: Seq<ScanEventView>)
    ensures
        run(strategy, events).so_far() matches Some(found) ==> (found.license is Some
            <==> found.score.gt(strategy.confidence_threshold)),
{
    lemma_run_is_steady(strategy, events);
}

/// A strategy that does not optimize finds nothing inside a document, and
/// never asks for a narrowing or a masking.
pub proof fn lemma_nothing_contained_without_optimize(
    strategy: ScanStrategy,
    events: Seq<ScanEventView>,
)
    requires
        !strategy.optimize,
    ensures
        run(strategy, events).so_far() matches Some(found) ==> found.containing.len() == 0,
        run(strategy, events).action() != ScanAction::Narrow,
        run(strategy, events).action() != ScanAction::MaskAndAnalyze,
{
    lemma_run_is_steady(strategy, events);
}

/// A scan finds no more licenses inside a document than the strategy allows
/// passes, and asks for a narrowing only while a pass is left.
pub proof fn lemma_contained_at_most_max_passes(
    strategy: ScanStrategy,
    events: Seq<ScanEventView>,
)
    ensures
        run(strategy, events).so_far() matches Some(found) ==> found.containing.len()
            <= strategy.max_passes,
        run(strategy, events) matches ScanView::Narrowing { found, .. }
            ==> found.containing.len() < strategy.max_passes,
{
    lemma_run_is_steady(strategy, events);
}

/// Where the overall score exceeds the confidence threshold and the shallow
/// limit, the scan is over with the first analysis: nothing is narrowed or
/// masked and nothing found inside the document, whether the strategy
/// optimizes or not.
pub proof fn lemma_conclusive_match_ends_scan(strategy: ScanStrategy, events: Seq<ScanEventView>)
    ensures
        run(strategy, events).so_far() matches Some(found) ==> (strategy.conclusive(found.score)
            ==> found.containing.len() == 0 && run(strategy, events) is Finished),
{
    lemma_run_is_steady(strategy, events);
}

/// Under a strategy whose shallow limit is not less than its confidence
/// threshold, an overall score above the shallow limit alone ends the scan
/// with the first analysis.
pub proof fn lemma_score_above_shallow_limit_ends_scan(
    strategy: ScanStrategy,
    events: Seq<ScanEventView>,
)
    requires
        strategy.shallow_limit.ge(strategy.confidence_threshold),
    ensures
        run(strategy, events).so_far() matches Some(found) ==> (found.score.gt(
            strategy.shallow_limit,
        ) ==> found.containing.len() == 0 && run(strategy, events) is Finished),
{
    lemma_run_is_steady(strategy, events);
}

/// Every license recorded inside a document matched with a score that is
/// not below the confidence threshold.
pub proof fn lemma_contained_not_below_threshold(
    strategy: ScanStrategy,
    events: Seq<ScanEventView>,
    i: int,
)
    ensures
        run(strategy, events).so_far() matches Some(found) ==> (0 <= i < found.containing.len()
            ==> !found.containing[i].score.lt(strategy.confidence_threshold)),
{
    lemma_run_is_steady(strategy, events);
}

/// Where the registry gives only scores between 0.0 and 1.0, the overall
/// score of a scan lies between 0.0 and 1.0.
pub proof fn lemma_score_in_unit_range(strategy: ScanStrategy, events: Seq<ScanEventView>)
    requires
        analyses_in_unit_range(events),
    ensures
        run(strategy, events).so_far() matches Some(found) ==> found.score.in_unit_range(),
    decreases events.len(),
{
    if events.len() > 0 {
        let earlier = events.drop_last();
        assert forall|i: int| 0 <= i < earlier.len() implies (#[trigger] earlier[i] matches ScanEventView::Analyzed(
            analysis,
        ) ==> analysis.score.in_unit_range()) by {
            assert(earlier[i] == events[i]);
        }
        lemma_score_in_unit_range(strategy, earlier);
        assert(events.last() == events[events.len() - 1]);
    }
}

/// Where every narrowing comes with a score between 0.0 and 1.0, the score
/// of every license recorded inside a document lies between 0.0 and 1.0.
pub proof fn lemma_contained_scores_in_unit_range(
    strategy: ScanStrategy,
    events: Seq<ScanEventView>,
)
    requires
        narrowings_in_unit_range(events),
    ensures
        run(strategy, events).so_far() matches Some(found) ==> forall|j: int|
            0 <= j < found.containing.len() ==> (#[trigger] found.containing[j])
                .score.in_unit_range(),
    decreases events.len(),
{
    if events.len() > 0 {
        let earlier = events.drop_last();
        assert forall|i: int| 0 <= i < earlier.len() implies (#[trigger] earlier[i] matches ScanEventView::Narrowed {
            score,
            ..
        } ==> score.in_unit_range()) by {
            assert(earlier[i] == events[i]);
        }
        lemma_contained_scores_in_unit_range(strategy, earlier);
        assert(events.last() == events[events.len() - 1]);
    }
}

/// Where every narrowing gives at least one line, and only lines of the
/// document, every license recorded inside the document has such a line
/// range: `0 <= start < end <= total_lines`.
pub proof fn lemma_line_ranges_within_document(
    strategy: ScanStrategy,
    events: Seq<ScanEventView>,
    total_lines: int,
)
    requires
        narrowings_within(events, total_lines),
    ensures
        run(strategy, events).so_far() matches Some(found) ==> forall|j: int|
            0 <= j < found.containing.len() ==> (#[trigger] found.containing[j]).within(
                total_lines,
            ),
    decreases events.len(),
{
    if events.len() > 0 {
        let earlier = events.drop_last();
        assert forall|i: int| 0 <= i < earlier.len() implies (#[trigger] earlier[i] matches ScanEventView::Narrowed {
            line_range,
            ..
        } ==> 0 <= line_range.0 < line_range.1 <= total_lines) by {
            assert(earlier[i] == events[i]);
        }
        lemma_line_ranges_within_document(strategy, earlier, total_lines);
        assert(events.last() == events[events.len() - 1]);
    }
}

/// The state of a scan is decided by the strategy and the answers alone: two
/// scans under one strategy that get the same answers are in the same state,
/// with the same findings.
pub proof fn lemma_same_answers_same_state(
    strategy: ScanStrategy,
    first: Seq<ScanEventView>,
    second: Seq<ScanEventView>,
)
    requires
        first.len() == second.len(),
        forall|i: int| 0 <= i < first.len() ==> first[i] == second[i],
    ensures
        run(strategy, first) == run(strategy, second),
{
    assert(first =~= second);
}

/// A scan that is over stays as it is, whatever the caller answers.
pub proof fn lemma_stopped_scan_stays(
    strategy: ScanStrategy,
    state: ScanView,
    event: ScanEventView,
)
    requires
        state.action() == ScanAction::Stop,
    ensures
        strategy.step(state, event) == state,
{
}

/// One more answer carries the scan one step on.
pub proof fn lemma_run_after_answer(
    strategy: ScanStrategy,
    events: Seq<ScanEventView>,
    event: ScanEventView,
)
    ensures
        run(strategy, events.push(event)) == strategy.step(run(strategy, events), event),
{
    assert(events.push(event).drop_last() =~= events);
}

/// The answers of a caller that does as it is asked through `passes`
/// passes: the analysis of the document, then for each pass its narrowing
/// and the analysis of the text masked after it. `analyses[i]` is the
/// analysis that drives pass `i`; `narrowings[i]` is the score and the lines
/// that pass `i` comes to.
pub open spec fn conversation(
    analyses: Seq<AnalysisView>,
    narrowings: Seq<(Score, (usize, usize))>,
    passes: nat,
) -> Seq<ScanEventView>
    decreases passes,
{
    if passes == 0 {
        seq![ScanEventView::Analyzed(analyses[0])]
    } else {
        let pass = passes - 1;
        conversation(analyses, narrowings, pass as nat).push(
            ScanEventView::Narrowed { score: narrowings[pass].0, line_range: narrowings[pass].1 },
        ).push(ScanEventView::Analyzed(analyses[pass + 1]))
    }
}

/// What a scan has found after `passes` passes that each recorded a
/// license: the score of the first analysis, its license where that score
/// exceeds the confidence threshold, and for each pass the score and lines
/// of its narrowing under the license of the analysis that drove it.
pub open spec fn findings(
    strategy: ScanStrategy,
    analyses: Seq<AnalysisView>,
    narrowings: Seq<(Score, (usize, usize))>,
    passes: nat,
) -> ScanResultView {
    ScanResultView {
        score: analyses[0].score,
        license: if strategy.confident(analyses[0].score) {
            Some(analyses[0].license)
        } else {
            None
        },
        containing: Seq::new(
            passes,
            |i: int|
                ContainedResultView {
                    score: narrowings[i].0,
                    license: analyses[i].license,
                    line_range: narrowings[i].1,
                },
        ),
    }
}

/// A scan that does not search inside the document is over with the first
/// analysis, and reports its score, its license where the score exceeds the
/// confidence threshold, and nothing else.
pub proof fn lemma_scan_without_search(strategy: ScanStrategy, analysis: AnalysisView)
    requires
        !strategy.digs_deeper(analysis.score),
    ensures
        run(strategy, seq![ScanEventView::Analyzed(analysis)]) == (ScanView::Finished {
            result: findings(strategy, seq![analysis], Seq::empty(), 0),
        }),
{
    let events = seq![ScanEventView::Analyzed(analysis)];
    assert(events.drop_last() =~= Seq::empty());
    assert(run(strategy, events.drop_last()) == ScanView::Querying);
    assert(events.last() == ScanEventView::Analyzed(analysis));
    assert(findings(strategy, seq![analysis], Seq::empty(), 0).containing =~= Seq::empty());
}

/// A scan that searches, and whose first `passes` narrowings are all not
/// below the confidence threshold, has recorded exactly these, in order,
/// each under the license of the analysis that drove it. It is over when
/// the passes are used up, and otherwise asks for the next narrowing,
/// driven by the latest analysis.
pub proof fn lemma_scan_records_each_pass(
    strategy: ScanStrategy,
    analyses: Seq<AnalysisView>,
    narrowings: Seq<(Score, (usize, usize))>,
    passes: nat,
)
    requires
        strategy.digs_deeper(analyses[0].score),
        passes <= strategy.max_passes,
        forall|i: int|
            0 <= i < passes ==> !(#[trigger] narrowings[i]).0.lt(strategy.confidence_threshold),
    ensures
        run(strategy, conversation(analyses, narrowings, passes)) == (if passes
            == strategy.max_passes {
            ScanView::Finished { result: findings(strategy, analyses, narrowings, passes) }
        } else {
            ScanView::Narrowing {
                found: findings(strategy, analyses, narrowings, passes),
                driving: analyses[passes as int].license,
            }
        }),
    decreases passes,
{
    if passes == 0 {
        let events = conversation(analyses, narrowings, 0);
        assert(events.drop_last() =~= Seq::empty());
        assert(run(strategy, events.drop_last()) == ScanView::Querying);
        assert(events.last() == ScanEventView::Analyzed(analyses[0]));
        assert(findings(strategy, analyses, narrowings, 0).containing =~= Seq::empty());
    } else {
        let pass = (passes - 1) as nat;
        let earlier = conversation(analyses, narrowings, pass);
        let narrowed = ScanEventView::Narrowed {
            score: narrowings[pass as int].0,
            line_range: narrowings[pass as int].1,
        };
        let analyzed = ScanEventView::Analyzed(analyses[pass as int + 1]);
        lemma_scan_records_each_pass(strategy, analyses, narrowings, pass);
        lemma_run_after_answer(strategy, earlier, narrowed);
        lemma_run_after_answer(strategy, earlier.push(narrowed), analyzed);
        let before = findings(strategy, analyses, narrowings, pass);
        let after = findings(strategy, analyses, narrowings, passes);
        assert(after.containing =~= before.containing.push(
            ContainedResultView {
                score: narrowings[pass as int].0,
                license: analyses[pass as int].license,
                line_range: narrowings[pass as int].1,
            },
        ));
    }
}

/// A scan ends with the first narrowing whose score is below the confidence
/// threshold, and reports what the passes before it recorded.
pub proof fn lemma_scan_ends_below_threshold(
    strategy: ScanStrategy,
    analyses: Seq<AnalysisView>,
    narrowings: Seq<(Score, (usize, usize))>,
    passes: nat,
)
    requires
        strategy.digs_deeper(analyses[0].score),
        passes < strategy.max_passes,
        forall|i: int|
            0 <= i < passes ==> !(#[trigger] narrowings[i]).0.lt(strategy.confidence_threshold),
        narrowings[passes as int].0.lt(strategy.confidence_threshold),
    ensures
        run(
            strategy,
            conversation(analyses, narrowings, passes).push(
                ScanEventView::Narrowed {
                    score: narrowings[passes as int].0,
                    line_range: narrowings[passes as int].1,
                },
            ),
        ) == (ScanView::Finished { result: findings(strategy, analyses, narrowings, passes) }),
{
    lemma_scan_records_each_pass(strategy, analyses, narrowings, passes);
    lemma_run_after_answer(
        strategy,
        conversation(analyses, narrowings, passes),
        ScanEventView::Narrowed {
            score: narrowings[passes as int].0,
            line_range: narrowings[passes as int].1,
        },
    );
}

/// A scan in which a query fails is over without a result, whatever it had
/// found before.
pub proof fn lemma_failed_query_fails_scan(strategy: ScanStrategy, events: Seq<ScanEventView>)
    requires
        run(strategy, events).action() == ScanAction::Analyze || run(strategy, events).action()
            == ScanAction::MaskAndAnalyze,
    ensures
        run(strategy, events.push(ScanEventView::QueryFailed)).outcome() == Some(
            Err::<ScanResultView, ScanError>(ScanError::QueryFailed),
        ),
{
    lemma_run_after_answer(strategy, events, ScanEventView::QueryFailed);
}

} // verus!
