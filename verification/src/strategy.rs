//! The settings of a scan and the step that carries a scan forward.

use crate::report::{ContainedResult, ContainedResultView, IdentifiedLicense};
use crate::report::{IdentifiedLicenseView, ScanResult, ScanResultView};
use crate::score::Score;
use crate::session::{Analysis, AnalysisView, Scan, ScanError, ScanEvent, ScanEventView, ScanView};
use vstd::prelude::*;

verus! {

/// The bit pattern of 0.9, the confidence threshold of a new strategy.
pub const DEFAULT_CONFIDENCE_BITS: u32 = 0x3F66_6666;

/// The bit pattern of 0.99, the shallow limit of a new strategy.
pub const DEFAULT_SHALLOW_BITS: u32 = 0x3F7D_70A4;

/// The number of passes that a new strategy allows.
pub const DEFAULT_MAX_PASSES: u16 = 10;

/// How documents are scanned.
///
/// A strategy is a plain value: each setter returns the strategy with one
/// setting changed, and one strategy can drive any number of scans.
#[derive(Clone, Copy, Debug, PartialEq, Eq, Structural)]
pub struct ScanStrategy {
    /// The score that a match has to exceed to be reported as the license
    /// of the document, and below which a narrowed match is not recorded.
    pub confidence_threshold: Score,
    /// The score above which a reported match ends the scan at once.
    pub shallow_limit: Score,
    /// Whether the scan looks for licenses inside the document.
    pub optimize: bool,
    /// The most passes that the search inside the document makes.
    pub max_passes: u16,
}

impl ScanStrategy {
    /// The strategy with the default settings: a confidence threshold of
    /// 0.9, a shallow limit of 0.99, no search inside the document, and at
    /// most 10 passes.
    pub fn new() -> (strategy: ScanStrategy)
        ensures
            strategy.confidence_threshold.bits == DEFAULT_CONFIDENCE_BITS,
            strategy.shallow_limit.bits == DEFAULT_SHALLOW_BITS,
            !strategy.optimize,
            strategy.max_passes == DEFAULT_MAX_PASSES,
    {
        ScanStrategy {
            confidence_threshold: Score { bits: DEFAULT_CONFIDENCE_BITS },
            shallow_limit: Score { bits: DEFAULT_SHALLOW_BITS },
            optimize: false,
            max_passes: DEFAULT_MAX_PASSES,
        }
    }

    /// Sets the confidence threshold.
    pub fn confidence_threshold(self, confidence_threshold: Score) -> (strategy: ScanStrategy)
        ensures
            strategy == (ScanStrategy { confidence_threshold, ..self }),
    {
        ScanStrategy { confidence_threshold, ..self }
    }

    /// Sets the shallow limit.
    pub fn shallow_limit(self, shallow_limit: Score) -> (strategy: ScanStrategy)
        ensures
            strategy == (ScanStrategy { shallow_limit, ..self }),
    {
        ScanStrategy { shallow_limit, ..self }
    }

    /// Says whether the scan looks for licenses inside the document.
    pub fn optimize(self, optimize: bool) -> (strategy: ScanStrategy)
        ensures
            strategy == (ScanStrategy { optimize, ..self }),
    {
        ScanStrategy { optimize, ..self }
    }

    /// Sets the most passes that the search inside the document makes.
    pub fn max_passes(self, max_passes: u16) -> (strategy: ScanStrategy)
        ensures
            strategy == (ScanStrategy { max_passes, ..self }),
    {
        ScanStrategy { max_passes, ..self }
    }

    /// Whether a match with `score` is reported as the license of the
    /// document.
    pub open spec fn confident(self, score: Score) -> bool {
        score.gt(self.confidence_threshold)
    }

    /// Whether a match with `score` ends the scan at once: it is reported,
    /// and exceeds the shallow limit too.
    pub open spec fn conclusive(self, score: Score) -> bool {
        self.confident(score) && score.gt(self.shallow_limit)
    }

    /// Whether a scan, after a first analysis with `score`, goes on to
    /// search inside the document.
    pub open spec fn digs_deeper(self, score: Score) -> bool {
        !self.conclusive(score) && self.optimize && self.max_passes > 0
    }

    /// The state after the first analysis of the document.
    pub open spec fn first_step(self, analysis: AnalysisView) -> ScanView {
        let found = ScanResultView {
            score: analysis.score,
            license: if self.confident(analysis.score) {
                Some(analysis.license)
            } else {
                None
            },
            containing: Seq::empty(),
        };
        if self.digs_deeper(analysis.score) {
            ScanView::Narrowing { found, driving: analysis.license }
        } else {
            ScanView::Finished { result: found }
        }
    }

    /// The state after the working text was narrowed to `line_range` with
    /// `score`: below the confidence threshold the scan is over, otherwise
    /// the lines are recorded under the license that drove the narrowing.
    pub open spec fn narrowed_step(
        self,
        found: ScanResultView,
        driving: IdentifiedLicenseView,
        score: Score,
        line_range: (usize, usize),
    ) -> ScanView {
        if score.lt(self.confidence_threshold) {
            ScanView::Finished { result: found }
        } else {
            ScanView::Masking {
                found: ScanResultView {
                    containing: found.containing.push(
                        ContainedResultView { score, license: driving, line_range },
                    ),
                    ..found
                },
            }
        }
    }

    /// The state after the masked text was analyzed: the scan is over once
    /// it has made its passes, otherwise the new analysis drives the next.
    pub open spec fn masked_step(self, found: ScanResultView, analysis: AnalysisView) -> ScanView {
        if found.containing.len() >= self.max_passes {
            ScanView::Finished { result: found }
        } else {
            ScanView::Narrowing { found, driving: analysis.license }
        }
    }

    /// The state that follows `state` on `event`. An event that does not
    /// answer what the state asks for leaves the state as it is.
    pub open spec fn step(self, state: ScanView, event: ScanEventView) -> ScanView {
        match (state, event) {
            (ScanView::Querying, ScanEventView::Analyzed(analysis)) => self.first_step(analysis),
            (ScanView::Querying, ScanEventView::QueryFailed) => ScanView::Failed {
                error: ScanError::QueryFailed,
            },
            (
                ScanView::Narrowing { found, driving },
                ScanEventView::Narrowed { score, line_range },
            ) => self.narrowed_step(found, driving, score, line_range),
            (ScanView::Masking { found }, ScanEventView::Analyzed(analysis)) => self.masked_step(
                found,
                analysis,
            ),
            (ScanView::Masking { found }, ScanEventView::QueryFailed) => ScanView::Failed {
                error: ScanError::QueryFailed,
            },
            _ => state,
        }
    }

    /// Takes the first analysis of the document: reports its license if the
    /// score exceeds the confidence threshold, and either ends the scan or
    /// asks for the first narrowing.
    pub fn begin(&self, analysis: Analysis) -> (next: Scan)
        ensures
            next@ == self.first_step(analysis@),
    {
        let score = analysis.score;
        let confident = score.exceeds(&self.confidence_threshold);
        let conclusive = confident && score.exceeds(&self.shallow_limit);
        let license = if confident {
            Some(IdentifiedLicense { name: analysis.name.clone(), kind: analysis.kind })
        } else {
            None
        };
        let found = ScanResult { score, license, containing: Vec::new() };
        assert(found@.containing =~= Seq::empty());
        if !conclusive && self.optimize && self.max_passes > 0 {
            Scan::Narrowing {
                found,
                driving: IdentifiedLicense { name: analysis.name, kind: analysis.kind },
            }
        } else {
            Scan::Finished { result: found }
        }
    }

    /// Takes a narrowing of the working text: ends the scan if its score is
    /// below the confidence threshold, otherwise records it and asks for
    /// the lines to be masked.
    pub fn record(
        &self,
        found: ScanResult,
        driving: IdentifiedLicense,
        score: Score,
        line_range: (usize, usize),
    ) -> (next: Scan)
        ensures
            next@ == self.narrowed_step(found@, driving@, score, line_range),
    {
        if score.below(&self.confidence_threshold) {
            Scan::Finished { result: found }
        } else {
            let ghost before = found@;
            let mut found = found;
            let contained = ContainedResult { score, license: driving, line_range };
            found.containing.push(contained);
            assert(found@.containing =~= before.containing.push(contained@));
            Scan::Masking { found }
        }
    }

    /// Takes the analysis of the masked text: ends the scan if it has made
    /// its passes, otherwise asks for a narrowing to the license that the
    /// analysis names.
    pub fn resume(&self, found: ScanResult, analysis: Analysis) -> (next: Scan)
        ensures
            next@ == self.masked_step(found@, analysis@),
    {
        if found.containing.len() >= self.max_passes as usize {
            Scan::Finished { result: found }
        } else {
            Scan::Narrowing {
                found,
                driving: IdentifiedLicense { name: analysis.name, kind: analysis.kind },
            }
        }
    }

    /// Carries a scan one step forward: from the state it is in and the
    /// caller's answer to the state that follows.
    ///
    /// A scan begins as [`Scan::new`]. In each state [`Scan::action`] says
    /// what the caller does before the next call; an event that does not
    /// answer that request changes nothing.
    pub fn scan(&self, state: Scan, event: ScanEvent) -> (next: Scan)
        ensures
            next@ == self.step(state@, event@),
    {
        match state {
            Scan::Querying => match event {
                ScanEvent::Analyzed(analysis) => self.begin(analysis),
                ScanEvent::QueryFailed => Scan::Failed { error: ScanError::QueryFailed },
                ScanEvent::Narrowed { .. } => Scan::Querying,
            },
            Scan::Narrowing { found, driving } => match event {
                ScanEvent::Narrowed { score, line_range } => self.record(
                    found,
                    driving,
                    score,
                    line_range,
                ),
                _ => Scan::Narrowing { found, driving },
            },
            Scan::Masking { found } => match event {
                ScanEvent::Analyzed(analysis) => self.resume(found, analysis),
                ScanEvent::QueryFailed => Scan::Failed { error: ScanError::QueryFailed },
                ScanEvent::Narrowed { .. } => Scan::Masking { found },
            },
            Scan::Finished { result } => Scan::Finished { result },
            Scan::Failed { error } => Scan::Failed { error },
        }
    }
}

} // verus!
