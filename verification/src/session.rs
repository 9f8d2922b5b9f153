//! The states of a scan and what passes between a scan and its caller.

use crate::report::{IdentifiedLicense, IdentifiedLicenseView, LicenseType};
use crate::report::{ScanResult, ScanResultView};
use crate::score::Score;
use vstd::prelude::*;

verus! {

/// The best match that the registry holds for a text.
#[derive(Debug, PartialEq, Eq)]
pub struct Analysis {
    /// How well the text matches the license.
    pub score: Score,
    /// The identifier of the license.
    pub name: String,
    /// The kind of text that matched.
    pub kind: LicenseType,
}

/// An [`Analysis`] as a mathematical value.
pub ghost struct AnalysisView {
    pub score: Score,
    pub license: IdentifiedLicenseView,
}

impl View for Analysis {
    type V = AnalysisView;

    open spec fn view(&self) -> AnalysisView {
        AnalysisView {
            score: self.score,
            license: IdentifiedLicenseView { name: self.name@, kind: self.kind },
        }
    }
}

/// Why a scan ended without a result.
#[derive(Clone, Copy, Debug, PartialEq, Eq, Structural)]
pub enum ScanError {
    /// The registry could not answer a query.
    QueryFailed,
}

/// What the caller of a scan does next.
#[derive(Clone, Copy, Debug, PartialEq, Eq, Structural)]
pub enum ScanAction {
    /// Ask the registry for the best match of the whole document, which is
    /// the working text from now on, and answer with
    /// [`ScanEvent::Analyzed`] or [`ScanEvent::QueryFailed`].
    Analyze,
    /// Narrow the working text to the lines that match the license of the
    /// latest analysis best, and answer with [`ScanEvent::Narrowed`].
    Narrow,
    /// Blank the lines just reported out of the document, take the outcome
    /// as the working text, ask the registry for its best match, and answer
    /// with [`ScanEvent::Analyzed`] or [`ScanEvent::QueryFailed`].
    MaskAndAnalyze,
    /// Nothing: the scan is over.
    Stop,
}

/// What the caller of a scan reports back.
#[derive(Debug, PartialEq, Eq)]
pub enum ScanEvent {
    /// The registry answered a query.
    Analyzed(Analysis),
    /// The registry could not answer a query.
    QueryFailed,
    /// The working text was narrowed to `line_range`, which matches with
    /// `score`.
    Narrowed { score: Score, line_range: (usize, usize) },
}

/// A [`ScanEvent`] as a mathematical value.
pub ghost enum ScanEventView {
    Analyzed(AnalysisView),
    QueryFailed,
    Narrowed { score: Score, line_range: (usize, usize) },
}

impl View for ScanEvent {
    type V = ScanEventView;

    open spec fn view(&self) -> ScanEventView {
        match *self {
            ScanEvent::Analyzed(analysis) => ScanEventView::Analyzed(analysis@),
            ScanEvent::QueryFailed => ScanEventView::QueryFailed,
            ScanEvent::Narrowed { score, line_range } => ScanEventView::Narrowed {
                score,
                line_range,
            },
        }
    }
}

/// A scan of one document, as far as it has come.
#[derive(Debug, PartialEq, Eq)]
pub enum Scan {
    /// The whole document is to be analyzed.
    Querying,
    /// The working text is to be narrowed to the license `driving`, which
    /// the latest analysis named; `found` is what the scan has so far.
    Narrowing { found: ScanResult, driving: IdentifiedLicense },
    /// The lines last added to `found` are to be blanked out and the
    /// outcome analyzed.
    Masking { found: ScanResult },
    /// The scan is over.
    Finished { result: ScanResult },
    /// The scan is over, and has no result.
    Failed { error: ScanError },
}

/// A [`Scan`] as a mathematical value.
pub ghost enum ScanView {
    Querying,
    Narrowing { found: ScanResultView, driving: IdentifiedLicenseView },
    Masking { found: ScanResultView },
    Finished { result: ScanResultView },
    Failed { error: ScanError },
}

impl View for Scan {
    type V = ScanView;

    open spec fn view(&self) -> ScanView {
        match *self {
            Scan::Querying => ScanView::Querying,
            Scan::Narrowing { found, driving } => ScanView::Narrowing {
                found: found@,
                driving: driving@,
            },
            Scan::Masking { found } => ScanView::Masking { found: found@ },
            Scan::Finished { result } => ScanView::Finished { result: result@ },
            Scan::Failed { error } => ScanView::Failed { error },
        }
    }
}

impl ScanView {
    /// What the caller does next in this state.
    pub open spec fn action(self) -> ScanAction {
        match self {
            ScanView::Querying => ScanAction::Analyze,
            ScanView::Narrowing { .. } => ScanAction::Narrow,
            ScanView::Masking { .. } => ScanAction::MaskAndAnalyze,
            ScanView::Finished { .. } => ScanAction::Stop,
            ScanView::Failed { .. } => ScanAction::Stop,
        }
    }

    /// What the scan has found so far; nothing before the first analysis
    /// and after a failure.
    pub open spec fn so_far(self) -> Option<ScanResultView> {
        match self {
            ScanView::Narrowing { found, .. } => Some(found),
            ScanView::Masking { found } => Some(found),
            ScanView::Finished { result } => Some(result),
            _ => None,
        }
    }

    /// What the scan has come to: nothing while it runs, then its result or
    /// the reason why it has none.
    pub open spec fn outcome(self) -> Option<Result<ScanResultView, ScanError>> {
        match self {
            ScanView::Finished { result } => Some(Ok(result)),
            ScanView::Failed { error } => Some(Err(error)),
            _ => None,
        }
    }
}

/// The outcome of a scan, with the result by its view.
pub open spec fn outcome_view(outcome: Option<Result<ScanResult, ScanError>>) -> Option<
    Result<ScanResultView, ScanError>,
> {
    match outcome {
        Some(Ok(result)) => Some(Ok(result@)),
        Some(Err(error)) => Some(Err(error)),
        None => None,
    }
}

impl Scan {
    /// A scan that has not begun.
    pub fn new() -> (scan: Scan)
        ensures
            scan@ == ScanView::Querying,
    {
        Scan::Querying
    }

    /// What the caller does next.
    pub fn action(&self) -> (action: ScanAction)
        ensures
            action == self@.action(),
    {
        match self {
            Scan::Querying => ScanAction::Analyze,
            Scan::Narrowing { .. } => ScanAction::Narrow,
            Scan::Masking { .. } => ScanAction::MaskAndAnalyze,
            Scan::Finished { .. } => ScanAction::Stop,
            Scan::Failed { .. } => ScanAction::Stop,
        }
    }

    /// Ends the scan: its result, the reason why it has none, or `None`
    /// while the scan still waits for an answer.
    pub fn into_outcome(self) -> (outcome: Option<Result<ScanResult, ScanError>>)
        ensures
            outcome_view(outcome) == self@.outcome(),
    {
        match self {
            Scan::Finished { result } => Some(Ok(result)),
            Scan::Failed { error } => Some(Err(error)),
            _ => None,
        }
    }
}

} // verus!
