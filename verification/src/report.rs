//! What a scan reports.

use crate::score::Score;
use vstd::prelude::*;

verus! {

/// The kind of text that a registry holds a license under.
#[derive(Clone, Copy, Debug, PartialEq, Eq, Structural)]
pub enum LicenseType {
    /// The short notice that stands at the head of a source file.
    Header,
    /// The full text of the license.
    Text,
    /// Another wording of the full text.
    Alternate,
}

/// A license that was identified, and the kind of text that matched.
#[derive(Debug, PartialEq, Eq)]
pub struct IdentifiedLicense {
    /// The identifier of the license.
    pub name: String,
    /// The kind of text that was matched.
    pub kind: LicenseType,
}

/// An [`IdentifiedLicense`] as a mathematical value.
pub ghost struct IdentifiedLicenseView {
    pub name: Seq<char>,
    pub kind: LicenseType,
}

impl View for IdentifiedLicense {
    type V = IdentifiedLicenseView;

    open spec fn view(&self) -> IdentifiedLicenseView {
        IdentifiedLicenseView { name: self.name@, kind: self.kind }
    }
}

/// One license found within a larger text.
#[derive(Debug, PartialEq, Eq)]
pub struct ContainedResult {
    /// The score of the match within the line range.
    pub score: Score,
    /// The license identified in this part of the text.
    pub license: IdentifiedLicense,
    /// The lines of the document in which it was found: counted from 0, the
    /// first included, the second not.
    pub line_range: (usize, usize),
}

/// A [`ContainedResult`] as a mathematical value.
pub ghost struct ContainedResultView {
    pub score: Score,
    pub license: IdentifiedLicenseView,
    pub line_range: (usize, usize),
}

impl View for ContainedResult {
    type V = ContainedResultView;

    open spec fn view(&self) -> ContainedResultView {
        ContainedResultView {
            score: self.score,
            license: self.license@,
            line_range: self.line_range,
        }
    }
}

impl ContainedResultView {
    /// Whether the line range is not empty and lies within a document of
    /// `total_lines` lines.
    pub open spec fn within(self, total_lines: int) -> bool {
        0 <= self.line_range.0 < self.line_range.1 <= total_lines
    }
}

/// What a scan found out about a document.
#[derive(Debug, PartialEq, Eq)]
pub struct ScanResult {
    /// The score of the best match for the whole document.
    pub score: Score,
    /// The license of the whole document, or `None` if the best match did
    /// not exceed the confidence threshold.
    pub license: Option<IdentifiedLicense>,
    /// The licenses found inside the document, in the order in which they
    /// were found.
    pub containing: Vec<ContainedResult>,
}

/// A [`ScanResult`] as a mathematical value.
pub ghost struct ScanResultView {
    pub score: Score,
    pub license: Option<IdentifiedLicenseView>,
    pub containing: Seq<ContainedResultView>,
}

impl View for ScanResult {
    type V = ScanResultView;

    open spec fn view(&self) -> ScanResultView {
        ScanResultView {
            score: self.score,
            license: match self.license {
                Some(license) => Some(license@),
                None => None,
            },
            containing: self.containing@.map_values(|found: ContainedResult| found@),
        }
    }
}

} // verus!
