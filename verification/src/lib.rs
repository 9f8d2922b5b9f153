//! Finding known license texts inside a document.
//!
//! The crate holds the decisions of a license scan: when an overall match is
//! reported, when the search for embedded licenses runs, what it records and
//! when it stops. The similarity engine that scores texts against a registry
//! of licenses is not part of it. A scan is therefore a conversation: the
//! library says what it needs next ([`ScanAction`]), the caller asks its
//! engine and hands the answer back ([`ScanEvent`]), until the scan has
//! finished or failed.
//!
//! Scores are single-precision numbers, held as their IEEE-754 bit patterns
//! ([`Score`]) and compared as such numbers are.

pub mod laws;
pub mod report;
pub mod score;
pub mod session;
pub mod strategy;

pub use report::{ContainedResult, ContainedResultView, IdentifiedLicense, IdentifiedLicenseView};
pub use report::{LicenseType, ScanResult, ScanResultView};
pub use score::Score;
pub use session::{Analysis, AnalysisView, Scan, ScanAction, ScanError, ScanEvent};
pub use session::{ScanEventView, ScanView};
pub use strategy::ScanStrategy;
