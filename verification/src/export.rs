//! Export of fetched records as CSV, for callers that implement it.

use vstd::prelude::*;

verus! {

/// Why a CSV export failed. No cause is distinguished yet; the type
/// reserves a place in the signature for implementors.
#[derive(Debug, Clone, Copy, PartialEq, Eq, Structural)]
pub struct CsvExportError;

/// A record set that can be written out as CSV text.
pub trait CsvExport {
    fn export_csv(&self) -> Result<String, CsvExportError>;
}

} // verus!
