//! Error taxonomy of dataset preparation.
//!
//! Every failure of the preparation pipeline is terminal: there are no
//! retries. Numeric edge cases (zero variance, near-zero probability) are
//! handled by epsilon clipping inside the engines and are deliberately not
//! errors.

use vstd::prelude::*;

verus! {

/// Why a dataset could not be prepared.
#[derive(Clone, Copy, Debug, PartialEq, Eq, Structural)]
pub enum DataError {
    /// The input could not be read at all: file missing, malformed row,
    /// or an unparsable numeric field.
    Load,
    /// A required column is absent from a row.
    MissingColumn,
    /// A row does not have the expected number of features.
    Shape,
    /// A time series is too short for the requested window length.
    InsufficientData,
}

} // verus!
