//! The errors of this library.

use vstd::prelude::*;

verus! {

/// Why a rendering could not be turned into text.
#[derive(Debug)]
pub enum MetricsError {
    /// The encoded exposition is not valid UTF-8.
    NotUtf8,
}

} // verus!
