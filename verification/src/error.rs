//! Failure taxonomy of the library.
//!
//! An empty reconciliation diff is an expected, recoverable condition and is
//! reported as [`HasuraUtilsError::Other`] with a fixed message rather than
//! as a silent no-op; decoding failures and transport failures from the
//! collaborators are carried as their messages, surfaced unchanged.

use vstd::prelude::*;

verus! {

/// What a run of the pipeline can fail with: an expected condition carried
/// as a static message, a response-decoding failure, or a transport failure.
pub enum HasuraUtilsError {
    Other(&'static str),
    Parse(String),
    Request(String),
}

/// A plain static-message error, convertible into [`HasuraUtilsError`].
pub struct OtherError(pub &'static str);

impl From<OtherError> for HasuraUtilsError {
    fn from(err: OtherError) -> (r: Self) {
        HasuraUtilsError::Other(err.0)
    }
}

impl vstd::std_specs::convert::FromSpecImpl<OtherError> for HasuraUtilsError {
    open spec fn obeys_from_spec() -> bool {
        true
    }

    open spec fn from_spec(err: OtherError) -> Self {
        HasuraUtilsError::Other(err.0)
    }
}

} // verus!
