//! The two ways a relayed request can fail.

use vstd::prelude::*;

verus! {

/// Why a relayed request failed: the upstream call did not complete, or its
/// body did not have the expected shape. The detail text is kept either way.
#[derive(Debug, PartialEq)]
pub enum RelayError {
    UpstreamUnreachable(String),
    DecodeFailed(String),
}

impl RelayError {
    /// The detail text of the failure.
    pub open spec fn detail_view(self) -> Seq<char> {
        match self {
            RelayError::UpstreamUnreachable(m) => m@,
            RelayError::DecodeFailed(m) => m@,
        }
    }

    /// Hands the detail text out, consuming the error.
    pub fn into_detail(self) -> (r: String)
        ensures
            r@ == self.detail_view(),
    {
        match self {
            RelayError::UpstreamUnreachable(m) => m,
            RelayError::DecodeFailed(m) => m,
        }
    }
}

} // verus!
