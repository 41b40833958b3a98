//! The failure value shared by the categorical normalizers: an input token
//! that matches no recognized synonym, carried verbatim for diagnostics.
use vstd::prelude::*;

verus! {

/// A free-form categorical token that no normalizer table recognizes.
/// Carries the offending raw string; the caller decides whether the
/// condition is fatal or falls back to a default variant.
#[derive(Debug, Clone, PartialEq, Eq, Hash)]
pub struct UnrecognizedTokenError {
    pub token: String,
}

} // verus!
