//! Shared pieces of the row-to-model converters: the per-table tolerance
//! policy for malformed location identifiers, the tagged per-row conversion
//! failure, and the uniform handling of a raw location string.
use vstd::prelude::*;
use crate::world_instance::{
    spec_parse, WorldInstance, WorldInstanceParseError, WorldInstanceView,
};

verus! {

/// How a converter treats a location string that does not parse: a fatal
/// failure of the whole row, or an absent world instance. The two log
/// tables historically tolerate malformed identifiers differently; the
/// policy is an explicit flag so that the asymmetry stays visible and
/// testable rather than hard-coded.
#[derive(Debug, Clone, Copy, PartialEq, Eq, Hash, Structural)]
pub enum MalformedLocationPolicy {
    Fatal,
    Absent,
}

/// Why a single row failed to convert: the field at fault together with the
/// row's own identifier, so a batch can report per-row failures and keep
/// going.
#[derive(Debug, Clone, PartialEq, Eq, Hash)]
pub enum ConversionError {
    UnrecognizedEvent { row_id: i64, token: String },
    MalformedLocation { row_id: i64, cause: WorldInstanceParseError },
    UnrecognizedTrust { user_id: String, token: String },
}

/// The mathematical value of a conversion failure.
pub ghost enum ConversionErrorView {
    UnrecognizedEvent { row_id: i64, token: Seq<char> },
    MalformedLocation { row_id: i64, cause: WorldInstanceParseError },
    UnrecognizedTrust { user_id: Seq<char>, token: Seq<char> },
}

impl View for ConversionError {
    type V = ConversionErrorView;

    open spec fn view(&self) -> ConversionErrorView {
        match self {
            ConversionError::UnrecognizedEvent { row_id, token } => {
                ConversionErrorView::UnrecognizedEvent { row_id: *row_id, token: token@ }
            },
            ConversionError::MalformedLocation { row_id, cause } => {
                ConversionErrorView::MalformedLocation { row_id: *row_id, cause: *cause }
            },
            ConversionError::UnrecognizedTrust { user_id, token } => {
                ConversionErrorView::UnrecognizedTrust { user_id: user_id@, token: token@ }
            },
        }
    }
}

/// An optional descriptor under the descriptor's view.
pub open spec fn opt_instance_view(o: Option<WorldInstance>) -> Option<WorldInstanceView> {
    match o {
        Some(w) => Some(w@),
        None => None,
    }
}

/// The uniform location-field rule: an empty string is the absence sentinel;
/// a non-empty string must parse, and a parse failure is fatal or downgraded
/// to absence according to the policy.
pub open spec fn spec_location_field(loc: Seq<char>, policy: MalformedLocationPolicy) -> Result<
    Option<WorldInstanceView>,
    WorldInstanceParseError,
> {
    if loc.len() == 0 {
        Ok(None)
    } else {
        match spec_parse(loc) {
            Ok(v) => Ok(Some(v)),
            Err(e) => if policy is Fatal {
                Err(e)
            } else {
                Ok(None)
            },
        }
    }
}

/// Parse a raw location field under the given tolerance policy.
pub fn location_field(loc: &str, policy: MalformedLocationPolicy) -> (r: Result<
    Option<WorldInstance>,
    WorldInstanceParseError,
>)
    ensures
        match r {
            Ok(o) => spec_location_field(loc@, policy) == Result::<
                Option<WorldInstanceView>,
                WorldInstanceParseError,
            >::Ok(opt_instance_view(o)),
            Err(e) => spec_location_field(loc@, policy) == Result::<
                Option<WorldInstanceView>,
                WorldInstanceParseError,
            >::Err(e),
        },
        match r {
            Ok(Some(w)) => w@.wf(),
            _ => true,
        },
{
    if loc.is_empty() {
        return Ok(None);
    }
    match WorldInstance::from_str(loc) {
        Ok(w) => Ok(Some(w)),
        Err(e) => match policy {
            MalformedLocationPolicy::Fatal => Err(e),
            MalformedLocationPolicy::Absent => Ok(None),
        },
    }
}

} // verus!
