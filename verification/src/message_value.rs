//! The payload of an invocation and the capability to derive an argument from it.

use vstd::prelude::*;
use crate::error::ExtractionError;

verus! {

/// `serde_json::Value`, the payload of an invocation.  The library hands a
/// payload on to the argument types and never looks inside, so nothing is
/// stated of what a value holds.
#[verifier::external_type_specification]
#[verifier::external_body]
pub struct ExValue(serde_json::Value);

/// A type that can be derived from a payload, and so can be an argument of a
/// handler.
///
/// An implementation locates its own data in the payload (by convention a field
/// named after the argument's role) and decodes it.  It must not change anything
/// but its result, and it reports a payload that it cannot decode as an
/// [`ExtractionError`] instead of panicking.
pub trait MessageValueTrait: Sized {
    /// Derives a value of this type from `value`.
    fn get_value(value: &serde_json::Value) -> Result<Self, ExtractionError>;
}

/// `outcome` is what a call of `A::get_value` on `value` returned, or could
/// return.  Nothing more is known of it: the implementation belongs to the
/// argument type.
pub open spec fn extracts<A: MessageValueTrait>(
    value: serde_json::Value,
    outcome: Result<A, ExtractionError>,
) -> bool {
    call_ensures(A::get_value, (&value,), outcome)
}

} // verus!
