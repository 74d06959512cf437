//! Error conditions reported by the value-typing and encoding core.

use vstd::prelude::*;

verus! {

/// Protocol-level error conditions surfaced by conversion and encoding.
#[derive(Debug, Clone, Copy, PartialEq, Eq, Structural)]
pub enum ErrorCondition {
    /// A checked cast could not represent the source value in the target
    /// kind, or the source/target kind pair is categorically incompatible.
    NoConvert,
    /// The requested richness category is unimplemented for the given basic
    /// type.
    BadType,
    /// The requested basic type is unavailable as an encoding target.
    UnavailInServ,
    /// A value could not be fetched from its backend.
    GetFail,
    /// A value could not be written to its backend.
    PutFail,
    /// The client has no write access to the process variable.
    NoWtAccess,
}

} // verus!
