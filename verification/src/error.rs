//! Why a handler refuses a request.

use vstd::prelude::*;

verus! {

/// The reasons for which a request is refused. A refused request changes nothing.
#[derive(Clone, Copy, Debug, PartialEq, Eq, Structural)]
pub enum TodoError {
    /// The owner did not sign the request.
    MissingSignature,
    /// The title is longer than 32 bytes.
    TitleTooLong,
    /// The description is longer than 256 bytes.
    DescriptionTooLong,
    /// No slot address can be derived from the title and the owner.
    AddressUnavailable,
    /// The slot for this title and owner is already taken.
    AlreadyExists,
    /// There is no slot for this title and owner.
    NotFound,
    /// The signer is not the owner stored in the slot.
    Unauthorized,
}

} // verus!
