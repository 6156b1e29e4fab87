//! Who asks: the accounts that come with each request.

use vstd::prelude::*;
use crate::pubkey::Pubkey;

verus! {

/// An account that may have signed the request.
#[derive(Clone, Copy, Debug)]
pub struct Signer {
    /// The account's public key.
    pub key: Pubkey,
    /// Whether a valid signature of this key came with the request.
    pub is_signer: bool,
}

/// The accounts of a request to create a todo item.
#[derive(Clone, Copy, Debug)]
pub struct CreateTodoItem {
    /// Who will own the item, and pays for its slot.
    pub owner: Signer,
}

/// The accounts of a request to update a todo item.
#[derive(Clone, Copy, Debug)]
pub struct UpdateTodoItem {
    /// Who claims to own the item.
    pub owner: Signer,
}

/// The accounts of a request to delete a todo item.
#[derive(Clone, Copy, Debug)]
pub struct DeleteTodoItem {
    /// Who claims to own the item, and gets the slot's deposit back.
    pub owner: Signer,
}

} // verus!
