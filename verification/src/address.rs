//! Slot addresses: where the record of a given title and owner lives.

use vstd::prelude::*;
use vstd::string::StringSliceAdditionalSpecFns;
use crate::pubkey::{id, Pubkey, PROGRAM_ID};

verus! {

/// The program-derived address for two seeds under a program, with its bump
/// seed, or `None` where the seeds admit none.
pub uninterp spec fn derived_address(first: Seq<u8>, second: Seq<u8>, program: Seq<u8>) -> Option<
    (Seq<u8>, u8),
>;

/// Calls `Pubkey::try_find_program_address` of `anchor_lang` (the `Address` of
/// `solana_address`) with the seeds `[seed, owner]` under `program`.
///
/// Not proved, but taken from that function: it returns on every input, and
/// what it returns depends on the bytes of the two seeds and of the program's
/// key alone. `derived_address` is the name of that result; nothing else is
/// claimed of it here. The keys go in and come out by their bytes.
#[verifier::external_body]
fn find_program_address(seed: &[u8], owner: &Pubkey, program: &Pubkey) -> (r: Option<(Pubkey, u8)>)
    ensures
        match r {
            Some((address, bump)) => derived_address(seed@, owner@, program@) == Some(
                (address@, bump),
            ),
            None => derived_address(seed@, owner@, program@) is None,
        },
{
    let program_id = anchor_lang::prelude::Pubkey::new_from_array(program.bytes);
    let seeds: [&[u8]; 2] = [seed, &owner.bytes];
    match anchor_lang::prelude::Pubkey::try_find_program_address(&seeds, &program_id) {
        Some((address, bump)) => Some((Pubkey { bytes: address.to_bytes() }, bump)),
        None => None,
    }
}

/// Where the item of `title` and `owner` lives: the address derived from the
/// title's bytes and the owner's key under this program, without the bump seed.
pub open spec fn slot_address(title: Seq<char>, owner: Seq<u8>) -> Option<Seq<u8>> {
    match derived_address(vstd::utf8::encode_utf8(title), owner, PROGRAM_ID@) {
        Some((address, _)) => Some(address),
        None => None,
    }
}

/// The address of the slot for the item of `title` and `owner`; `None` where
/// none can be derived.
pub fn todo_address(title: &str, owner: &Pubkey) -> (r: Option<Pubkey>)
    ensures
        match r {
            Some(address) => slot_address(title@, owner@) == Some(address@),
            None => slot_address(title@, owner@) is None,
        },
{
    let program = id();
    match find_program_address(title.as_bytes(), owner, &program) {
        Some((address, _)) => Some(address),
        None => None,
    }
}

} // verus!
