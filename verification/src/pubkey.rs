//! Public keys: 32 bytes that name an owner, a program or a storage slot.

use vstd::prelude::*;

verus! {

/// The bytes of the program that owns every todo slot; in base58 it reads
/// `2mWXq2NSvptkbkFNvmBstU6GuT461BYYbKrzK57mmmt2`.
pub const PROGRAM_ID: [u8; 32] = [
    26, 66, 162, 72, 123, 255, 181, 5, 32, 236, 81, 242, 69, 118, 147, 117,
    87, 4, 104, 181, 128, 168, 244, 102, 167, 88, 185, 222, 13, 79, 190, 31,
];

/// A 32-byte public key.
#[derive(Clone, Copy, Debug)]
pub struct Pubkey {
    pub bytes: [u8; 32],
}

impl View for Pubkey {
    type V = Seq<u8>;

    open spec fn view(&self) -> Seq<u8> {
        self.bytes@
    }
}

impl Pubkey {
    /// The key made of the given bytes.
    pub fn new_from_array(bytes: [u8; 32]) -> (key: Pubkey)
        ensures
            key.bytes == bytes,
            key@ == bytes@,
    {
        Pubkey { bytes }
    }

    /// The key's bytes.
    pub fn to_bytes(&self) -> (bytes: [u8; 32])
        ensures
            bytes == self.bytes,
            bytes@ == self@,
    {
        self.bytes
    }

    /// Whether two keys hold the same bytes.
    pub fn same(&self, other: &Pubkey) -> (r: bool)
        ensures
            r == (self@ == other@),
    {
        let mut i: usize = 0;
        while i < 32
            invariant
                i <= 32,
                forall|j: int| 0 <= j < i ==> self.bytes[j] == other.bytes[j],
            decreases 32 - i,
        {
            if self.bytes[i] != other.bytes[i] {
                return false;
            }
            i += 1;
        }
        assert(self@ =~= other@);
        true
    }
}

impl PartialEq for Pubkey {
    fn eq(&self, other: &Pubkey) -> (r: bool) {
        self.same(other)
    }
}

impl Eq for Pubkey {

}

impl vstd::std_specs::cmp::PartialEqSpecImpl for Pubkey {
    open spec fn obeys_eq_spec() -> bool {
        true
    }

    open spec fn eq_spec(&self, other: &Pubkey) -> bool {
        self@ == other@
    }
}

/// The program's own key.
pub fn id() -> (key: Pubkey)
    ensures
        key@ == PROGRAM_ID@,
{
    Pubkey { bytes: PROGRAM_ID }
}

} // verus!
