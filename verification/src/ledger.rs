//! The ledger: every storage slot that the program owns, by address.

use vstd::prelude::*;
use crate::error::TodoError;
use crate::pubkey::Pubkey;
use crate::state::{byte_len, TodoItemState, TodoItemView, MAX_DESCRIPTION_LEN};

verus! {

/// One storage slot: where it is, how many bytes it has, and the record in it.
#[derive(Debug)]
pub struct Slot {
    pub address: Pubkey,
    pub space: usize,
    pub data: TodoItemState,
}

/// What a slot holds, without its address.
pub struct SlotView {
    pub space: nat,
    pub data: TodoItemView,
}

impl View for Slot {
    type V = SlotView;

    open spec fn view(&self) -> SlotView {
        SlotView { space: self.space as nat, data: self.data@ }
    }
}

/// The slots of the program. No two of them share an address, and every record
/// in them keeps to the length limits.
#[derive(Debug)]
pub struct Ledger {
    slots: Vec<Slot>,
}

/// The ledger as a map from address to slot.
pub type LedgerView = Map<Seq<u8>, SlotView>;

impl Ledger {
    /// The invariant of the representation.
    pub closed spec fn wf(&self) -> bool {
        &&& forall|i: int, j: int|
            0 <= i < j < self.slots.len() ==> self.slots[i].address@ != self.slots[j].address@
        &&& forall|i: int|
            0 <= i < self.slots.len() ==> (#[trigger] self.slots[i]).data@.within_limits()
    }

    spec fn holds(&self, address: Seq<u8>) -> bool {
        exists|i: int| 0 <= i < self.slots.len() && (#[trigger] self.slots[i]).address@ == address
    }

    spec fn index_of(&self, address: Seq<u8>) -> int {
        choose|i: int| 0 <= i < self.slots.len() && (#[trigger] self.slots[i]).address@ == address
    }

    /// The slots by address.
    pub closed spec fn view(&self) -> LedgerView {
        Map::new(|a: Seq<u8>| self.holds(a), |a: Seq<u8>| self.slots[self.index_of(a)]@)
    }

    /// The slot at an index is the one the map has under its address.
    proof fn lemma_slot_in_view(&self, i: int)
        requires
            self.wf(),
            0 <= i < self.slots.len(),
        ensures
            self@.contains_key(self.slots[i].address@),
            self@[self.slots[i].address@] == self.slots[i]@,
            self.index_of(self.slots[i].address@) == i,
    {
        let a = self.slots[i].address@;
        assert(self.holds(a));
        let k = self.index_of(a);
        assert(0 <= k < self.slots.len() && self.slots[k].address@ == a);
        if k != i {
            if k < i {
                assert(self.slots[k].address@ != self.slots[i].address@);
            } else {
                assert(self.slots[i].address@ != self.slots[k].address@);
            }
        }
    }

    /// Every record in a well-formed ledger keeps to the length limits.
    pub proof fn lemma_records_within_limits(&self)
        requires
            self.wf(),
        ensures
            forall|a: Seq<u8>| #[trigger]
                self@.contains_key(a) ==> self@[a].data.within_limits(),
    {
        assert forall|a: Seq<u8>| #[trigger]
            self@.contains_key(a) implies self@[a].data.within_limits() by {
            let k = self.index_of(a);
            assert(self.slots[k].data@.within_limits());
        }
    }

    /// The map has one key for each slot, and no more.
    proof fn lemma_view_finite(&self)
        requires
            self.wf(),
        ensures
            self@.dom().finite(),
            self@.dom().len() == self.slots.len(),
    {
        let n = self.slots.len() as int;
        Self::lemma_prefix_keys(self.slots@, n);
        assert(self@.dom() =~= Self::prefix_keys(self.slots@, n)) by {
            assert forall|a: Seq<u8>| self@.dom().contains(a) implies Self::prefix_keys(
                self.slots@,
                n,
            ).contains(a) by {
                let k = self.index_of(a);
                Self::lemma_prefix_keys_contains(self.slots@, n, k);
            }
            assert forall|a: Seq<u8>| Self::prefix_keys(self.slots@, n).contains(
                a,
            ) implies self@.dom().contains(a) by {
                Self::lemma_prefix_keys_only(self.slots@, n, a);
            }
        }
    }

    spec fn prefix_keys(slots: Seq<Slot>, n: int) -> Set<Seq<u8>>
        decreases n,
    {
        if n <= 0 {
            Set::empty()
        } else {
            Self::prefix_keys(slots, n - 1).insert(slots[n - 1].address@)
        }
    }

    proof fn lemma_prefix_keys_contains(slots: Seq<Slot>, n: int, k: int)
        requires
            0 <= k < n <= slots.len(),
        ensures
            Self::prefix_keys(slots, n).contains(slots[k].address@),
        decreases n,
    {
        if k < n - 1 {
            Self::lemma_prefix_keys_contains(slots, n - 1, k);
        }
    }

    proof fn lemma_prefix_keys_only(slots: Seq<Slot>, n: int, a: Seq<u8>)
        requires
            0 <= n <= slots.len(),
            Self::prefix_keys(slots, n).contains(a),
        ensures
            exists|i: int| 0 <= i < n && (#[trigger] slots[i]).address@ == a,
        decreases n,
    {
        if n > 0 {
            if slots[n - 1].address@ == a {
            } else {
                Self::lemma_prefix_keys_only(slots, n - 1, a);
            }
        }
    }

    proof fn lemma_prefix_keys(slots: Seq<Slot>, n: int)
        requires
            0 <= n <= slots.len(),
            forall|i: int, j: int| 0 <= i < j < slots.len() ==> slots[i].address@ != slots[j].address@,
        ensures
            Self::prefix_keys(slots, n).finite(),
            Self::prefix_keys(slots, n).len() == n,
        decreases n,
    {
        if n > 0 {
            Self::lemma_prefix_keys(slots, n - 1);
            if Self::prefix_keys(slots, n - 1).contains(slots[n - 1].address@) {
                Self::lemma_prefix_keys_only(slots, n - 1, slots[n - 1].address@);
            }
        }
    }

    /// A ledger without slots.
    pub fn new() -> (ledger: Ledger)
        ensures
            ledger.wf(),
            ledger@ == Map::<Seq<u8>, SlotView>::empty(),
    {
        let ledger = Ledger { slots: Vec::new() };
        assert(ledger@ =~= Map::<Seq<u8>, SlotView>::empty());
        ledger
    }

    /// How many slots there are.
    pub fn len(&self) -> (n: usize)
        requires
            self.wf(),
        ensures
            n == self@.dom().len(),
            self@.dom().finite(),
    {
        proof {
            self.lemma_view_finite();
        }
        self.slots.len()
    }

    /// Whether there is no slot at all.
    pub fn is_empty(&self) -> (r: bool)
        requires
            self.wf(),
        ensures
            r == (self@ == Map::<Seq<u8>, SlotView>::empty()),
    {
        let r = self.slots.len() == 0;
        proof {
            if r {
                assert(self@ =~= Map::<Seq<u8>, SlotView>::empty());
            } else {
                self.lemma_slot_in_view(0);
            }
        }
        r
    }

    /// Where in the list the slot of this address is.
    fn position(&self, address: &Pubkey) -> (r: Option<usize>)
        requires
            self.wf(),
        ensures
            match r {
                Some(i) => i < self.slots.len() && self.slots[i as int].address@ == address@
                    && self@.contains_key(address@) && self@[address@] == self.slots[i as int]@,
                None => !self@.contains_key(address@),
            },
    {
        let mut i: usize = 0;
        while i < self.slots.len()
            invariant
                self.wf(),
                i <= self.slots.len(),
                forall|j: int| 0 <= j < i ==> self.slots[j].address@ != address@,
            decreases self.slots.len() - i,
        {
            if self.slots[i].address.same(address) {
                proof {
                    self.lemma_slot_in_view(i as int);
                }
                return Some(i);
            }
            i += 1;
        }
        None
    }

    /// The slot at an address, if there is one.
    pub fn get(&self, address: &Pubkey) -> (r: Option<&Slot>)
        requires
            self.wf(),
        ensures
            match r {
                Some(slot) => self@.contains_key(address@) && self@[address@] == slot@
                    && slot.address@ == address@,
                None => !self@.contains_key(address@),
            },
    {
        match self.position(address) {
            Some(i) => Some(&self.slots[i]),
            None => None,
        }
    }

    /// Whether there is a slot at an address.
    pub fn contains(&self, address: &Pubkey) -> (r: bool)
        requires
            self.wf(),
        ensures
            r == self@.contains_key(address@),
    {
        self.position(address).is_some()
    }

    /// Adds a slot at an address that is still free.
    pub(crate) fn allocate(&mut self, slot: Slot)
        requires
            old(self).wf(),
            !old(self)@.contains_key(slot.address@),
            slot.data@.within_limits(),
        ensures
            final(self).wf(),
            final(self)@ == old(self)@.insert(slot.address@, slot@),
    {
        let ghost n = self.slots.len() as int;
        proof {
            assert forall|i: int| 0 <= i < n implies (#[trigger] self.slots[i]).address@
                != slot.address@ by {
                if self.slots[i].address@ == slot.address@ {
                    assert(self.holds(slot.address@));
                }
            }
        }
        self.slots.push(slot);
        proof {
            assert(self.wf());
            let after = old(self)@.insert(slot.address@, slot@);
            assert forall|a: Seq<u8>| self@.contains_key(a) <==> after.contains_key(a) by {
                if self@.contains_key(a) {
                    let k = self.index_of(a);
                    if k < n {
                        assert(old(self).slots[k].address@ == a);
                        assert(old(self).holds(a));
                    }
                }
                if after.contains_key(a) {
                    if a == slot.address@ {
                        assert(self.slots[n].address@ == a);
                    } else {
                        let k = old(self).index_of(a);
                        assert(self.slots[k].address@ == a);
                    }
                    assert(self.holds(a));
                }
            }
            assert forall|a: Seq<u8>| self@.contains_key(a) implies self@[a] == after[a] by {
                let k = self.index_of(a);
                self.lemma_slot_in_view(k);
                if k < n {
                    old(self).lemma_slot_in_view(k);
                }
            }
            assert(self@ =~= after);
        }
    }

    /// Takes the slot at an address away.
    pub(crate) fn close(&mut self, address: &Pubkey)
        requires
            old(self).wf(),
            old(self)@.contains_key(address@),
        ensures
            final(self).wf(),
            final(self)@ == old(self)@.remove(address@),
    {
        let found = self.position(address);
        let i = found.unwrap();
        let ghost n = self.slots.len() as int;
        self.slots.remove(i);
        proof {
            let shifted = |k: int| if k < i { k } else { k + 1 };
            assert forall|k: int| 0 <= k < n - 1 implies #[trigger] self.slots[k] == old(
                self,
            ).slots[shifted(k)] by {}
            assert(self.wf()) by {
                assert forall|k: int, l: int| 0 <= k < l < self.slots.len() implies self.slots[k].address@
                    != self.slots[l].address@ by {
                    assert(self.slots[k] == old(self).slots[shifted(k)]);
                    assert(self.slots[l] == old(self).slots[shifted(l)]);
                }
            }
            let after = old(self)@.remove(address@);
            assert forall|a: Seq<u8>| self@.contains_key(a) <==> after.contains_key(a) by {
                if self@.contains_key(a) {
                    let k = self.index_of(a);
                    assert(old(self).slots[shifted(k)].address@ == a);
                    assert(old(self).holds(a));
                    old(self).lemma_slot_in_view(shifted(k));
                    old(self).lemma_slot_in_view(i as int);
                }
                if after.contains_key(a) {
                    let k = old(self).index_of(a);
                    assert(k != i);
                    let m = if k < i { k } else { k - 1 };
                    assert(self.slots[m] == old(self).slots[shifted(m)]);
                    assert(self.slots[m].address@ == a);
                    assert(self.holds(a));
                }
            }
            assert forall|a: Seq<u8>| self@.contains_key(a) implies self@[a] == after[a] by {
                let k = self.index_of(a);
                self.lemma_slot_in_view(k);
                old(self).lemma_slot_in_view(shifted(k));
            }
            assert(self@ =~= after);
        }
    }

    /// Overwrites description and flag of the record at an address, and gives
    /// the slot the size `space`. Refused, with nothing changed, where the
    /// description is too long.
    pub(crate) fn store(
        &mut self,
        address: &Pubkey,
        space: usize,
        description: String,
        completed: bool,
    ) -> (r: Result<(), TodoError>)
        requires
            old(self).wf(),
            old(self)@.contains_key(address@),
        ensures
            final(self).wf(),
            byte_len(description@) <= MAX_DESCRIPTION_LEN ==> r == Ok::<(), TodoError>(())
                && final(self)@ == old(self)@.insert(
                address@,
                SlotView {
                    space: space as nat,
                    data: old(self)@[address@].data.updated(description@, completed),
                },
            ),
            byte_len(description@) > MAX_DESCRIPTION_LEN ==> r == Err::<(), TodoError>(
                TodoError::DescriptionTooLong,
            ) && final(self)@ == old(self)@,
    {
        let found = self.position(address);
        let i = found.unwrap();
        let slot = &mut self.slots[i];
        let r = slot.data.update(description, completed);
        if r.is_ok() {
            slot.space = space;
        }
        proof {
            let n = self.slots.len() as int;
            assert forall|k: int| 0 <= k < n implies (#[trigger] self.slots[k]).address@ == old(
                self,
            ).slots[k].address@ by {}
            assert(self.wf());
            let after = if r.is_ok() {
                old(self)@.insert(
                    address@,
                    SlotView {
                        space: space as nat,
                        data: old(self)@[address@].data.updated(description@, completed),
                    },
                )
            } else {
                old(self)@
            };
            assert forall|a: Seq<u8>| self@.contains_key(a) <==> after.contains_key(a) by {
                if self@.contains_key(a) {
                    let k = self.index_of(a);
                    assert(old(self).slots[k].address@ == a);
                    assert(old(self).holds(a));
                }
                if after.contains_key(a) {
                    let k = old(self).index_of(a);
                    assert(self.slots[k].address@ == a);
                    assert(self.holds(a));
                }
            }
            assert forall|a: Seq<u8>| self@.contains_key(a) implies self@[a] == after[a] by {
                let k = self.index_of(a);
                self.lemma_slot_in_view(k);
                old(self).lemma_slot_in_view(k);
                old(self).lemma_slot_in_view(i as int);
            }
            assert(self@ =~= after);
        }
        r
    }
}

} // verus!
