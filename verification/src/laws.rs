//! What holds of the handlers together, proved of every ledger and request.

use vstd::prelude::*;
use crate::accounts::{CreateTodoItem, DeleteTodoItem, Signer, UpdateTodoItem};
use crate::address::slot_address;
use crate::error::TodoError;
use crate::ledger::{LedgerView, SlotView};
use crate::program::{
    create_ledger, create_outcome, delete_ledger, delete_outcome, update_ledger, update_outcome,
};
use crate::state::{
    byte_len, TodoItemView, ANCHOR_DISCRIMINATOR_SIZE, MAX_DESCRIPTION_LEN, SLOT_SPACE,
};

verus! {

/// Every slot sits at the address derived from its record's title and owner.
pub open spec fn canonical(ledger: LedgerView) -> bool {
    forall|a: Seq<u8>| #[trigger]
        ledger.contains_key(a) ==> slot_address(ledger[a].data.title, ledger[a].data.owner)
            == Some(a)
}

/// A record that keeps to the length limits fits into a slot, behind the
/// discriminator.
pub proof fn lemma_record_fits_slot(record: TodoItemView)
    requires
        record.within_limits(),
    ensures
        ANCHOR_DISCRIMINATOR_SIZE + record.stored_size() <= SLOT_SPACE,
{
}

/// A refused request changes nothing, whichever handler refused it.
pub proof fn lemma_refusal_changes_nothing(
    ledger: LedgerView,
    owner: Signer,
    address: Option<Seq<u8>>,
    title: Seq<char>,
    description: Seq<char>,
    completed: bool,
)
    ensures
        create_outcome(ledger, CreateTodoItem { owner }, address, title, description) is Err
            ==> create_ledger(ledger, CreateTodoItem { owner }, address, title, description)
            == ledger,
        update_outcome(ledger, UpdateTodoItem { owner }, address, title, description) is Err
            ==> update_ledger(
            ledger,
            UpdateTodoItem { owner },
            address,
            title,
            description,
            completed,
        ) == ledger,
        delete_outcome(ledger, DeleteTodoItem { owner }, address, title) is Err ==> delete_ledger(
            ledger,
            DeleteTodoItem { owner },
            address,
            title,
        ) == ledger,
{
}

/// Once an item has been created, a second request to create one for the same
/// owner and title is refused, whatever its description; where that request is
/// signed and its description short enough, because the slot is taken.
pub proof fn lemma_second_create_refused(
    ledger: LedgerView,
    first: CreateTodoItem,
    second: CreateTodoItem,
    title: Seq<char>,
    description: Seq<char>,
    other_description: Seq<char>,
)
    requires
        first.owner.key@ == second.owner.key@,
        create_outcome(
            ledger,
            first,
            slot_address(title, first.owner.key@),
            title,
            description,
        ) is Ok,
    ensures
        ({
            let address = slot_address(title, first.owner.key@);
            let after = create_ledger(ledger, first, address, title, description);
            let again = create_outcome(after, second, address, title, other_description);
            &&& again is Err
            &&& create_ledger(after, second, address, title, other_description) == after
            &&& second.owner.is_signer && byte_len(other_description) <= MAX_DESCRIPTION_LEN
                ==> again == Err::<(), TodoError>(TodoError::AlreadyExists)
        }),
{
}

/// After an item has been created, its slot has the fixed size and holds the
/// owner, the title and the description of the request, not completed; every
/// other slot is as it was.
pub proof fn lemma_created_item_matches_request(
    ledger: LedgerView,
    ctx: CreateTodoItem,
    address: Option<Seq<u8>>,
    title: Seq<char>,
    description: Seq<char>,
)
    requires
        create_outcome(ledger, ctx, address, title, description) is Ok,
    ensures
        ({
            let after = create_ledger(ledger, ctx, address, title, description);
            &&& address is Some
            &&& !ledger.contains_key(address->0)
            &&& after.contains_key(address->0)
            &&& after[address->0] == (SlotView {
                space: SLOT_SPACE as nat,
                data: TodoItemView {
                    owner: ctx.owner.key@,
                    title,
                    description,
                    completed: false,
                },
            })
            &&& after[address->0].data.within_limits()
            &&& forall|b: Seq<u8>|
                b != address->0 ==> (after.contains_key(b) <==> ledger.contains_key(b))
            &&& forall|b: Seq<u8>| b != address->0 && ledger.contains_key(b) ==> after[b] == ledger[b]
        }),
{
}

/// An update signed by anyone but the stored owner is refused, and the ledger
/// stays as it was.
pub proof fn lemma_update_by_other_signer_refused(
    ledger: LedgerView,
    ctx: UpdateTodoItem,
    address: Seq<u8>,
    title: Seq<char>,
    description: Seq<char>,
    completed: bool,
)
    requires
        ledger.contains_key(address),
        ledger[address].data.owner != ctx.owner.key@,
    ensures
        update_outcome(ledger, ctx, Some(address), title, description) is Err,
        update_ledger(ledger, ctx, Some(address), title, description, completed) == ledger,
{
}

/// An update or a delete, signed by whom it may be and whatever address it
/// names, leaves every slot of another owner as it was.
pub proof fn lemma_other_owners_untouched(
    ledger: LedgerView,
    owner: Signer,
    address: Option<Seq<u8>>,
    title: Seq<char>,
    description: Seq<char>,
    completed: bool,
    other: Seq<u8>,
)
    requires
        ledger.contains_key(other),
        ledger[other].data.owner != owner.key@,
    ensures
        ({
            let updated = update_ledger(
                ledger,
                UpdateTodoItem { owner },
                address,
                title,
                description,
                completed,
            );
            let deleted = delete_ledger(ledger, DeleteTodoItem { owner }, address, title);
            &&& updated.contains_key(other) && updated[other] == ledger[other]
            &&& deleted.contains_key(other) && deleted[other] == ledger[other]
        }),
{
}

/// An update, accepted or not, keeps the set of slots and the owner and title
/// of each; where it is accepted, the slot it names gets the new description
/// and flag, and no other slot changes at all.
pub proof fn lemma_update_keeps_owner_and_title(
    ledger: LedgerView,
    ctx: UpdateTodoItem,
    address: Option<Seq<u8>>,
    title: Seq<char>,
    description: Seq<char>,
    completed: bool,
)
    ensures
        ({
            let after = update_ledger(ledger, ctx, address, title, description, completed);
            &&& after.dom() == ledger.dom()
            &&& forall|b: Seq<u8>| #[trigger]
                ledger.contains_key(b) ==> after[b].data.owner == ledger[b].data.owner
                    && after[b].data.title == ledger[b].data.title
            &&& forall|b: Seq<u8>| #[trigger]
                ledger.contains_key(b) && address != Some(b) ==> after[b] == ledger[b]
            &&& update_outcome(ledger, ctx, address, title, description) is Ok ==> {
                &&& after[address->0].data.description == description
                &&& after[address->0].data.completed == completed
                &&& after[address->0].space == SLOT_SPACE
                &&& ledger[address->0].data.owner == ctx.owner.key@
            }
        }),
{
    let after = update_ledger(ledger, ctx, address, title, description, completed);
    assert(after.dom() =~= ledger.dom());
}

/// A delete that is accepted removes the slot and nothing else; an update or
/// a second delete for the same owner and title is then refused.
pub proof fn lemma_deleted_item_is_gone(
    ledger: LedgerView,
    ctx: DeleteTodoItem,
    title: Seq<char>,
    update: UpdateTodoItem,
    description: Seq<char>,
    completed: bool,
    again: DeleteTodoItem,
)
    requires
        update.owner.key@ == ctx.owner.key@,
        again.owner.key@ == ctx.owner.key@,
        delete_outcome(ledger, ctx, slot_address(title, ctx.owner.key@), title) is Ok,
    ensures
        ({
            let address = slot_address(title, ctx.owner.key@);
            let after = delete_ledger(ledger, ctx, address, title);
            &&& address is Some
            &&& ledger.contains_key(address->0)
            &&& !after.contains_key(address->0)
            &&& forall|b: Seq<u8>|
                b != address->0 ==> (after.contains_key(b) <==> ledger.contains_key(b))
            &&& forall|b: Seq<u8>| b != address->0 && ledger.contains_key(b) ==> after[b] == ledger[b]
            &&& update_outcome(after, update, address, title, description) is Err
            &&& update_ledger(after, update, address, title, description, completed) == after
            &&& delete_outcome(after, again, address, title) is Err
            &&& delete_ledger(after, again, address, title) == after
            &&& update.owner.is_signer ==> update_outcome(
                after,
                update,
                address,
                title,
                description,
            ) == Err::<(), TodoError>(TodoError::NotFound)
            &&& again.owner.is_signer ==> delete_outcome(after, again, address, title) == Err::<
                (),
                TodoError,
            >(TodoError::NotFound)
        }),
{
}

/// Create, update, delete: where the item could be created, the owner's signed
/// update with a description that is short enough and the owner's signed delete
/// are both accepted, and the ledger is then what it was before the three.
pub proof fn lemma_round_trip(
    ledger: LedgerView,
    create: CreateTodoItem,
    update: UpdateTodoItem,
    delete: DeleteTodoItem,
    title: Seq<char>,
    description: Seq<char>,
    new_description: Seq<char>,
    completed: bool,
)
    requires
        update.owner.key@ == create.owner.key@,
        delete.owner.key@ == create.owner.key@,
        update.owner.is_signer,
        delete.owner.is_signer,
        byte_len(new_description) <= MAX_DESCRIPTION_LEN,
        create_outcome(
            ledger,
            create,
            slot_address(title, create.owner.key@),
            title,
            description,
        ) is Ok,
    ensures
        ({
            let address = slot_address(title, create.owner.key@);
            let created = create_ledger(ledger, create, address, title, description);
            let updated = update_ledger(
                created,
                update,
                address,
                title,
                new_description,
                completed,
            );
            let deleted = delete_ledger(updated, delete, address, title);
            &&& update_outcome(created, update, address, title, new_description) is Ok
            &&& delete_outcome(updated, delete, address, title) is Ok
            &&& deleted == ledger
        }),
{
    let address = slot_address(title, create.owner.key@);
    let created = create_ledger(ledger, create, address, title, description);
    let updated = update_ledger(created, update, address, title, new_description, completed);
    let deleted = delete_ledger(updated, delete, address, title);
    assert(deleted =~= ledger);
}

/// Where every slot sits at its derived address, it still does after any of
/// the three requests.
pub proof fn lemma_requests_keep_canonical(
    ledger: LedgerView,
    owner: Signer,
    title: Seq<char>,
    description: Seq<char>,
    completed: bool,
)
    requires
        canonical(ledger),
    ensures
        canonical(
            create_ledger(
                ledger,
                CreateTodoItem { owner },
                slot_address(title, owner.key@),
                title,
                description,
            ),
        ),
        canonical(
            update_ledger(
                ledger,
                UpdateTodoItem { owner },
                slot_address(title, owner.key@),
                title,
                description,
                completed,
            ),
        ),
        canonical(
            delete_ledger(ledger, DeleteTodoItem { owner }, slot_address(title, owner.key@), title),
        ),
{
    let address = slot_address(title, owner.key@);
    let created = create_ledger(ledger, CreateTodoItem { owner }, address, title, description);
    assert forall|a: Seq<u8>| #[trigger] created.contains_key(a) implies slot_address(
        created[a].data.title,
        created[a].data.owner,
    ) == Some(a) by {
        if Some(a) != address {
            assert(ledger.contains_key(a));
        }
    }
    let updated = update_ledger(
        ledger,
        UpdateTodoItem { owner },
        address,
        title,
        description,
        completed,
    );
    assert forall|a: Seq<u8>| #[trigger] updated.contains_key(a) implies slot_address(
        updated[a].data.title,
        updated[a].data.owner,
    ) == Some(a) by {
        assert(ledger.contains_key(a));
    }
    let deleted = delete_ledger(ledger, DeleteTodoItem { owner }, address, title);
    assert forall|a: Seq<u8>| #[trigger] deleted.contains_key(a) implies slot_address(
        deleted[a].data.title,
        deleted[a].data.owner,
    ) == Some(a) by {
        assert(ledger.contains_key(a));
    }
}

/// Where every slot sits at its derived address, there is at most one item for
/// an owner and a title.
pub proof fn lemma_one_item_per_owner_and_title(ledger: LedgerView, a: Seq<u8>, b: Seq<u8>)
    requires
        canonical(ledger),
        ledger.contains_key(a),
        ledger.contains_key(b),
        ledger[a].data.owner == ledger[b].data.owner,
        ledger[a].data.title == ledger[b].data.title,
    ensures
        a == b,
{
}

} // verus!
