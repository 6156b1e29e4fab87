//! The three handlers, and what each of them does to the ledger.

use vstd::prelude::*;
use crate::accounts::{CreateTodoItem, DeleteTodoItem, UpdateTodoItem};
use crate::address::{slot_address, todo_address};
use crate::error::TodoError;
use crate::ledger::{Ledger, LedgerView, Slot, SlotView};
use crate::pubkey::Pubkey;
use crate::state::{
    byte_len, fits, TodoItemState, TodoItemView, MAX_DESCRIPTION_LEN, MAX_TITLE_LEN, SLOT_SPACE,
};

verus! {

/// An address that may be missing, as plain bytes.
pub open spec fn address_view(address: Option<Pubkey>) -> Option<Seq<u8>> {
    match address {
        Some(a) => Some(a@),
        None => None,
    }
}

/// How a request to create an item at `address` ends.
pub open spec fn create_outcome(
    ledger: LedgerView,
    ctx: CreateTodoItem,
    address: Option<Seq<u8>>,
    title: Seq<char>,
    description: Seq<char>,
) -> Result<(), TodoError> {
    if !ctx.owner.is_signer {
        Err(TodoError::MissingSignature)
    } else if byte_len(title) > MAX_TITLE_LEN {
        Err(TodoError::TitleTooLong)
    } else if byte_len(description) > MAX_DESCRIPTION_LEN {
        Err(TodoError::DescriptionTooLong)
    } else {
        match address {
            None => Err(TodoError::AddressUnavailable),
            Some(a) => if ledger.contains_key(a) {
                Err(TodoError::AlreadyExists)
            } else {
                Ok(())
            },
        }
    }
}

/// The ledger after a request to create an item at `address`.
pub open spec fn create_ledger(
    ledger: LedgerView,
    ctx: CreateTodoItem,
    address: Option<Seq<u8>>,
    title: Seq<char>,
    description: Seq<char>,
) -> LedgerView {
    if create_outcome(ledger, ctx, address, title, description) is Ok {
        ledger.insert(
            address->0,
            SlotView {
                space: SLOT_SPACE as nat,
                data: TodoItemView { owner: ctx.owner.key@, title, description, completed: false },
            },
        )
    } else {
        ledger
    }
}

/// How a request to update the item at `address` ends.
pub open spec fn update_outcome(
    ledger: LedgerView,
    ctx: UpdateTodoItem,
    address: Option<Seq<u8>>,
    title: Seq<char>,
    description: Seq<char>,
) -> Result<(), TodoError> {
    if !ctx.owner.is_signer {
        Err(TodoError::MissingSignature)
    } else if byte_len(title) > MAX_TITLE_LEN {
        Err(TodoError::TitleTooLong)
    } else {
        match address {
            None => Err(TodoError::AddressUnavailable),
            Some(a) => if !ledger.contains_key(a) {
                Err(TodoError::NotFound)
            } else if ledger[a].data.owner != ctx.owner.key@ {
                Err(TodoError::Unauthorized)
            } else if byte_len(description) > MAX_DESCRIPTION_LEN {
                Err(TodoError::DescriptionTooLong)
            } else {
                Ok(())
            },
        }
    }
}

/// The ledger after a request to update the item at `address`.
pub open spec fn update_ledger(
    ledger: LedgerView,
    ctx: UpdateTodoItem,
    address: Option<Seq<u8>>,
    title: Seq<char>,
    description: Seq<char>,
    completed: bool,
) -> LedgerView {
    if update_outcome(ledger, ctx, address, title, description) is Ok {
        ledger.insert(
            address->0,
            SlotView {
                space: SLOT_SPACE as nat,
                data: ledger[address->0].data.updated(description, completed),
            },
        )
    } else {
        ledger
    }
}

/// How a request to delete the item at `address` ends.
pub open spec fn delete_outcome(
    ledger: LedgerView,
    ctx: DeleteTodoItem,
    address: Option<Seq<u8>>,
    title: Seq<char>,
) -> Result<(), TodoError> {
    if !ctx.owner.is_signer {
        Err(TodoError::MissingSignature)
    } else if byte_len(title) > MAX_TITLE_LEN {
        Err(TodoError::TitleTooLong)
    } else {
        match address {
            None => Err(TodoError::AddressUnavailable),
            Some(a) => if !ledger.contains_key(a) {
                Err(TodoError::NotFound)
            } else if ledger[a].data.owner != ctx.owner.key@ {
                Err(TodoError::Unauthorized)
            } else {
                Ok(())
            },
        }
    }
}

/// The ledger after a request to delete the item at `address`.
pub open spec fn delete_ledger(
    ledger: LedgerView,
    ctx: DeleteTodoItem,
    address: Option<Seq<u8>>,
    title: Seq<char>,
) -> LedgerView {
    if delete_outcome(ledger, ctx, address, title) is Ok {
        ledger.remove(address->0)
    } else {
        ledger
    }
}

/// Creates the item of `title` for the signing owner in the slot at `address`,
/// not yet completed. A refused request leaves the ledger as it was.
pub fn create_todo_item_at(
    ledger: &mut Ledger,
    ctx: CreateTodoItem,
    address: Option<Pubkey>,
    title: String,
    description: String,
) -> (r: Result<(), TodoError>)
    requires
        old(ledger).wf(),
    ensures
        final(ledger).wf(),
        r is Err ==> final(ledger)@ == old(ledger)@,
        r == create_outcome(old(ledger)@, ctx, address_view(address), title@, description@),
        final(ledger)@ == create_ledger(
            old(ledger)@,
            ctx,
            address_view(address),
            title@,
            description@,
        ),
{
    if !ctx.owner.is_signer {
        return Err(TodoError::MissingSignature);
    }
    let data = match TodoItemState::new(ctx.owner.key, title, description) {
        Ok(data) => data,
        Err(e) => {
            return Err(e);
        },
    };
    let address = match address {
        Some(address) => address,
        None => {
            return Err(TodoError::AddressUnavailable);
        },
    };
    if ledger.contains(&address) {
        return Err(TodoError::AlreadyExists);
    }
    ledger.allocate(Slot { address, space: SLOT_SPACE, data });
    Ok(())
}

/// Overwrites description and flag of the item in the slot at `address`, and
/// brings the slot to its fixed size. Owner and title stay. A refused request
/// leaves the ledger as it was.
pub fn update_todo_item_at(
    ledger: &mut Ledger,
    ctx: UpdateTodoItem,
    address: Option<Pubkey>,
    title: String,
    description: String,
    completed: bool,
) -> (r: Result<(), TodoError>)
    requires
        old(ledger).wf(),
    ensures
        final(ledger).wf(),
        r is Err ==> final(ledger)@ == old(ledger)@,
        r == update_outcome(old(ledger)@, ctx, address_view(address), title@, description@),
        final(ledger)@ == update_ledger(
            old(ledger)@,
            ctx,
            address_view(address),
            title@,
            description@,
            completed,
        ),
{
    if !ctx.owner.is_signer {
        return Err(TodoError::MissingSignature);
    }
    if !fits(title.as_str(), MAX_TITLE_LEN) {
        return Err(TodoError::TitleTooLong);
    }
    let address = match address {
        Some(address) => address,
        None => {
            return Err(TodoError::AddressUnavailable);
        },
    };
    let authorized = match ledger.get(&address) {
        Some(slot) => slot.data.owner.same(&ctx.owner.key),
        None => {
            return Err(TodoError::NotFound);
        },
    };
    if !authorized {
        return Err(TodoError::Unauthorized);
    }
    ledger.store(&address, SLOT_SPACE, description, completed)
}

/// Closes the slot at `address`. A refused request leaves the ledger as it was.
pub fn delete_todo_item_at(
    ledger: &mut Ledger,
    ctx: DeleteTodoItem,
    address: Option<Pubkey>,
    title: String,
) -> (r: Result<(), TodoError>)
    requires
        old(ledger).wf(),
    ensures
        final(ledger).wf(),
        r is Err ==> final(ledger)@ == old(ledger)@,
        r == delete_outcome(old(ledger)@, ctx, address_view(address), title@),
        final(ledger)@ == delete_ledger(old(ledger)@, ctx, address_view(address), title@),
{
    if !ctx.owner.is_signer {
        return Err(TodoError::MissingSignature);
    }
    if !fits(title.as_str(), MAX_TITLE_LEN) {
        return Err(TodoError::TitleTooLong);
    }
    let address = match address {
        Some(address) => address,
        None => {
            return Err(TodoError::AddressUnavailable);
        },
    };
    let authorized = match ledger.get(&address) {
        Some(slot) => slot.data.owner.same(&ctx.owner.key),
        None => {
            return Err(TodoError::NotFound);
        },
    };
    if !authorized {
        return Err(TodoError::Unauthorized);
    }
    ledger.close(&address);
    Ok(())
}

/// Creates the item of `title` for the signing owner, in the slot whose address
/// is derived from the title and the owner's key. Refused where the owner has
/// not signed, where title or description is too long, where no address can be
/// derived, or where the slot is taken.
pub fn create_todo_item(
    ledger: &mut Ledger,
    ctx: CreateTodoItem,
    title: String,
    description: String,
) -> (r: Result<(), TodoError>)
    requires
        old(ledger).wf(),
    ensures
        final(ledger).wf(),
        r is Err ==> final(ledger)@ == old(ledger)@,
        r == create_outcome(
            old(ledger)@,
            ctx,
            slot_address(title@, ctx.owner.key@),
            title@,
            description@,
        ),
        final(ledger)@ == create_ledger(
            old(ledger)@,
            ctx,
            slot_address(title@, ctx.owner.key@),
            title@,
            description@,
        ),
        r is Ok ==> final(ledger)@[slot_address(title@, ctx.owner.key@)->0].data == (TodoItemView {
            owner: ctx.owner.key@,
            title: title@,
            description: description@,
            completed: false,
        }),
{
    let address = todo_address(title.as_str(), &ctx.owner.key);
    create_todo_item_at(ledger, ctx, address, title, description)
}

/// Overwrites description and flag of the signing owner's item of `title`.
/// Refused where the owner has not signed, where the title is too long, where
/// there is no such item, where its stored owner is another, or where the
/// description is too long.
pub fn update_todo_item(
    ledger: &mut Ledger,
    ctx: UpdateTodoItem,
    title: String,
    description: String,
    completed: bool,
) -> (r: Result<(), TodoError>)
    requires
        old(ledger).wf(),
    ensures
        final(ledger).wf(),
        r is Err ==> final(ledger)@ == old(ledger)@,
        r == update_outcome(
            old(ledger)@,
            ctx,
            slot_address(title@, ctx.owner.key@),
            title@,
            description@,
        ),
        final(ledger)@ == update_ledger(
            old(ledger)@,
            ctx,
            slot_address(title@, ctx.owner.key@),
            title@,
            description@,
            completed,
        ),
        r is Ok ==> {
            let a = slot_address(title@, ctx.owner.key@)->0;
            &&& final(ledger)@[a].data.owner == old(ledger)@[a].data.owner
            &&& final(ledger)@[a].data.title == old(ledger)@[a].data.title
            &&& final(ledger)@[a].data.description == description@
            &&& final(ledger)@[a].data.completed == completed
        },
{
    let address = todo_address(title.as_str(), &ctx.owner.key);
    update_todo_item_at(ledger, ctx, address, title, description, completed)
}

/// Closes the slot of the signing owner's item of `title`. Refused where the
/// owner has not signed, where the title is too long, where there is no such
/// item, or where its stored owner is another.
pub fn delete_todo_item(ledger: &mut Ledger, ctx: DeleteTodoItem, title: String) -> (r: Result<
    (),
    TodoError,
>)
    requires
        old(ledger).wf(),
    ensures
        final(ledger).wf(),
        r is Err ==> final(ledger)@ == old(ledger)@,
        r == delete_outcome(old(ledger)@, ctx, slot_address(title@, ctx.owner.key@), title@),
        final(ledger)@ == delete_ledger(
            old(ledger)@,
            ctx,
            slot_address(title@, ctx.owner.key@),
            title@,
        ),
        r is Ok ==> !final(ledger)@.contains_key(slot_address(title@, ctx.owner.key@)->0),
{
    let address = todo_address(title.as_str(), &ctx.owner.key);
    delete_todo_item_at(ledger, ctx, address, title)
}

} // verus!
