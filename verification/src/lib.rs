//! A todo-item record store for a program-derived account model.
//!
//! Every record lives in its own storage slot, whose address is derived from the
//! record's title and its owner's public key. The handlers in [`program`] create,
//! update and delete records on a [`ledger::Ledger`], under the owner's signature.

pub mod accounts;
pub mod address;
pub mod error;
pub mod laws;
pub mod ledger;
pub mod program;
pub mod pubkey;
pub mod state;

pub use accounts::{CreateTodoItem, DeleteTodoItem, Signer, UpdateTodoItem};
pub use address::{derived_address, slot_address, todo_address};
pub use error::TodoError;
pub use ledger::{Ledger, LedgerView, Slot, SlotView};
pub use program::{
    create_todo_item, create_todo_item_at, delete_todo_item, delete_todo_item_at,
    update_todo_item, update_todo_item_at,
};
pub use pubkey::{id, Pubkey, PROGRAM_ID};
pub use state::{
    fits, TodoItemState, TodoItemView, ANCHOR_DISCRIMINATOR_SIZE, INIT_SPACE, MAX_DESCRIPTION_LEN,
    MAX_TITLE_LEN, SLOT_SPACE,
};
