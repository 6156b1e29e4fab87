//! The todo record and the space it is given in storage.

use vstd::prelude::*;
use vstd::string::StringSliceAdditionalSpecFns;
use vstd::utf8::encode_utf8;
use crate::error::TodoError;
use crate::pubkey::Pubkey;

verus! {

/// The most bytes a title may take.
pub const MAX_TITLE_LEN: usize = 32;

/// The most bytes a description may take.
pub const MAX_DESCRIPTION_LEN: usize = 256;

/// The bytes that precede every record in its slot and tell its type.
pub const ANCHOR_DISCRIMINATOR_SIZE: usize = 8;

/// The bytes kept for a record: the owner's key, two strings behind a four-byte
/// length each, and the flag.
pub const INIT_SPACE: usize = 32 + (4 + MAX_TITLE_LEN) + (4 + MAX_DESCRIPTION_LEN) + 1;

/// The size of a slot: the discriminator and the record.
pub const SLOT_SPACE: usize = ANCHOR_DISCRIMINATOR_SIZE + INIT_SPACE;

/// How many bytes a string takes in storage, without its length prefix.
pub open spec fn byte_len(s: Seq<char>) -> nat {
    encode_utf8(s).len()
}

/// One todo item, as it is stored.
#[derive(Clone, Debug)]
pub struct TodoItemState {
    pub owner: Pubkey,
    pub title: String,
    pub description: String,
    pub completed: bool,
}

/// What a record holds, as plain values.
pub struct TodoItemView {
    pub owner: Seq<u8>,
    pub title: Seq<char>,
    pub description: Seq<char>,
    pub completed: bool,
}

impl TodoItemView {
    /// Title and description are no longer than a slot has room for.
    pub open spec fn within_limits(self) -> bool {
        &&& byte_len(self.title) <= MAX_TITLE_LEN
        &&& byte_len(self.description) <= MAX_DESCRIPTION_LEN
    }

    /// The bytes the record takes in its slot, behind the discriminator.
    pub open spec fn stored_size(self) -> nat {
        32 + (4 + byte_len(self.title)) + (4 + byte_len(self.description)) + 1
    }

    /// The record as it is after an update: only description and flag change.
    pub open spec fn updated(self, description: Seq<char>, completed: bool) -> TodoItemView {
        TodoItemView { description, completed, ..self }
    }
}

impl View for TodoItemState {
    type V = TodoItemView;

    open spec fn view(&self) -> TodoItemView {
        TodoItemView {
            owner: self.owner@,
            title: self.title@,
            description: self.description@,
            completed: self.completed,
        }
    }
}

/// Whether a string takes at most `limit` bytes.
pub fn fits(s: &str, limit: usize) -> (r: bool)
    ensures
        r == (byte_len(s@) <= limit),
{
    s.as_bytes().len() <= limit
}

impl TodoItemState {
    /// A fresh record, not yet completed. Refused where the title or the
    /// description is too long; the title is looked at first.
    pub fn new(owner: Pubkey, title: String, description: String) -> (r: Result<
        TodoItemState,
        TodoError,
    >)
        ensures
            byte_len(title@) > MAX_TITLE_LEN ==> r == Err::<TodoItemState, TodoError>(
                TodoError::TitleTooLong,
            ),
            byte_len(title@) <= MAX_TITLE_LEN && byte_len(description@) > MAX_DESCRIPTION_LEN ==> r
                == Err::<TodoItemState, TodoError>(TodoError::DescriptionTooLong),
            byte_len(title@) <= MAX_TITLE_LEN && byte_len(description@) <= MAX_DESCRIPTION_LEN
                ==> r is Ok && r->Ok_0@ == (TodoItemView {
                owner: owner@,
                title: title@,
                description: description@,
                completed: false,
            }),
    {
        if !fits(title.as_str(), MAX_TITLE_LEN) {
            return Err(TodoError::TitleTooLong);
        }
        if !fits(description.as_str(), MAX_DESCRIPTION_LEN) {
            return Err(TodoError::DescriptionTooLong);
        }
        Ok(TodoItemState { owner, title, description, completed: false })
    }

    /// Overwrites description and flag; owner and title stay. Refused, with
    /// nothing changed, where the description is too long.
    pub fn update(&mut self, description: String, completed: bool) -> (r: Result<(), TodoError>)
        ensures
            byte_len(description@) <= MAX_DESCRIPTION_LEN ==> r == Ok::<(), TodoError>(())
                && final(self)@ == old(self)@.updated(description@, completed),
            byte_len(description@) > MAX_DESCRIPTION_LEN ==> r == Err::<(), TodoError>(
                TodoError::DescriptionTooLong,
            ) && *final(self) == *old(self),
    {
        if !fits(description.as_str(), MAX_DESCRIPTION_LEN) {
            return Err(TodoError::DescriptionTooLong);
        }
        self.description = description;
        self.completed = completed;
        Ok(())
    }

    /// The bytes this record takes in its slot, behind the discriminator.
    pub fn stored_size(&self) -> (n: usize)
        requires
            self@.within_limits(),
        ensures
            n == self@.stored_size(),
            n <= INIT_SPACE,
    {
        32 + (4 + self.title.as_str().as_bytes().len()) + (4
            + self.description.as_str().as_bytes().len()) + 1
    }
}

} // verus!
