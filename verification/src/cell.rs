//! The store for a parameter's current text.
//!
//! A write compares the new text with the stored one and replaces it only
//! where the two differ; the answer says which. The store holds a plain text
//! and is written through `&mut`: whoever shares a parameter between threads
//! puts a lock around it, and takes the lock for each read and each write.

use vstd::prelude::*;

verus! {

/// Whether writing `new` over `stored` is a change.
pub open spec fn changes(stored: Seq<char>, new: Seq<char>) -> bool {
    stored != new
}

/// The text that is stored after `new` was written over `stored`.
pub open spec fn after_write(stored: Seq<char>, new: Seq<char>) -> Seq<char> {
    if changes(stored, new) {
        new
    } else {
        stored
    }
}

/// A write of the text that is already stored is no change, so the same
/// value written twice in a row changes the store at most once.
pub proof fn lemma_repeated_write_is_no_change(stored: Seq<char>, new: Seq<char>)
    ensures
        !changes(after_write(stored, new), new),
        after_write(after_write(stored, new), new) == after_write(stored, new),
{
}

/// After a write the store holds the text that was written, whether or not
/// the write was a change.
pub proof fn lemma_store_holds_what_was_written(stored: Seq<char>, new: Seq<char>)
    ensures
        after_write(stored, new) == new,
{
}

/// Replaces `stored` by `new` unless the two are equal, and says whether it
/// did.
pub fn store_if_changed(stored: &mut String, new: String) -> (changed: bool)
    ensures
        changed == changes(old(stored)@, new@),
        final(stored)@ == after_write(old(stored)@, new@),
{
    if *stored != new {
        *stored = new;
        true
    } else {
        false
    }
}

/// The store of one text.
pub struct ValueCell {
    text: String,
}

impl View for ValueCell {
    type V = Seq<char>;

    /// The text that the store holds.
    closed spec fn view(&self) -> Seq<char> {
        self.text@
    }
}

impl ValueCell {
    /// A store that holds `initial`.
    pub fn new(initial: String) -> (cell: ValueCell)
        ensures
            cell@ == initial@,
    {
        ValueCell { text: initial }
    }

    /// A copy of the text that the store holds.
    pub fn read(&self) -> (text: String)
        ensures
            text@ == self@,
    {
        self.text.clone()
    }

    /// Stores `new` unless the store already holds an equal text, and says
    /// whether the store changed.
    pub fn write_if_changed(&mut self, new: String) -> (changed: bool)
        ensures
            changed == changes(old(self)@, new@),
            final(self)@ == new@,
    {
        store_if_changed(&mut self.text, new)
    }
}

} // verus!
