//! The persistent record store.
//!
//! A record is a single value kept at a well-known filesystem location: the
//! saved credentials, the saved connection address. `RecordSlot` is the
//! store's view of one such location — whether the parent directory exists
//! and what the record file holds — and its operations give the store
//! contract: writing replaces the record wholesale, reading an absent record
//! is not an error, removing an absent record reports that nothing was
//! removed. The surrounding process keeps a slot in step with the disk and
//! maps each filesystem failure onto an error kind through `StoreStep`.

use vstd::prelude::*;

verus! {

/// What the store knows of one record location: whether the location's
/// parent directory exists, and the text the record file holds
/// (`None`: no file).
pub ghost struct SlotView {
    pub parent_exists: bool,
    pub content: Option<Seq<char>>,
}

/// The location after `text` is written: the parent directory exists and
/// the file holds exactly `text`.
pub open spec fn slot_written(v: SlotView, text: Seq<char>) -> SlotView {
    SlotView { parent_exists: true, content: Some(text) }
}

/// The location after the record is removed: no file; the directory stays.
pub open spec fn slot_removed(v: SlotView) -> SlotView {
    SlotView { parent_exists: v.parent_exists, content: None }
}

/// Whether removing reports that a record was actually removed.
pub open spec fn slot_remove_reports(v: SlotView) -> bool {
    v.content is Some
}

/// Removal is idempotent: once a record is removed, removing again finds
/// nothing, reports that nothing was removed, and changes nothing.
pub proof fn lemma_remove_idempotent(v: SlotView)
    ensures
        !slot_remove_reports(slot_removed(v)),
        slot_removed(slot_removed(v)) == slot_removed(v),
{
}

/// One record location, as the store sees it.
pub struct RecordSlot {
    parent_exists: bool,
    content: Option<String>,
}

impl View for RecordSlot {
    type V = SlotView;

    closed spec fn view(&self) -> SlotView {
        SlotView {
            parent_exists: self.parent_exists,
            content: match self.content {
                Some(s) => Some(s@),
                None => None,
            },
        }
    }
}

impl RecordSlot {
    /// A slot as observed on disk: `content` is the record file's text,
    /// or `None` when there is no file.
    pub fn new(parent_exists: bool, content: Option<String>) -> (slot: Self)
        ensures
            slot@.parent_exists == parent_exists,
            content matches Some(s) ==> slot@.content == Some(s@),
            content is None ==> slot@.content is None,
    {
        RecordSlot { parent_exists, content }
    }

    /// Writes `text` as the record, creating the parent directory if and
    /// only if it is missing; an existing record is replaced wholesale.
    /// Returns whether the directory had to be created.
    pub fn write(&mut self, text: String) -> (made_dirs: bool)
        ensures
            final(self)@ == slot_written(old(self)@, text@),
            made_dirs == !old(self)@.parent_exists,
    {
        let made_dirs = !self.parent_exists;
        self.parent_exists = true;
        self.content = Some(text);
        made_dirs
    }

    /// The record's text, or `None` when no record exists; absence is not
    /// an error.
    pub fn read(&self) -> (r: Option<String>)
        ensures
            r is Some <==> self@.content is Some,
            r matches Some(s) ==> self@.content == Some(s@),
    {
        match &self.content {
            Some(s) => Some(s.clone()),
            None => None,
        }
    }

    /// Removes the record if there is one; reports whether anything was
    /// actually removed.
    pub fn remove(&mut self) -> (removed: bool)
        ensures
            final(self)@ == slot_removed(old(self)@),
            removed == slot_remove_reports(old(self)@),
    {
        let removed = self.content.is_some();
        self.content = None;
        removed
    }

    /// Whether a record currently exists.
    pub fn present(&self) -> (b: bool)
        ensures
            b == (self@.content is Some),
    {
        self.content.is_some()
    }
}

/// The filesystem actions a store operation performs in order; when one
/// fails, the step it interrupted decides the error kind surfaced to the
/// caller.
#[derive(Clone, Copy, Debug, PartialEq, Eq, Structural)]
pub enum StoreStep {
    /// Probing whether a path exists.
    CheckPath,
    /// Creating the record's missing parent directories.
    CreateDirs,
    /// Creating or truncating the record file.
    CreateFile,
    /// Opening an existing record file.
    OpenFile,
    /// Deleting the record file.
    RemoveFile,
    /// Encoding the value into the record's on-disk form.
    Encode,
    /// Decoding the record's on-disk form back into a value.
    Decode,
    /// Reading the opened file's bytes.
    ReadBytes,
    /// Writing the encoded bytes out.
    WriteBytes,
}

} // verus!
