//! The user's saved credentials: one JSON record at a well-known
//! location.
//!
//! The record store keeps the encoded text exactly as written and gives
//! it back exactly; encoding an `AuthPayload` to JSON and decoding it
//! back is the codec's business and happens outside, with a decoding
//! failure classified here as a serialization error — corrupt content is
//! an error, distinct from the record being absent.

use vstd::prelude::*;

use crate::store::RecordSlot;
use crate::store::SlotView;
use crate::store::StoreStep;
use crate::store::slot_removed;
use crate::store::slot_remove_reports;
use crate::store::slot_written;

verus! {

/// An I/O failure while managing the credentials record, by the step
/// that failed; each carries the underlying failure's description.
#[derive(Debug, Clone)]
pub enum CredentialsIoError {
    /// A parent directory could not be checked or created.
    DirError(String),
    /// The record file could not be created, opened or removed.
    FileError(String),
    /// The payload could not be encoded, or the record decoded.
    SerError(String),
    /// The record file could not be read or written once open.
    RwError(String),
}

impl CredentialsIoError {
    /// The error kind that a failure at `step` surfaces, carrying
    /// `detail` unchanged.
    pub fn classify(step: StoreStep, detail: String) -> (e: Self)
        ensures
            match e {
                CredentialsIoError::DirError(d) => (step is CheckPath || step is CreateDirs)
                    && d@ == detail@,
                CredentialsIoError::FileError(d) => (step is CreateFile || step is OpenFile
                    || step is RemoveFile) && d@ == detail@,
                CredentialsIoError::SerError(d) => (step is Encode || step is Decode) && d@
                    == detail@,
                CredentialsIoError::RwError(d) => (step is ReadBytes || step is WriteBytes) && d@
                    == detail@,
            },
    {
        match step {
            StoreStep::CheckPath | StoreStep::CreateDirs => CredentialsIoError::DirError(detail),
            StoreStep::CreateFile | StoreStep::OpenFile | StoreStep::RemoveFile
                => CredentialsIoError::FileError(detail),
            StoreStep::Encode | StoreStep::Decode => CredentialsIoError::SerError(detail),
            StoreStep::ReadBytes | StoreStep::WriteBytes => CredentialsIoError::RwError(detail),
        }
    }
}

/// What reading the credentials record yields: the stored encoded text,
/// or nothing.
pub open spec fn credentials_read(v: SlotView) -> Option<Seq<char>> {
    v.content
}

/// Saves the encoded credentials payload, overwriting any previous
/// record wholesale; creates the record's parent directory if and only
/// if it is missing, and reports whether it did.
pub fn set_credentials(slot: &mut RecordSlot, payload_json: String) -> (made_dirs: bool)
    ensures
        final(slot)@ == slot_written(old(slot)@, payload_json@),
        made_dirs == !old(slot)@.parent_exists,
{
    slot.write(payload_json)
}

/// The saved credentials record, encoded exactly as it was written, or
/// `None` when none is saved — absence is not an error.
pub fn get_credentials(slot: &RecordSlot) -> (r: Option<String>)
    ensures
        r is Some <==> credentials_read(slot@) is Some,
        r matches Some(s) ==> credentials_read(slot@) == Some(s@),
{
    slot.read()
}

/// Removes the saved credentials if there are any; reports whether
/// anything was actually removed, and never errs when there was nothing
/// to remove.
pub fn remove_credentials(slot: &mut RecordSlot) -> (removed: bool)
    ensures
        final(slot)@ == slot_removed(old(slot)@),
        removed == slot_remove_reports(old(slot)@),
{
    slot.remove()
}

/// Round trip: whatever encoded payload is written is read back exactly,
/// for every payload and every prior state of the record.
pub proof fn lemma_credentials_round_trip(v: SlotView, payload_json: Seq<char>)
    ensures
        credentials_read(slot_written(v, payload_json)) == Some(payload_json),
{
}

} // verus!
