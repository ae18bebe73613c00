//! The client's saved connection: one plain-text record holding the
//! `host:port` of the currently targeted server, or nothing.
//!
//! The address is stored trimmed of surrounding whitespace and read back
//! trimmed; a record that trims to nothing is corrupt, which is an error
//! distinct from the record being absent. Probing the saved address is
//! part of the reachability protocol: the caller performs the GET against
//! `ctest::ctest_url` and classifies the outcome with `classify_probe`.

use vstd::prelude::*;

use crate::ctest::HttpExchange;
use crate::store::RecordSlot;
use crate::store::SlotView;
use crate::store::StoreStep;
use crate::store::slot_removed;
use crate::store::slot_remove_reports;
use crate::store::slot_written;
use crate::text::lemma_trimmed_idempotent;
use crate::text::trimmed;
use crate::text::trim_of;

verus! {

/// An I/O failure while managing the connection record, by the step that
/// failed; each carries the underlying failure's description.
#[derive(Debug, Clone)]
pub enum ConnectionIoError {
    /// A parent directory could not be checked or created.
    DirError(String),
    /// The record file could not be created, opened or removed.
    FileError(String),
    /// The record's content could not be encoded or decoded.
    SerError(String),
    /// The record file could not be read or written once open.
    RwError(String),
}

impl ConnectionIoError {
    /// The error kind that a failure at `step` surfaces, carrying
    /// `detail` unchanged.
    pub fn classify(step: StoreStep, detail: String) -> (e: Self)
        ensures
            match e {
                ConnectionIoError::DirError(d) => (step is CheckPath || step is CreateDirs)
                    && d@ == detail@,
                ConnectionIoError::FileError(d) => (step is CreateFile || step is OpenFile
                    || step is RemoveFile) && d@ == detail@,
                ConnectionIoError::SerError(d) => (step is Encode || step is Decode) && d@
                    == detail@,
                ConnectionIoError::RwError(d) => (step is ReadBytes || step is WriteBytes) && d@
                    == detail@,
            },
    {
        match step {
            StoreStep::CheckPath | StoreStep::CreateDirs => ConnectionIoError::DirError(detail),
            StoreStep::CreateFile | StoreStep::OpenFile | StoreStep::RemoveFile
                => ConnectionIoError::FileError(detail),
            StoreStep::Encode | StoreStep::Decode => ConnectionIoError::SerError(detail),
            StoreStep::ReadBytes | StoreStep::WriteBytes => ConnectionIoError::RwError(detail),
        }
    }
}

/// A failure while testing the saved connection.
#[derive(Debug, Clone)]
pub enum ConnectionTestError {
    /// The saved connection could not be read.
    IoError(ConnectionIoError),
}

/// What a probe of a candidate server address found. The three outcomes
/// call for different user-facing messages, so the result is a value to
/// match on, not a boolean.
#[derive(Debug, Clone, Copy, PartialEq, Eq, Structural)]
pub enum ConnectionTestResult {
    /// The address answered the token route with status 200 and a
    /// non-empty body: something is alive there and speaks the protocol.
    Success,
    /// The exchange failed at the transport level.
    Unreachable,
    /// A reply arrived, but with this status instead of 200.
    UnexpectedStatus(u16),
    /// A reply arrived with status 200 and an empty body.
    EmptyBody,
}

impl ConnectionTestResult {
    /// Whether this outcome is a success.
    pub fn is_success(&self) -> (b: bool)
        ensures
            b == (*self is Success),
    {
        match self {
            ConnectionTestResult::Success => true,
            _ => false,
        }
    }
}

/// No connection record exists.
pub open spec fn connection_absent(v: SlotView) -> bool {
    v.content is None
}

/// A connection record exists but holds only whitespace: corrupt, an
/// error rather than an absence.
pub open spec fn connection_corrupt(v: SlotView) -> bool {
    v.content matches Some(c) && trimmed(c).len() == 0
}

/// The saved address: the record's content trimmed of surrounding
/// whitespace.
pub open spec fn connection_value(v: SlotView) -> Seq<char> {
    trimmed(v.content->0)
}

/// Saves `connection`, trimmed, as the targeted server address,
/// overwriting any previous record; creates the record's parent directory
/// if and only if it is missing, and reports whether it did.
pub fn set_connection(slot: &mut RecordSlot, connection: &str) -> (made_dirs: bool)
    ensures
        final(slot)@ == slot_written(old(slot)@, trimmed(connection@)),
        made_dirs == !old(slot)@.parent_exists,
{
    let text = trim_of(connection);
    slot.write(text)
}

/// The saved server address: `Ok(None)` when no record exists — absence
/// is not an error — the trimmed address when one does, and a
/// serialization error when the record trims to nothing.
pub fn get_connection(slot: &RecordSlot) -> (r: Result<Option<String>, ConnectionIoError>)
    ensures
        match r {
            Ok(None) => connection_absent(slot@),
            Ok(Some(addr)) => !connection_absent(slot@) && !connection_corrupt(slot@) && addr@
                == connection_value(slot@),
            Err(e) => connection_corrupt(slot@) && e matches ConnectionIoError::SerError(_),
        },
{
    match slot.read() {
        None => Ok(None),
        Some(raw) => {
            let addr = trim_of(raw.as_str());
            if addr.as_str().is_empty() {
                Err(ConnectionIoError::SerError("connection record is empty".to_owned()))
            } else {
                Ok(Some(addr))
            }
        },
    }
}

/// Removes the saved connection if there is one; reports whether anything
/// was actually removed, and never errs when there was nothing to remove.
pub fn remove_connection(slot: &mut RecordSlot) -> (removed: bool)
    ensures
        final(slot)@ == slot_removed(old(slot)@),
        removed == slot_remove_reports(old(slot)@),
{
    slot.remove()
}

/// Whether a connection record currently exists.
pub fn has_connection(slot: &RecordSlot) -> (b: bool)
    ensures
        b == !connection_absent(slot@),
{
    slot.present()
}

/// The address a connection test must probe: `Ok(None)` when nothing is
/// saved (there is nothing to test), the saved address otherwise. The
/// caller GETs the token route at that address and classifies the
/// exchange with `classify_probe`.
pub fn test_connection(slot: &RecordSlot) -> (r: Result<Option<String>, ConnectionTestError>)
    ensures
        match r {
            Ok(None) => connection_absent(slot@),
            Ok(Some(addr)) => !connection_absent(slot@) && !connection_corrupt(slot@) && addr@
                == connection_value(slot@),
            Err(e) => connection_corrupt(slot@) && (e matches ConnectionTestError::IoError(
                inner,
            ) && inner matches ConnectionIoError::SerError(_)),
        },
{
    match get_connection(slot) {
        Ok(saved) => Ok(saved),
        Err(e) => Err(ConnectionTestError::IoError(e)),
    }
}

/// The probe's acceptance condition: a reply arrived with status 200 and
/// a non-empty body. The prober does not know the server's token, so any
/// non-empty answer on the token route counts as alive.
pub open spec fn probe_succeeds(exchange: HttpExchange) -> bool {
    &&& exchange matches HttpExchange::Replied { status, body }
    &&& status == 200
    &&& body@.len() > 0
}

/// Classifies one probe exchange into the closed set of outcomes; the
/// result is `Success` exactly when `probe_succeeds` holds.
pub fn classify_probe(exchange: &HttpExchange) -> (r: ConnectionTestResult)
    ensures
        r is Success <==> probe_succeeds(*exchange),
        match r {
            ConnectionTestResult::Success => true,
            ConnectionTestResult::Unreachable => (*exchange) is Failed,
            ConnectionTestResult::UnexpectedStatus(got) => (*exchange)
                matches HttpExchange::Replied { status, .. } && got == status && status != 200,
            ConnectionTestResult::EmptyBody => (*exchange) matches HttpExchange::Replied {
                status,
                body,
            } && status == 200 && body@.len() == 0,
        },
{
    match exchange {
        HttpExchange::Failed(_) => ConnectionTestResult::Unreachable,
        HttpExchange::Replied { status, body } => {
            if *status != 200 {
                ConnectionTestResult::UnexpectedStatus(*status)
            } else if body.as_str().is_empty() {
                ConnectionTestResult::EmptyBody
            } else {
                ConnectionTestResult::Success
            }
        },
    }
}

/// Round trip: saving any address whose trimmed form is non-empty and
/// reading it back yields exactly that trimmed address, never an absence
/// and never a corruption.
pub proof fn lemma_connection_round_trip(v: SlotView, addr: Seq<char>)
    requires
        trimmed(addr).len() > 0,
    ensures
        !connection_absent(slot_written(v, trimmed(addr))),
        !connection_corrupt(slot_written(v, trimmed(addr))),
        connection_value(slot_written(v, trimmed(addr))) == trimmed(addr),
{
    lemma_trimmed_idempotent(addr);
}

/// Absence and corruption never coincide: a missing record reads as "no
/// record", which is distinguishable from a corrupt one, which reads as a
/// serialization error.
pub proof fn lemma_absence_is_not_corruption(v: SlotView)
    ensures
        connection_absent(v) ==> !connection_corrupt(v),
{
}

} // verus!
