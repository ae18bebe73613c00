//! Connection registration: the client-side state machine over the one
//! saved connection record.
//!
//! `connect` is write-then-verify: the address is persisted first, the
//! probe runs against what was persisted, and a failing probe rolls the
//! record back so no unreachable address is left registered. The two
//! halves around the probe are `connect_begin` and `connect_finish`; the
//! caller performs the HTTP exchange between them.

use vstd::prelude::*;

use crate::connection::ConnectionTestResult;
use crate::connection::connection_absent;
use crate::connection::set_connection;
use crate::store::RecordSlot;
use crate::store::SlotView;
use crate::store::slot_removed;
use crate::store::slot_written;
use crate::text::trimmed;

verus! {

/// How a `connect` call ends: the trimmed address is registered and
/// answered the probe, or the probe failed this way and the record was
/// rolled back.
#[derive(Debug, Clone)]
pub enum ConnectOutcome {
    Connected(String),
    Failed(ConnectionTestResult),
}

/// The record after a whole `connect(addr)` call whose probe ended with
/// `success`: the trimmed address when the probe succeeded, no record at
/// all when it failed.
pub open spec fn connect_spec(v: SlotView, addr: Seq<char>, success: bool) -> SlotView {
    let written = slot_written(v, trimmed(addr));
    if success {
        written
    } else {
        slot_removed(written)
    }
}

/// First half of `connect(addr)`: persists the trimmed address
/// optimistically — before any probe, so that a crash mid-probe still
/// leaves the intended address recorded — and returns the address the
/// probe must target.
pub fn connect_begin(slot: &mut RecordSlot, addr: &str) -> (target: String)
    ensures
        final(slot)@ == slot_written(old(slot)@, trimmed(addr@)),
        target@ == trimmed(addr@),
{
    set_connection(slot, addr);
    crate::text::trim_of(addr)
}

/// Second half of `connect`: keeps the just-written record when the probe
/// succeeded, rolls it back when the probe failed in any way, and reports
/// the outcome, carrying the probe's classification on failure.
pub fn connect_finish(slot: &mut RecordSlot, target: String, probe: ConnectionTestResult) -> (r:
    ConnectOutcome)
    ensures
        probe is Success ==> final(slot)@ == old(slot)@ && (r matches ConnectOutcome::Connected(a)
            && a@ == target@),
        !(probe is Success) ==> final(slot)@ == slot_removed(old(slot)@) && (r
            matches ConnectOutcome::Failed(p) && p == probe),
{
    if probe.is_success() {
        ConnectOutcome::Connected(target)
    } else {
        slot.remove();
        ConnectOutcome::Failed(probe)
    }
}

/// The process exit code a `connect` outcome calls for: 0 on success,
/// 1 on any failure.
pub fn connect_exit_code(outcome: &ConnectOutcome) -> (code: i32)
    ensures
        code == 0 <==> (*outcome) is Connected,
        code == 0 || code == 1,
{
    match outcome {
        ConnectOutcome::Connected(_) => 0,
        ConnectOutcome::Failed(_) => 1,
    }
}

/// Rollback invariant: for every prior state and every address, when the
/// probe fails, the record the `connect` call wrote is gone again by the
/// time the call returns — the address is not left dangling.
pub proof fn lemma_failed_connect_rolls_back(v: SlotView, addr: Seq<char>)
    ensures
        connection_absent(connect_spec(v, addr, false)),
{
}

} // verus!
