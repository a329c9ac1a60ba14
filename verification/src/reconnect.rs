//! The reconnecting supervisor's status machine.
//!
//! A supervisor wraps one connection of type `C` behind a tri-state status.
//! Exactly one state holds at any instant; the caller keeps the status behind
//! a mutex and drives every transition through the functions here.

use crate::error::RconError;
use vstd::prelude::*;
use vstd::string::StringExecFns;

verus! {

/// The supervisor's status: a live connection, a reconnect in progress with
/// the text of the failure that triggered it, or closed for good.
pub enum Status<C> {
    /// A healthy connection commands can be delegated to.
    Connected(C),
    /// The connection was lost; the payload describes the transport failure
    /// that triggered the reconnect now in progress.
    Disconnected(String),
    /// The supervisor was closed; terminal.
    Stopped,
}

/// The answer `exec` owes by status alone, before touching any transport:
/// nothing when connected — the command may be delegated to the inner
/// connection; `BusyReconnecting`, carrying the stored reason, while a
/// reconnect is in progress; an IO-class "connection closed" error once the
/// supervisor was stopped.
pub fn gate_exec<C>(status: &Status<C>) -> (r: Option<RconError>)
    ensures
        match status {
            Status::Connected(_) => r is None,
            Status::Disconnected(reason) => r matches Some(e) && e matches
                RconError::BusyReconnecting(m) && m@ == reason@,
            Status::Stopped => r matches Some(e) && e matches RconError::IO(m) && m@
                == "connection closed"@,
        },
{
    match status {
        Status::Connected(_) => None,
        Status::Disconnected(reason) => Some(RconError::BusyReconnecting(reason.clone())),
        Status::Stopped => Some(RconError::IO(String::from_str("connection closed"))),
    }
}

/// Settles a delegated `exec`'s outcome. An IO-class failure is promoted:
/// the status flips to `Disconnected`, recording the failure's text as the
/// reason — which drops the broken connection — the caller is told, by the
/// second component, to spawn the one reconnect task, and the call reports
/// `BusyReconnecting` carrying the same text. Every other outcome, success or
/// protocol error, passes through unchanged and leaves the status alone.
pub fn on_exec_result<C>(status: &mut Status<C>, result: Result<String, RconError>) -> (out: (
    Result<String, RconError>,
    bool,
))
    requires
        *old(status) is Connected,
    ensures
        match result {
            Err(e) => if e is IO {
                &&& *final(status) matches Status::Disconnected(reason) && reason@
                    == e.spec_description()
                &&& out.0 matches Err(b) && b matches RconError::BusyReconnecting(m) && m@
                    == e.spec_description()
                &&& out.1
            } else {
                &&& *final(status) == *old(status)
                &&& out.0 == result
                &&& !out.1
            },
            Ok(_) => {
                &&& *final(status) == *old(status)
                &&& out.0 == result
                &&& !out.1
            },
        },
{
    match result {
        Err(e) => {
            if e.is_io() {
                let reason = e.describe();
                let report = e.describe();
                *status = Status::Disconnected(reason);
                (Err(RconError::BusyReconnecting(report)), true)
            } else {
                (Err(e), false)
            }
        },
        Ok(s) => (Ok(s), false),
    }
}

/// Lands a reconnect attempt that opened `fresh`: while the supervisor is not
/// stopped, `fresh` is installed and the status becomes `Connected`; when
/// `close` won the race and the status already reads `Stopped`, it stays so
/// and `fresh` is handed back, for the caller to close rather than install.
pub fn install_reconnected<C>(status: &mut Status<C>, fresh: C) -> (rejected: Option<C>)
    ensures
        match *old(status) {
            Status::Stopped => *final(status) is Stopped && rejected == Some(fresh),
            _ => *final(status) matches Status::Connected(c) && c == fresh && rejected is None,
        },
{
    match &*status {
        Status::Stopped => Some(fresh),
        _ => {
            *status = Status::Connected(fresh);
            None
        },
    }
}

/// Swaps the status to the terminal `Stopped`, handing back the live
/// connection if one was installed, so the caller can close it; no reconnect
/// attempt that finishes later may land once this has run.
pub fn close_transition<C>(status: &mut Status<C>) -> (conn: Option<C>)
    ensures
        *final(status) is Stopped,
        match *old(status) {
            Status::Connected(c) => conn == Some(c),
            _ => conn is None,
        },
{
    let mut taken: Status<C> = Status::Stopped;
    core::mem::swap(status, &mut taken);
    match taken {
        Status::Connected(c) => Some(c),
        _ => None,
    }
}

} // verus!
