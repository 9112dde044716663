use vstd::prelude::*;

use crate::tapfer_id::TapferId;
use crate::text::text_eq;

verus! {

/// Where websocket events go: the page of an asset, or a deposit page that
/// waits for an upload.
#[derive(Debug, Clone, Copy, PartialEq, Eq, Structural, Hash)]
pub enum WsDestination {
    Id(TapferId),
    Deposit(u64),
}

impl WsDestination {
    pub fn from_id(value: TapferId) -> (r: WsDestination)
        ensures
            r == WsDestination::Id(value),
    {
        WsDestination::Id(value)
    }

    pub fn from_deposit(value: u64) -> (r: WsDestination)
        ensures
            r == WsDestination::Deposit(value),
    {
        WsDestination::Deposit(value)
    }
}

/// An event sent to the pages that watch an asset or a deposit.
#[derive(Debug, Clone, Copy, PartialEq, Eq, Structural)]
pub enum WsEvent {
    DeleteAsset,
    UploadProgress { progress: u64, total: u64 },
    UploadComplete,
    DepositReady { id: TapferId },
}

/// One event with its place in the sequence sent on a socket.
#[derive(Debug, Clone, Copy, PartialEq, Eq, Structural)]
pub struct WsPacket {
    pub seq: u64,
    pub event: WsEvent,
}

/// The websocket scheme for a host: plain on the local development host,
/// secure everywhere else.
pub fn wss_method(host: &str) -> (r: &'static str)
    ensures
        r@ == (if host@ == "localhost:3000"@ {
            "ws"@
        } else {
            "wss"@
        }),
{
    if text_eq(host, "localhost:3000") {
        "ws"
    } else {
        "wss"
    }
}

/// Whether an event is forwarded to a socket: progress events at most once
/// per cooldown, all other events always. Times are in nanoseconds.
pub fn forward_event(event: &WsEvent, since_last_progress: u128, cooldown: u128) -> (r: bool)
    ensures
        r == (!(*event is UploadProgress) || since_last_progress >= cooldown),
{
    match event {
        WsEvent::UploadProgress { .. } => since_last_progress >= cooldown,
        _ => true,
    }
}

/// The packet for the next event on a socket, and the sequence number that
/// follows it.
pub fn next_packet(seq: u64, event: WsEvent) -> (r: (WsPacket, u64))
    requires
        seq < u64::MAX,
    ensures
        r.0 == (WsPacket { seq, event }),
        r.1 == seq + 1,
{
    (WsPacket { seq, event }, seq + 1)
}

} // verus!
