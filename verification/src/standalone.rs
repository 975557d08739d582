//! What the CLI does with a request when no daemon is running: status,
//! audio and BlueZ requests are served directly; anything that talks to
//! the buds or the event bus is refused with a pointer to the daemon.

use vstd::prelude::*;

use crate::bluez::{first_unpaired, DeviceSummary};
use crate::ipc::{Request, Response};
use crate::model::Profile;
use crate::text::{chars_of, owned, push_str, trim, trim_chars, utf8_len, utf8_len_upto};

verus! {

/// A job on the primary AirPods audio sink.
#[derive(Clone, Copy, Debug, PartialEq, Eq, Structural)]
pub enum SinkOp {
    Volume(u8),
    Muted(bool),
    MakeDefault,
}

/// A job on the primary AirPods audio card.
#[derive(Clone, Debug)]
pub enum CardOp {
    Profile(Profile),
    Codec(String),
    Latency(i32),
}

/// A `bluetoothctl` job on the primary AirPods.
#[derive(Clone, Debug)]
pub enum DeviceOp {
    Connect,
    Disconnect,
    Unpair,
    Trust(bool),
    /// Set the alias (already checked by [`dispatch`]).
    Rename(String),
}

/// How a request is served without the daemon.
#[derive(Clone, Debug)]
pub enum Plan {
    /// Answer at once.
    Reply(Response),
    /// Build the state from BlueZ and PipeWire now.
    Status,
    Sink(SinkOp),
    Card(CardOp),
    Device(DeviceOp),
    /// Scan, then pair the first AirPods that is not paired yet.
    Pair,
    /// The paired AirPods (an empty list when BlueZ fails).
    List,
}

pub open spec fn needs_daemon_msg() -> Seq<char> {
    "this setting changes a value on the AirPods themselves — needs the daemon. run 'podctl setup' to install."@
}

pub open spec fn refusal(a: Plan, msg: Seq<char>) -> bool {
    a matches Plan::Reply(Response::Error(m)) && m@ == msg
}

/// Why a new name is refused, if it is: empty after trimming, or over
/// 64 bytes of UTF-8.
pub open spec fn name_refusal(name: Seq<char>) -> Option<Seq<char>> {
    if trim(name).len() == 0 {
        Some("name cannot be empty"@)
    } else if utf8_len(name) > 64 {
        Some("name too long (max 64 bytes UTF-8)"@)
    } else {
        None
    }
}

fn refuse(msg: &str) -> (p: Plan)
    ensures
        refusal(p, msg@),
{
    Plan::Reply(Response::err(msg))
}

/// Decides how to serve a request without the daemon.
pub fn dispatch(req: &Request) -> (p: Plan)
    ensures
        match *req {
            Request::Status | Request::Battery => p == Plan::Status,
            Request::Ping => p == Plan::Reply(Response::Pong),
            Request::SetVolume { percent } => p == Plan::Sink(SinkOp::Volume(percent)),
            Request::SetMuted { muted } => p == Plan::Sink(SinkOp::Muted(muted)),
            Request::MakeDefaultSink => p == Plan::Sink(SinkOp::MakeDefault),
            Request::SetProfile { profile } => p == Plan::Card(CardOp::Profile(profile)),
            Request::SetCodec { codec } => p matches Plan::Card(CardOp::Codec(c)) && c@ == codec@,
            Request::SetLatencyOffset { ms } => p == Plan::Card(CardOp::Latency(ms)),
            Request::Connect => p == Plan::Device(DeviceOp::Connect),
            Request::Disconnect => p == Plan::Device(DeviceOp::Disconnect),
            Request::Unpair => p == Plan::Device(DeviceOp::Unpair),
            Request::SetAutoConnect { on } => p == Plan::Device(DeviceOp::Trust(on)),
            Request::Pair => p == Plan::Pair,
            Request::List => p == Plan::List,
            Request::Rename { name } => match name_refusal(name@) {
                Some(m) => refusal(p, m),
                None => p matches Plan::Device(DeviceOp::Rename(n)) && n@ == name@,
            },
            Request::Watch => refusal(p, "watch needs the daemon — install it with 'podctl setup'."@),
            Request::DebugEmitCaseLid { .. } => refusal(
                p,
                "debug emit-case-lid needs the daemon (it broadcasts on the event bus)."@,
            ),
            Request::ShowPopup => refusal(
                p,
                "popup needs the daemon (it broadcasts on the event bus)."@,
            ),
            _ => refusal(p, needs_daemon_msg()),
        },
{
    match req {
        Request::Status | Request::Battery => Plan::Status,
        Request::Ping => Plan::Reply(Response::Pong),
        Request::SetVolume { percent } => Plan::Sink(SinkOp::Volume(*percent)),
        Request::SetMuted { muted } => Plan::Sink(SinkOp::Muted(*muted)),
        Request::MakeDefaultSink => Plan::Sink(SinkOp::MakeDefault),
        Request::SetProfile { profile } => Plan::Card(CardOp::Profile(*profile)),
        Request::SetCodec { codec } => Plan::Card(CardOp::Codec(codec.clone())),
        Request::SetLatencyOffset { ms } => Plan::Card(CardOp::Latency(*ms)),
        Request::Connect => Plan::Device(DeviceOp::Connect),
        Request::Disconnect => Plan::Device(DeviceOp::Disconnect),
        Request::Unpair => Plan::Device(DeviceOp::Unpair),
        Request::SetAutoConnect { on } => Plan::Device(DeviceOp::Trust(*on)),
        Request::Pair => Plan::Pair,
        Request::List => Plan::List,
        Request::Rename { name } => {
            let v = chars_of(name.as_str());
            if trim_chars(&v).len() == 0 {
                refuse("name cannot be empty")
            } else if utf8_len_upto(&v, 64).is_none() {
                refuse("name too long (max 64 bytes UTF-8)")
            } else {
                Plan::Device(DeviceOp::Rename(name.clone()))
            }
        },
        Request::Watch => refuse("watch needs the daemon — install it with 'podctl setup'."),
        Request::DebugEmitCaseLid { .. } => refuse(
            "debug emit-case-lid needs the daemon (it broadcasts on the event bus).",
        ),
        Request::ShowPopup => refuse("popup needs the daemon (it broadcasts on the event bus)."),
        _ => refuse(
            "this setting changes a value on the AirPods themselves — needs the daemon. run 'podctl setup' to install.",
        ),
    }
}

/// The answer when no AirPods sink is found.
pub open spec fn no_sink_text(op: SinkOp) -> Seq<char> {
    match op {
        SinkOp::Volume(_) => "no AirPods audio sink found — connect them first."@,
        _ => "no AirPods audio sink found."@,
    }
}

pub fn no_sink_msg(op: SinkOp) -> (r: &'static str)
    ensures
        r@ == no_sink_text(op),
{
    match op {
        SinkOp::Volume(_) => "no AirPods audio sink found — connect them first.",
        _ => "no AirPods audio sink found.",
    }
}

/// The answer when no AirPods card is found.
pub fn no_card_msg() -> (r: &'static str)
    ensures
        r@ == "no AirPods card found."@,
{
    "no AirPods card found."
}

/// The answer when no AirPods is paired.
pub open spec fn no_device_text(op: DeviceOp) -> Seq<char> {
    match op {
        DeviceOp::Connect => "no AirPods paired — run 'podctl pair' first."@,
        DeviceOp::Unpair => "nothing to unpair."@,
        _ => "no AirPods paired."@,
    }
}

pub fn no_device_msg(op: &DeviceOp) -> (r: &'static str)
    ensures
        r@ == no_device_text(*op),
{
    match op {
        DeviceOp::Connect => "no AirPods paired — run 'podctl pair' first.",
        DeviceOp::Unpair => "nothing to unpair.",
        _ => "no AirPods paired.",
    }
}

/// The answer to a job that ran: `Done`, or the job's error.
pub fn finish(result: Result<(), String>) -> (r: Response)
    ensures
        match result {
            Ok(_) => r == Response::Done,
            Err(e) => r == Response::Error(e),
        },
{
    match result {
        Ok(_) => Response::Done,
        Err(e) => Response::Error(e),
    }
}

pub open spec fn scan_failed_text(e: Seq<char>) -> Seq<char> {
    "scan failed: "@ + e
}

pub open spec fn nothing_new_text() -> Seq<char> {
    "no new AirPods spotted — make sure the case is open and the LED blinks white."@
}

/// The address to pair after a scan, or the answer when there is none:
/// the scan's error, or that every AirPods found is paired already.
pub fn pair_choice(scan: Result<Vec<DeviceSummary>, String>) -> (r: Result<String, Response>)
    ensures
        match scan {
            Err(e) => r matches Err(Response::Error(m)) && m@ == scan_failed_text(e@),
            Ok(found) => match r {
                Ok(a) => exists|i: int|
                    0 <= i < found@.len() && !(#[trigger] found@[i]).paired && a
                        == found@[i].address && forall|j: int| 0 <= j < i ==> found@[j].paired,
                Err(resp) => (resp matches Response::Error(m) && m@ == nothing_new_text())
                    && forall|i: int| 0 <= i < found@.len() ==> (#[trigger] found@[i]).paired,
            },
        },
{
    match scan {
        Err(e) => {
            let mut m = owned("scan failed: ");
            push_str(&mut m, e.as_str());
            Err(Response::Error(m))
        },
        Ok(found) => match first_unpaired(&found) {
            Some(i) => Ok(found[i].address.clone()),
            None => Err(
                Response::err(
                    "no new AirPods spotted — make sure the case is open and the LED blinks white.",
                ),
            ),
        },
    }
}

} // verus!
