//! The request/response vocabulary of the daemon's Unix socket.

use vstd::prelude::*;

use crate::model::{
    ConvAwareness, DeviceState, Event, MicSelection, Mode, PairedDevice, PressAction, Profile,
    SpatialAudio,
};
use crate::text::{decimal, decimal_chars, owned, push_chars, push_str};

verus! {

/// Where the daemon listens: `$XDG_RUNTIME_DIR/podctl.sock`, or
/// `/tmp/podctl-<uid>.sock` when that variable is unset.
pub open spec fn socket_path_of(runtime_dir: Option<Seq<char>>, uid: u32) -> Seq<char> {
    match runtime_dir {
        Some(dir) => if dir.len() == 0 || dir.last() == '/' {
            dir + "podctl.sock"@
        } else {
            dir + "/podctl.sock"@
        },
        None => "/tmp/podctl-"@ + decimal(uid as nat) + ".sock"@,
    }
}

/// The socket path for the given `XDG_RUNTIME_DIR` value and user id
/// (the caller reads both from the process environment).
pub fn socket_path(runtime_dir: Option<&str>, uid: u32) -> (p: String)
    ensures
        p@ == socket_path_of(
            match runtime_dir {
                Some(d) => Some(d@),
                None => None,
            },
            uid,
        ),
{
    match runtime_dir {
        Some(dir) => {
            let mut p = owned(dir);
            let v = crate::text::chars_of(dir);
            if v.len() == 0 || v[v.len() - 1] == '/' {
                push_str(&mut p, "podctl.sock");
            } else {
                push_str(&mut p, "/podctl.sock");
            }
            p
        },
        None => {
            let mut p = owned("/tmp/podctl-");
            push_chars(&mut p, &decimal_chars(uid as u64));
            push_str(&mut p, ".sock");
            p
        },
    }
}

#[derive(Clone, Copy, Debug, PartialEq, Eq, Structural)]
pub enum PressSide {
    Left,
    Right,
}

/// One request line from a client.
#[derive(Clone, Debug)]
pub enum Request {
    Status,
    Battery,
    Ping,
    SetMode { mode: Mode },
    SetConv { conv: ConvAwareness },
    SetSpatial { mode: SpatialAudio },
    SetEarDetection { on: bool },
    SetMic { mic: MicSelection },
    SetLoudReduction { on: bool },
    SetPressAction { side: PressSide, action: PressAction },
    SetToneOnPress { on: bool },
    Rename { name: String },
    Connect,
    Disconnect,
    Pair,
    Unpair,
    List,
    SetAutoConnect { on: bool },
    SetVolume { percent: u8 },
    SetMuted { muted: bool },
    SetProfile { profile: Profile },
    SetCodec { codec: String },
    MakeDefaultSink,
    SetLatencyOffset { ms: i32 },
    SetOneBudAnc { on: bool },
    SetChimeVolume { level: u8 },
    SetAutoAncLevel { level: u8 },
    DebugEmitCaseLid { open: bool },
    ShowPopup,
    Watch,
}

/// One response line to a client.
#[derive(Clone, Debug)]
pub enum Response {
    State(DeviceState),
    List(Vec<PairedDevice>),
    Event(Event),
    Pong,
    Done,
    Pending(String),
    Error(String),
}

/// Former name of [`Response`].
pub type OkPayload = Response;

impl Response {
    pub fn ok_state(s: DeviceState) -> (r: Response)
        ensures
            r == Response::State(s),
    {
        Response::State(s)
    }

    pub fn ok_list(v: Vec<PairedDevice>) -> (r: Response)
        ensures
            r == Response::List(v),
    {
        Response::List(v)
    }

    pub fn ok_done() -> (r: Response)
        ensures
            r == Response::Done,
    {
        Response::Done
    }

    pub fn ok_pending(reason: &str) -> (r: Response)
        ensures
            r matches Response::Pending(m) && m@ == reason@,
    {
        Response::Pending(owned(reason))
    }

    pub fn ok_pong() -> (r: Response)
        ensures
            r == Response::Pong,
    {
        Response::Pong
    }

    pub fn ok_event(e: Event) -> (r: Response)
        ensures
            r == Response::Event(e),
    {
        Response::Event(e)
    }

    pub fn err(msg: &str) -> (r: Response)
        ensures
            r matches Response::Error(m) && m@ == msg@,
    {
        Response::Error(owned(msg))
    }

    pub fn is_err(&self) -> (b: bool)
        ensures
            b == (self is Error),
    {
        match self {
            Response::Error(_) => true,
            _ => false,
        }
    }
}

} // verus!
