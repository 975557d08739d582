//! Control AirPods on Linux: the Apple Accessory Protocol codec, the device
//! model, and the decisions the daemon, CLI, tray and popup make on it.

pub mod aap;
pub mod audio;
pub mod bluez;
pub mod caps;
pub mod cli;
pub mod daemon;
pub mod diag;
pub mod exitcode;
pub mod ipc;
pub mod l2cap;
pub mod meter;
pub mod model;
pub mod popup;
pub mod report;
pub mod standalone;
pub mod text;
pub mod tray;

pub use caps::{Capabilities, Model};
pub use model::{
    AudioState, Battery, BtState, ConvAwareness, DeviceInfo, DeviceState, EarStatus, Event, InEar,
    MicSelection, Mode, PairedDevice, PodSettings, PressAction, PressCounts, PressKind, Profile,
    Side, SpatialAudio,
};
pub use ipc::{OkPayload, PressSide, Request, Response, socket_path};
