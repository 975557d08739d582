use podctl::bluez::DeviceSummary;
use podctl::ipc::{Request, Response};
use podctl::model::Mode;
use podctl::standalone::{
    dispatch, finish, no_card_msg, no_device_msg, no_sink_msg, pair_choice, CardOp, DeviceOp,
    Plan, SinkOp,
};

#[test]
fn plans_without_the_daemon() {
    assert!(matches!(dispatch(&Request::Battery), Plan::Status));
    assert!(matches!(dispatch(&Request::SetVolume { percent: 3 }), Plan::Sink(SinkOp::Volume(3))));
    assert!(matches!(
        dispatch(&Request::SetCodec { codec: "aac".to_string() }),
        Plan::Card(CardOp::Codec(c)) if c == "aac"
    ));
    assert!(matches!(dispatch(&Request::SetAutoConnect { on: true }), Plan::Device(DeviceOp::Trust(true))));
    match dispatch(&Request::SetMode { mode: Mode::Off }) {
        Plan::Reply(Response::Error(m)) => assert_eq!(
            m,
            "this setting changes a value on the AirPods themselves — needs the daemon. run 'podctl setup' to install."
        ),
        _ => panic!("needs daemon"),
    }
    match dispatch(&Request::Rename { name: "".to_string() }) {
        Plan::Reply(Response::Error(m)) => assert_eq!(m, "name cannot be empty"),
        _ => panic!("rename"),
    }
    assert!(matches!(
        dispatch(&Request::Rename { name: "Pods".to_string() }),
        Plan::Device(DeviceOp::Rename(n)) if n == "Pods"
    ));
}

#[test]
fn missing_devices_and_results() {
    assert_eq!(no_sink_msg(SinkOp::Volume(1)), "no AirPods audio sink found — connect them first.");
    assert_eq!(no_sink_msg(SinkOp::MakeDefault), "no AirPods audio sink found.");
    assert_eq!(no_card_msg(), "no AirPods card found.");
    assert_eq!(no_device_msg(&DeviceOp::Connect), "no AirPods paired — run 'podctl pair' first.");
    assert_eq!(no_device_msg(&DeviceOp::Unpair), "nothing to unpair.");
    assert!(matches!(finish(Ok(())), Response::Done));
    assert!(matches!(finish(Err("e".to_string())), Response::Error(m) if m == "e"));
}

#[test]
fn pairing_choice() {
    match pair_choice(Err("no adapter".to_string())) {
        Err(Response::Error(m)) => assert_eq!(m, "scan failed: no adapter"),
        _ => panic!("scan error"),
    }
    let d = DeviceSummary {
        address: "AA".to_string(),
        name: "n".to_string(),
        connected: false,
        trusted: false,
        paired: true,
        modalias: None,
        icon: None,
    };
    match pair_choice(Ok(vec![d.clone()])) {
        Err(Response::Error(m)) => assert_eq!(
            m,
            "no new AirPods spotted — make sure the case is open and the LED blinks white."
        ),
        _ => panic!("nothing new"),
    }
    let mut n = d.clone();
    n.paired = false;
    n.address = "BB".to_string();
    assert_eq!(pair_choice(Ok(vec![d, n])).unwrap(), "BB");
}
