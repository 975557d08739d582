use podctl::meter::{arg_value, monitor_source, peak_of, window_bytes};

fn args(v: &[&str]) -> Vec<String> {
    v.iter().map(|s| s.to_string()).collect()
}

#[test]
fn option_values() {
    assert_eq!(arg_value(&args(&["--interval", "250"]), "--interval").as_deref(), Some("250"));
    assert_eq!(arg_value(&args(&["--interval=50"]), "--interval").as_deref(), Some("50"));
    assert_eq!(arg_value(&args(&["--interval"]), "--interval"), None);
    assert_eq!(arg_value(&args(&["--once"]), "--interval"), None);
}

#[test]
fn monitor_and_window() {
    let out = "0\talsa_output.monitor\tx\n5\tbluez_output.AA_BB.1.monitor\tx\n";
    assert_eq!(monitor_source(out).as_deref(), Some("bluez_output.AA_BB.1.monitor"));
    assert_eq!(monitor_source("garbage\n5\tbluez_output.A.monitor"), None);
    assert_eq!(window_bytes(100), 4410 * 4);
    assert_eq!(peak_of(&[0x00, 0x80, 0x10, 0x00, 0xFF]), 32768);
    assert_eq!(peak_of(&[0xFF, 0xFF, 0x02, 0x00]), 2);
    assert_eq!(peak_of(&[]), 0);
}
