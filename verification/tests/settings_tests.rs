use serial_worker::settings::{resolve_settings, DEFAULT_BAUD_RATE, DEFAULT_TIMEOUT_MS};
use serial_worker::types::{DataBits, FlowControl, Parity, PortSettings, StopBits};

fn empty_settings() -> PortSettings {
    PortSettings {
        baud_rate: None,
        timeout_ms: None,
        data_bits: None,
        parity: None,
        stop_bits: None,
        flow_control: None,
    }
}

#[test]
fn resolve_without_settings_gives_all_defaults() {
    let r = resolve_settings(None);
    assert_eq!(r.baud_rate, 115200);
    assert_eq!(r.timeout_ms, 10);
    assert_eq!(r.data_bits, DataBits::Eight);
    assert_eq!(r.parity, Parity::Disabled);
    assert_eq!(r.stop_bits, StopBits::One);
    assert_eq!(r.flow_control, FlowControl::Disabled);
}

#[test]
fn resolve_empty_record_gives_all_defaults() {
    let r = resolve_settings(Some(empty_settings()));
    assert_eq!(r.baud_rate, DEFAULT_BAUD_RATE);
    assert_eq!(r.timeout_ms, DEFAULT_TIMEOUT_MS);
    assert_eq!(r.data_bits, DataBits::Eight);
    assert_eq!(r.parity, Parity::Disabled);
    assert_eq!(r.stop_bits, StopBits::One);
    assert_eq!(r.flow_control, FlowControl::Disabled);
}

#[test]
fn partial_settings_do_not_reset_unrelated_fields() {
    let mut s = empty_settings();
    s.baud_rate = Some(9600);
    s.parity = Some(Parity::Even);
    let r = resolve_settings(Some(s));
    assert_eq!(r.baud_rate, 9600);
    assert_eq!(r.parity, Parity::Even);
    assert_eq!(r.timeout_ms, DEFAULT_TIMEOUT_MS);
    assert_eq!(r.data_bits, DataBits::Eight);
    assert_eq!(r.stop_bits, StopBits::One);
    assert_eq!(r.flow_control, FlowControl::Disabled);
}

#[test]
fn full_settings_are_kept_verbatim() {
    let s = PortSettings {
        baud_rate: Some(57600),
        timeout_ms: Some(250),
        data_bits: Some(DataBits::Seven),
        parity: Some(Parity::Odd),
        stop_bits: Some(StopBits::Two),
        flow_control: Some(FlowControl::Hardware),
    };
    let r = resolve_settings(Some(s));
    assert_eq!(r.baud_rate, 57600);
    assert_eq!(r.timeout_ms, 250);
    assert_eq!(r.data_bits, DataBits::Seven);
    assert_eq!(r.parity, Parity::Odd);
    assert_eq!(r.stop_bits, StopBits::Two);
    assert_eq!(r.flow_control, FlowControl::Hardware);
}
