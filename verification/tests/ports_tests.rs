use serial_worker::ports::{serial_info_to_port, PortClass, UsbInfo};

fn sample_usb() -> UsbInfo {
    UsbInfo {
        vid: 0x1234,
        pid: 0x5678,
        serial: Some("SN01".to_string()),
        manufacturer: Some("Acme".to_string()),
        product: Some("Widget".to_string()),
    }
}

#[test]
fn usb_port_keeps_path_label_and_usb_fields() {
    let p = serial_info_to_port("/dev/ttyUSB0".to_string(), PortClass::Usb(sample_usb()));
    assert_eq!(p.path(), "/dev/ttyUSB0");
    assert_eq!(p.port_type(), "Usb");
    let info = p.usb_info().as_ref().expect("usb info expected");
    assert_eq!(info.vid(), 0x1234);
    assert_eq!(info.pid(), 0x5678);
    assert_eq!(info.serial().as_deref(), Some("SN01"));
    assert_eq!(info.manufacturer().as_deref(), Some("Acme"));
    assert_eq!(info.product().as_deref(), Some("Widget"));
}

#[test]
fn bluetooth_port_has_no_usb_info() {
    let p = serial_info_to_port("/dev/rfcomm0".to_string(), PortClass::Bluetooth);
    assert_eq!(p.port_type(), "Bluetooth");
    assert!(p.usb_info().is_none());
}

#[test]
fn pci_port_has_no_usb_info() {
    let p = serial_info_to_port("/dev/ttyS0".to_string(), PortClass::Pci);
    assert_eq!(p.port_type(), "Pci");
    assert!(p.usb_info().is_none());
}

#[test]
fn unknown_port_has_no_usb_info() {
    let p = serial_info_to_port("COM3".to_string(), PortClass::Unknown);
    assert_eq!(p.path(), "COM3");
    assert_eq!(p.port_type(), "Unknown");
    assert!(p.usb_info().is_none());
}
