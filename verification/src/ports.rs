//! Device descriptors, as produced by enumeration.
//!
//! A descriptor is purely informational: it records what the operating
//! system reported at the moment of the query and says nothing about the
//! device still being there when an open is attempted. The enumeration query
//! itself is the platform's business; this module holds the verified shaping
//! of its plain answers — a port name and the reported kind — into the
//! caller-facing descriptor.

use vstd::prelude::*;

verus! {

/// USB-specific descriptor fields of an enumerated port.
#[derive(Clone, Debug)]
pub struct UsbInfo {
    pub vid: u16,
    pub pid: u16,
    pub serial: Option<String>,
    pub manufacturer: Option<String>,
    pub product: Option<String>,
}

impl UsbInfo {
    pub fn vid(&self) -> (r: u16)
        ensures
            r == self.vid,
    {
        self.vid
    }

    pub fn pid(&self) -> (r: u16)
        ensures
            r == self.pid,
    {
        self.pid
    }

    pub fn serial(&self) -> (r: &Option<String>)
        ensures
            r == &self.serial,
    {
        &self.serial
    }

    pub fn manufacturer(&self) -> (r: &Option<String>)
        ensures
            r == &self.manufacturer,
    {
        &self.manufacturer
    }

    pub fn product(&self) -> (r: &Option<String>)
        ensures
            r == &self.product,
    {
        &self.product
    }
}

/// The kind of port the operating system reported, reduced to plain values.
#[derive(Clone, Debug)]
pub enum PortClass {
    Usb(UsbInfo),
    Bluetooth,
    Pci,
    Unknown,
}

/// The caller-facing label of a port class.
pub open spec fn spec_class_label(class: PortClass) -> Seq<char> {
    match class {
        PortClass::Usb(_) => "Usb"@,
        PortClass::Bluetooth => "Bluetooth"@,
        PortClass::Pci => "Pci"@,
        PortClass::Unknown => "Unknown"@,
    }
}

/// The USB fields a port class carries, if any.
pub open spec fn spec_class_usb(class: PortClass) -> Option<UsbInfo> {
    match class {
        PortClass::Usb(info) => Some(info),
        _ => Option::<UsbInfo>::None,
    }
}

/// An enumerated port: its path (the OS-specific identifier handed to an
/// open), the kind label, and USB fields where the kind is USB.
#[derive(Clone, Debug)]
pub struct Port {
    pub path: String,
    pub port_type: String,
    pub usb_info: Option<UsbInfo>,
}

impl Port {
    pub fn path(&self) -> (r: &String)
        ensures
            r == &self.path,
    {
        &self.path
    }

    pub fn port_type(&self) -> (r: &String)
        ensures
            r == &self.port_type,
    {
        &self.port_type
    }

    pub fn usb_info(&self) -> (r: &Option<UsbInfo>)
        ensures
            r == &self.usb_info,
    {
        &self.usb_info
    }
}

/// Shape one enumeration answer — a port name and the reported kind — into
/// a descriptor: the path is kept as given, the kind becomes its label, and
/// USB fields are carried over exactly where the kind is USB.
pub fn serial_info_to_port(port_name: String, class: PortClass) -> (p: Port)
    ensures
        p.path == port_name,
        p.port_type@ == spec_class_label(class),
        p.usb_info == spec_class_usb(class),
{
    match class {
        PortClass::Usb(info) => Port {
            path: port_name,
            port_type: "Usb".to_string(),
            usb_info: Some(info),
        },
        PortClass::Bluetooth => Port {
            path: port_name,
            port_type: "Bluetooth".to_string(),
            usb_info: Option::None,
        },
        PortClass::Pci => Port {
            path: port_name,
            port_type: "Pci".to_string(),
            usb_info: Option::None,
        },
        PortClass::Unknown => Port {
            path: port_name,
            port_type: "Unknown".to_string(),
            usb_info: Option::None,
        },
    }
}

} // verus!
