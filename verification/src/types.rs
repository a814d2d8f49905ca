//! Connection parameters and the worker-directed command protocol.

use vstd::prelude::*;

verus! {

/// Number of data bits per character frame.
#[derive(Clone, Copy, Debug, PartialEq, Eq, Structural)]
pub enum DataBits {
    Five,
    Six,
    Seven,
    Eight,
}

/// Parity checking mode.
#[derive(Clone, Copy, Debug, PartialEq, Eq, Structural)]
pub enum Parity {
    Disabled,
    Odd,
    Even,
}

/// Number of stop bits per character frame.
#[derive(Clone, Copy, Debug, PartialEq, Eq, Structural)]
pub enum StopBits {
    One,
    Two,
}

/// Flow-control discipline on the line.
#[derive(Clone, Copy, Debug, PartialEq, Eq, Structural)]
pub enum FlowControl {
    Disabled,
    Software,
    Hardware,
}

/// Caller-supplied connection parameters. Every field is optional; a missing
/// field is filled with its documented default when the settings are resolved
/// (see [`crate::settings::resolve_settings`]). Settings are immutable once a
/// device is opened; re-opening is the only way to change them.
#[derive(Clone, Copy, Debug)]
pub struct PortSettings {
    pub baud_rate: Option<u32>,
    /// Read timeout in milliseconds.
    pub timeout_ms: Option<u32>,
    pub data_bits: Option<DataBits>,
    pub parity: Option<Parity>,
    pub stop_bits: Option<StopBits>,
    pub flow_control: Option<FlowControl>,
}

/// A command sent to the worker that owns the serial device. Commands are
/// serviced strictly in send order: a `Write` sent before `Shutdown` is
/// attempted at the device before the worker exits.
#[derive(Clone, Debug)]
pub enum Command {
    Write(Vec<u8>),
    Shutdown,
}

/// USB-specific descriptor fields, as reported by device enumeration.
/// Purely descriptive: it does not represent liveness of the device.
#[derive(Clone, Debug)]
pub struct UsbInfo {
    pub vid: u16,
    pub pid: u16,
    pub serial: Option<String>,
    pub manufacturer: Option<String>,
    pub product: Option<String>,
}

impl Command {
    /// The payload of a `Write` command; the empty sequence for `Shutdown`.
    pub open spec fn payload(self) -> Seq<u8> {
        match self {
            Command::Write(data) => data@,
            Command::Shutdown => Seq::empty(),
        }
    }

    /// Whether this command carries bytes for the device.
    pub open spec fn is_write(self) -> bool {
        self matches Command::Write(_)
    }
}

} // verus!
