//! Resolution of caller-supplied settings into a fully-populated
//! configuration.
//!
//! Each field defaults independently: supplying a partial record fills only
//! the missing fields and never resets the supplied ones. Resolution is
//! total — it has no failure case; a value outside the native range (such as
//! a baud rate of zero) is detected by the underlying open call, so that
//! failure surfaces at open time, not here.

use vstd::prelude::*;

use crate::types::{DataBits, FlowControl, Parity, PortSettings, StopBits};

verus! {

pub const DEFAULT_BAUD_RATE: u32 = 115200;
pub const DEFAULT_TIMEOUT_MS: u32 = 10;

/// A fully-populated configuration: by construction, no field of a resolved
/// configuration can be unset.
#[derive(Clone, Copy, Debug)]
pub struct ResolvedSettings {
    pub baud_rate: u32,
    /// Read timeout in milliseconds.
    pub timeout_ms: u32,
    pub data_bits: DataBits,
    pub parity: Parity,
    pub stop_bits: StopBits,
    pub flow_control: FlowControl,
}

/// The default configuration: 115200 baud, 10 ms read timeout, 8 data bits,
/// no parity, one stop bit, no flow control.
pub open spec fn spec_default_settings() -> ResolvedSettings {
    ResolvedSettings {
        baud_rate: DEFAULT_BAUD_RATE,
        timeout_ms: DEFAULT_TIMEOUT_MS,
        data_bits: DataBits::Eight,
        parity: Parity::Disabled,
        stop_bits: StopBits::One,
        flow_control: FlowControl::Disabled,
    }
}

/// What resolution returns: field by field, the supplied value where there is
/// one, the default otherwise.
pub open spec fn spec_resolve(settings: Option<PortSettings>) -> ResolvedSettings {
    match settings {
        Option::None => spec_default_settings(),
        Option::Some(s) => ResolvedSettings {
            baud_rate: match s.baud_rate {
                Option::Some(b) => b,
                Option::None => DEFAULT_BAUD_RATE,
            },
            timeout_ms: match s.timeout_ms {
                Option::Some(t) => t,
                Option::None => DEFAULT_TIMEOUT_MS,
            },
            data_bits: match s.data_bits {
                Option::Some(d) => d,
                Option::None => DataBits::Eight,
            },
            parity: match s.parity {
                Option::Some(p) => p,
                Option::None => Parity::Disabled,
            },
            stop_bits: match s.stop_bits {
                Option::Some(sb) => sb,
                Option::None => StopBits::One,
            },
            flow_control: match s.flow_control {
                Option::Some(f) => f,
                Option::None => FlowControl::Disabled,
            },
        },
    }
}

/// Resolve caller-supplied settings into a fully-populated configuration,
/// applying the documented default to each missing field independently.
pub fn resolve_settings(settings: Option<PortSettings>) -> (r: ResolvedSettings)
    ensures
        r == spec_resolve(settings),
{
    match settings {
        Option::None => ResolvedSettings {
            baud_rate: DEFAULT_BAUD_RATE,
            timeout_ms: DEFAULT_TIMEOUT_MS,
            data_bits: DataBits::Eight,
            parity: Parity::Disabled,
            stop_bits: StopBits::One,
            flow_control: FlowControl::Disabled,
        },
        Option::Some(s) => ResolvedSettings {
            baud_rate: match s.baud_rate {
                Option::Some(b) => b,
                Option::None => DEFAULT_BAUD_RATE,
            },
            timeout_ms: match s.timeout_ms {
                Option::Some(t) => t,
                Option::None => DEFAULT_TIMEOUT_MS,
            },
            data_bits: match s.data_bits {
                Option::Some(d) => d,
                Option::None => DataBits::Eight,
            },
            parity: match s.parity {
                Option::Some(p) => p,
                Option::None => Parity::Disabled,
            },
            stop_bits: match s.stop_bits {
                Option::Some(sb) => sb,
                Option::None => StopBits::One,
            },
            flow_control: match s.flow_control {
                Option::Some(f) => f,
                Option::None => FlowControl::Disabled,
            },
        },
    }
}

/// Totality of defaulting: for every caller-supplied record, each field of
/// the resolved configuration is pinned down — it equals the supplied value
/// where one was given and the documented default otherwise, and the fields
/// default independently of one another.
pub proof fn lemma_resolution_total(settings: Option<PortSettings>)
    ensures
        settings is None ==> spec_resolve(settings) == spec_default_settings(),
        settings matches Some(s) ==> {
            let r = spec_resolve(settings);
            &&& r.baud_rate == (if s.baud_rate is Some { s.baud_rate->0 } else { DEFAULT_BAUD_RATE })
            &&& r.timeout_ms == (if s.timeout_ms is Some { s.timeout_ms->0 } else { DEFAULT_TIMEOUT_MS })
            &&& r.data_bits == (if s.data_bits is Some { s.data_bits->0 } else { DataBits::Eight })
            &&& r.parity == (if s.parity is Some { s.parity->0 } else { Parity::Disabled })
            &&& r.stop_bits == (if s.stop_bits is Some { s.stop_bits->0 } else { StopBits::One })
            &&& r.flow_control == (if s.flow_control is Some { s.flow_control->0 } else { FlowControl::Disabled })
        },
{
}

} // verus!
