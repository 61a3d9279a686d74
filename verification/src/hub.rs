//! The cached record of a relay hub, built fresh from each hub status
//! event.

use vstd::prelude::*;

use crate::data::RadioStatus;
use crate::events::HubStatusEvent;
use crate::strutil::spec_split_commas;
use crate::strutil::split_commas;
use crate::strutil::views_of;
use crate::vecs::clone_copy_vec;
use crate::vecs::clone_strings;

verus! {

/// Radio subsystem statistics from a hub status event.
#[derive(Clone, Copy, Debug, PartialEq, Eq, Structural)]
pub struct RadioStats {
    pub version: u16,
    pub reboot_count: u16,
    pub i2c_bus_error_count: u16,
    pub radio_status: RadioStatus,
    pub radio_network_id: u16,
}

/// How a hub record reads a radio status code: 0 is off, 1 is on, 2 and
/// 3 both read as active, 7 is a BLE connection, and a code outside
/// that set reads as `Unknown` — never silently as a default state.
/// Whether a report carrying such a code should instead be rejected
/// outright is an open product question; until it is settled the record
/// keeps the report and marks the radio state unknown.
pub open spec fn spec_hub_radio_status_of_code(c: u16) -> RadioStatus {
    if c == 0 {
        RadioStatus::RadioOff
    } else if c == 1 {
        RadioStatus::RadioOn
    } else if c == 2 || c == 3 {
        RadioStatus::RadioActive
    } else if c == 7 {
        RadioStatus::BLEConnected
    } else {
        RadioStatus::Unknown
    }
}

/// Slot `i` of a radio stats array, with 0 standing in for a missing
/// slot.
pub open spec fn spec_radio_slot(radio: Seq<u16>, i: int) -> u16 {
    if i < radio.len() {
        radio[i]
    } else {
        0
    }
}

/// The radio statistics a hub record keeps, read from the positional
/// radio stats array of a hub status event.
pub open spec fn spec_radio_stats_of(radio: Seq<u16>) -> RadioStats {
    RadioStats {
        version: spec_radio_slot(radio, 0),
        reboot_count: spec_radio_slot(radio, 1),
        i2c_bus_error_count: spec_radio_slot(radio, 2),
        radio_status: spec_hub_radio_status_of_code(spec_radio_slot(radio, 3)),
        radio_network_id: spec_radio_slot(radio, 4),
    }
}

/// A cached hub record.
#[derive(Debug, PartialEq)]
pub struct Hub {
    pub serial_number: String,
    pub firmware_revision: String,
    pub uptime: u64,
    pub rssi: i16,
    pub timestamp: u64,
    pub reset_flags: Vec<String>,
    pub seq: u32,
    pub fs: Option<Vec<u32>>,
    pub radio_stats: RadioStats,
    pub mqtt_stats: Vec<u8>,
}

/// Both records read the same: equal strings, equal scalar fields, the
/// same reset flag tokens and the same stats.
pub open spec fn hub_eqv(a: Hub, b: Hub) -> bool {
    &&& a.serial_number == b.serial_number
    &&& a.firmware_revision == b.firmware_revision
    &&& a.uptime == b.uptime
    &&& a.rssi == b.rssi
    &&& a.timestamp == b.timestamp
    &&& a.reset_flags@ == b.reset_flags@
    &&& a.seq == b.seq
    &&& match (a.fs, b.fs) {
        (Some(x), Some(y)) => x@ == y@,
        (None, None) => true,
        _ => false,
    }
    &&& a.radio_stats == b.radio_stats
    &&& a.mqtt_stats@ == b.mqtt_stats@
}

impl Clone for Hub {
    fn clone(&self) -> (r: Self)
        ensures
            hub_eqv(r, *self),
    {
        Hub {
            serial_number: self.serial_number.clone(),
            firmware_revision: self.firmware_revision.clone(),
            uptime: self.uptime,
            rssi: self.rssi,
            timestamp: self.timestamp,
            reset_flags: clone_strings(&self.reset_flags),
            seq: self.seq,
            fs: match &self.fs {
                Some(v) => Some(clone_copy_vec(v)),
                None => None,
            },
            radio_stats: self.radio_stats,
            mqtt_stats: clone_copy_vec(&self.mqtt_stats),
        }
    }
}

/// The hub record `h` is the one a hub status event `evt` builds: every
/// field carried over, the reset flags string split on commas, and the
/// radio stats read positionally.
pub open spec fn hub_built_from(h: Hub, evt: HubStatusEvent) -> bool {
    &&& h.serial_number == evt.serial_number
    &&& h.firmware_revision == evt.firmware_revision
    &&& h.uptime == evt.uptime
    &&& h.rssi == evt.rssi
    &&& h.timestamp == evt.timestamp
    &&& views_of(h.reset_flags@) == spec_split_commas(evt.reset_flags@)
    &&& h.seq == evt.seq
    &&& h.fs == evt.fs
    &&& h.radio_stats == spec_radio_stats_of(evt.radio_stats@)
    &&& h.mqtt_stats == evt.mqtt_stats
}

impl Hub {
    /// Builds the hub record that a hub status event describes.
    pub fn from_status(evt: HubStatusEvent) -> (h: Hub)
        ensures
            hub_built_from(h, evt),
    {
        let radio_status_code = if evt.radio_stats.len() > 3 {
            evt.radio_stats[3]
        } else {
            0
        };
        let radio_stats = RadioStats {
            version: if evt.radio_stats.len() > 0 {
                evt.radio_stats[0]
            } else {
                0
            },
            reboot_count: if evt.radio_stats.len() > 1 {
                evt.radio_stats[1]
            } else {
                0
            },
            i2c_bus_error_count: if evt.radio_stats.len() > 2 {
                evt.radio_stats[2]
            } else {
                0
            },
            radio_status: match radio_status_code {
                0 => RadioStatus::RadioOff,
                1 => RadioStatus::RadioOn,
                2 => RadioStatus::RadioActive,
                3 => RadioStatus::RadioActive,
                7 => RadioStatus::BLEConnected,
                _ => RadioStatus::Unknown,
            },
            radio_network_id: if evt.radio_stats.len() > 4 {
                evt.radio_stats[4]
            } else {
                0
            },
        };
        let reset_flags = split_commas(evt.reset_flags.as_str());
        Hub {
            serial_number: evt.serial_number,
            firmware_revision: evt.firmware_revision,
            uptime: evt.uptime,
            rssi: evt.rssi,
            timestamp: evt.timestamp,
            reset_flags,
            seq: evt.seq,
            fs: evt.fs,
            radio_stats,
            mqtt_stats: evt.mqtt_stats,
        }
    }
}

impl vstd::std_specs::convert::FromSpecImpl<HubStatusEvent> for Hub {
    open spec fn obeys_from_spec() -> bool {
        false
    }

    open spec fn from_spec(evt: HubStatusEvent) -> Hub {
        arbitrary()
    }
}

impl From<HubStatusEvent> for Hub {
    /// Builds the hub record that a hub status event describes.
    fn from(evt: HubStatusEvent) -> (h: Hub)
        ensures
            hub_built_from(h, evt),
    {
        Hub::from_status(evt)
    }
}

} // verus!
