//! Event records with plain scalar payloads: rain start, lightning strike,
//! rapid wind, device status and hub status reports.

use vstd::prelude::*;

use crate::json::JsonNum;
use crate::vecs::clone_copy_vec;

verus! {

/// A station's rain start event: `evt` holds `[timestamp]`.
#[derive(Debug, PartialEq)]
pub struct RainStartEvent {
    pub serial_number: String,
    pub event_type: String,
    pub hub_sn: String,
    pub evt: Vec<u64>,
}

/// Both records read the same: equal identity strings and the same
/// event array.
pub open spec fn rain_eqv(a: RainStartEvent, b: RainStartEvent) -> bool {
    &&& a.serial_number == b.serial_number
    &&& a.event_type == b.event_type
    &&& a.hub_sn == b.hub_sn
    &&& a.evt@ == b.evt@
}

impl Clone for RainStartEvent {
    fn clone(&self) -> (r: Self)
        ensures
            rain_eqv(r, *self),
    {
        RainStartEvent {
            serial_number: self.serial_number.clone(),
            event_type: self.event_type.clone(),
            hub_sn: self.hub_sn.clone(),
            evt: clone_copy_vec(&self.evt),
        }
    }
}

impl RainStartEvent {
    /// The station's serial number.
    pub fn get_serial_number(&self) -> (r: String)
        ensures
            r == self.serial_number,
    {
        self.serial_number.clone()
    }

    /// The serial number of the hub that relayed the event.
    pub fn get_hub_sn(&self) -> (r: String)
        ensures
            r == self.hub_sn,
    {
        self.hub_sn.clone()
    }

    /// When the rain started, in seconds since the epoch.
    pub fn get_timestamp(&self) -> (r: u64)
        requires
            self.evt@.len() >= 1,
        ensures
            r == self.evt@[0],
    {
        self.evt[0]
    }
}

/// A station's lightning strike event: `evt` holds
/// `[timestamp, distance, energy]`.
#[derive(Debug, PartialEq)]
pub struct LightningStrikeEvent {
    pub serial_number: String,
    pub event_type: String,
    pub hub_sn: String,
    pub evt: Vec<u64>,
}

/// Both records read the same: equal identity strings and the same
/// event array.
pub open spec fn lightning_eqv(a: LightningStrikeEvent, b: LightningStrikeEvent) -> bool {
    &&& a.serial_number == b.serial_number
    &&& a.event_type == b.event_type
    &&& a.hub_sn == b.hub_sn
    &&& a.evt@ == b.evt@
}

impl Clone for LightningStrikeEvent {
    fn clone(&self) -> (r: Self)
        ensures
            lightning_eqv(r, *self),
    {
        LightningStrikeEvent {
            serial_number: self.serial_number.clone(),
            event_type: self.event_type.clone(),
            hub_sn: self.hub_sn.clone(),
            evt: clone_copy_vec(&self.evt),
        }
    }
}

impl LightningStrikeEvent {
    /// The station's serial number.
    pub fn get_serial_number(&self) -> (r: String)
        ensures
            r == self.serial_number,
    {
        self.serial_number.clone()
    }

    /// The serial number of the hub that relayed the event.
    pub fn get_hub_sn(&self) -> (r: String)
        ensures
            r == self.hub_sn,
    {
        self.hub_sn.clone()
    }

    /// When the strike happened, in seconds since the epoch.
    pub fn get_timestamp(&self) -> (r: u64)
        requires
            self.evt@.len() >= 1,
        ensures
            r == self.evt@[0],
    {
        self.evt[0]
    }

    /// How far away the strike was, in kilometers.
    pub fn get_strike_distance(&self) -> (r: u64)
        requires
            self.evt@.len() >= 2,
        ensures
            r == self.evt@[1],
    {
        self.evt[1]
    }

    /// The strike's energy reading, in joules.
    pub fn get_strike_energy(&self) -> (r: u64)
        requires
            self.evt@.len() >= 3,
        ensures
            r == self.evt@[2],
    {
        self.evt[2]
    }
}

/// A station's rapid wind event: `ob` holds
/// `[timestamp, speed, direction]`.
#[derive(Debug, PartialEq)]
pub struct RapidWindEvent {
    pub serial_number: String,
    pub event_type: String,
    pub hub_sn: String,
    pub ob: Vec<JsonNum>,
}

/// Both records read the same: equal identity strings and the same
/// observation array.
pub open spec fn rapid_wind_eqv(a: RapidWindEvent, b: RapidWindEvent) -> bool {
    &&& a.serial_number == b.serial_number
    &&& a.event_type == b.event_type
    &&& a.hub_sn == b.hub_sn
    &&& a.ob@ == b.ob@
}

impl Clone for RapidWindEvent {
    fn clone(&self) -> (r: Self)
        ensures
            rapid_wind_eqv(r, *self),
    {
        RapidWindEvent {
            serial_number: self.serial_number.clone(),
            event_type: self.event_type.clone(),
            hub_sn: self.hub_sn.clone(),
            ob: clone_copy_vec(&self.ob),
        }
    }
}

impl RapidWindEvent {
    /// The station's serial number.
    pub fn get_serial_number(&self) -> (r: String)
        ensures
            r == self.serial_number,
    {
        self.serial_number.clone()
    }

    /// The serial number of the hub that relayed the event.
    pub fn get_hub_sn(&self) -> (r: String)
        ensures
            r == self.hub_sn,
    {
        self.hub_sn.clone()
    }

    /// When the sample was taken, in seconds since the epoch.
    pub fn get_timestamp(&self) -> (r: u64)
        requires
            self.ob@.len() >= 1,
        ensures
            r == self.ob@[0].spec_trunc_u64(),
    {
        self.ob[0].trunc_u64()
    }

    /// Wind speed in meters per second, as f32 bits.
    pub fn get_wind_speed_mps(&self) -> (r: u32)
        requires
            self.ob@.len() >= 2,
        ensures
            r == self.ob@[1].bits32,
    {
        self.ob[1].bits32
    }

    /// Wind direction in degrees.
    pub fn get_wind_direction(&self) -> (r: u16)
        requires
            self.ob@.len() >= 3,
        ensures
            r == self.ob@[2].spec_trunc_u16(),
    {
        self.ob[2].trunc_u16()
    }
}

/// A station's device status report. `voltage` carries the battery
/// voltage as f32 bits.
#[derive(Debug, PartialEq)]
pub struct DeviceStatusEvent {
    pub serial_number: String,
    pub event_type: String,
    pub hub_sn: String,
    pub timestamp: u64,
    pub uptime: u64,
    pub voltage: u32,
    pub firmware_revision: u16,
    pub rssi: i16,
    pub hub_rssi: i16,
    pub sensor_status: u32,
    pub debug: u8,
}

/// Both records read the same: equal identity strings and equal scalar
/// fields.
pub open spec fn device_status_eqv(a: DeviceStatusEvent, b: DeviceStatusEvent) -> bool {
    &&& a.serial_number == b.serial_number
    &&& a.event_type == b.event_type
    &&& a.hub_sn == b.hub_sn
    &&& a.timestamp == b.timestamp
    &&& a.uptime == b.uptime
    &&& a.voltage == b.voltage
    &&& a.firmware_revision == b.firmware_revision
    &&& a.rssi == b.rssi
    &&& a.hub_rssi == b.hub_rssi
    &&& a.sensor_status == b.sensor_status
    &&& a.debug == b.debug
}

impl Clone for DeviceStatusEvent {
    fn clone(&self) -> (r: Self)
        ensures
            device_status_eqv(r, *self),
    {
        DeviceStatusEvent {
            serial_number: self.serial_number.clone(),
            event_type: self.event_type.clone(),
            hub_sn: self.hub_sn.clone(),
            timestamp: self.timestamp,
            uptime: self.uptime,
            voltage: self.voltage,
            firmware_revision: self.firmware_revision,
            rssi: self.rssi,
            hub_rssi: self.hub_rssi,
            sensor_status: self.sensor_status,
            debug: self.debug,
        }
    }
}

impl DeviceStatusEvent {
    /// The station's serial number.
    pub fn get_serial_number(&self) -> (r: String)
        ensures
            r == self.serial_number,
    {
        self.serial_number.clone()
    }

    /// The serial number of the hub that relayed the report.
    pub fn get_hub_sn(&self) -> (r: String)
        ensures
            r == self.hub_sn,
    {
        self.hub_sn.clone()
    }

    /// When the report was made, in seconds since the epoch.
    pub fn get_timestamp(&self) -> (r: u64)
        ensures
            r == self.timestamp,
    {
        self.timestamp
    }

    /// How long the device has been up, in seconds.
    pub fn get_uptime(&self) -> (r: u64)
        ensures
            r == self.uptime,
    {
        self.uptime
    }

    /// The battery voltage, as f32 bits.
    pub fn get_battery_voltage(&self) -> (r: u32)
        ensures
            r == self.voltage,
    {
        self.voltage
    }

    /// The device's firmware revision.
    pub fn get_firmware_revision(&self) -> (r: u16)
        ensures
            r == self.firmware_revision,
    {
        self.firmware_revision
    }

    /// The device's radio signal strength.
    pub fn get_rssi(&self) -> (r: i16)
        ensures
            r == self.rssi,
    {
        self.rssi
    }

    /// The hub's radio signal strength as the device sees it.
    pub fn get_hub_rssi(&self) -> (r: i16)
        ensures
            r == self.hub_rssi,
    {
        self.hub_rssi
    }

    /// Whether the device reports debugging switched on.
    pub fn debugging_enabled(&self) -> (r: bool)
        ensures
            r == (self.debug != 0),
    {
        self.debug != 0
    }
}

/// A hub's own status report.
#[derive(Debug, PartialEq)]
pub struct HubStatusEvent {
    pub serial_number: String,
    pub event_type: String,
    pub firmware_revision: String,
    pub uptime: u64,
    pub rssi: i16,
    pub timestamp: u64,
    pub reset_flags: String,
    pub seq: u32,
    pub fs: Option<Vec<u32>>,
    pub radio_stats: Vec<u16>,
    pub mqtt_stats: Vec<u8>,
}

/// Both records read the same: equal strings, equal scalar fields, and
/// the same stats arrays.
pub open spec fn hub_status_eqv(a: HubStatusEvent, b: HubStatusEvent) -> bool {
    &&& a.serial_number == b.serial_number
    &&& a.event_type == b.event_type
    &&& a.firmware_revision == b.firmware_revision
    &&& a.uptime == b.uptime
    &&& a.rssi == b.rssi
    &&& a.timestamp == b.timestamp
    &&& a.reset_flags == b.reset_flags
    &&& a.seq == b.seq
    &&& match (a.fs, b.fs) {
        (Some(x), Some(y)) => x@ == y@,
        (None, None) => true,
        _ => false,
    }
    &&& a.radio_stats@ == b.radio_stats@
    &&& a.mqtt_stats@ == b.mqtt_stats@
}

impl Clone for HubStatusEvent {
    fn clone(&self) -> (r: Self)
        ensures
            hub_status_eqv(r, *self),
    {
        HubStatusEvent {
            serial_number: self.serial_number.clone(),
            event_type: self.event_type.clone(),
            firmware_revision: self.firmware_revision.clone(),
            uptime: self.uptime,
            rssi: self.rssi,
            timestamp: self.timestamp,
            reset_flags: self.reset_flags.clone(),
            seq: self.seq,
            fs: match &self.fs {
                Some(v) => Some(clone_copy_vec(v)),
                None => None,
            },
            radio_stats: clone_copy_vec(&self.radio_stats),
            mqtt_stats: clone_copy_vec(&self.mqtt_stats),
        }
    }
}

impl HubStatusEvent {
    /// When the report was made, in seconds since the epoch.
    pub fn get_timestamp(&self) -> (r: u64)
        ensures
            r == self.timestamp,
    {
        self.timestamp
    }

    /// The hub's serial number.
    pub fn get_serial_number(&self) -> (r: String)
        ensures
            r == self.serial_number,
    {
        self.serial_number.clone()
    }

    /// The hub's firmware revision.
    pub fn get_firmware_revision(&self) -> (r: String)
        ensures
            r == self.firmware_revision,
    {
        self.firmware_revision.clone()
    }

    /// How long the hub has been up, in seconds.
    pub fn get_uptime(&self) -> (r: u64)
        ensures
            r == self.uptime,
    {
        self.uptime
    }

    /// The hub's radio signal strength.
    pub fn get_rssi(&self) -> (r: i16)
        ensures
            r == self.rssi,
    {
        self.rssi
    }

    /// The raw comma-joined reset flags string.
    pub fn get_reset_flags(&self) -> (r: String)
        ensures
            r == self.reset_flags,
    {
        self.reset_flags.clone()
    }

    /// The radio firmware version, from slot 0 of the radio stats.
    pub fn get_radio_version(&self) -> (r: u16)
        requires
            self.radio_stats@.len() >= 1,
        ensures
            r == self.radio_stats@[0],
    {
        self.radio_stats[0]
    }

    /// How often the radio rebooted, from slot 1 of the radio stats.
    pub fn get_radio_reboot_count(&self) -> (r: u16)
        requires
            self.radio_stats@.len() >= 2,
        ensures
            r == self.radio_stats@[1],
    {
        self.radio_stats[1]
    }

    /// The radio's I2C bus error count, from slot 2 of the radio stats.
    pub fn get_radio_i2c_error_count(&self) -> (r: u16)
        requires
            self.radio_stats@.len() >= 3,
        ensures
            r == self.radio_stats@[2],
    {
        self.radio_stats[2]
    }

    /// The radio's status, decoded from the code in slot 3 of the radio
    /// stats; an unknown code reads as `Unknown`.
    pub fn get_radio_status(&self) -> (r: crate::data::RadioStatus)
        requires
            self.radio_stats@.len() >= 4,
        ensures
            r == crate::data::spec_radio_status_of_code(self.radio_stats@[3]),
    {
        crate::data::radio_status_of_code(self.radio_stats[3])
    }

    /// The radio's network id, from slot 4 of the radio stats.
    pub fn get_radio_network_id(&self) -> (r: u16)
        requires
            self.radio_stats@.len() >= 5,
        ensures
            r == self.radio_stats@[4],
    {
        self.radio_stats[4]
    }
}

} // verus!
