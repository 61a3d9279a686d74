//! The cached record of a sensor station.
//!
//! A station record is created from the first event that mentions its
//! serial number and thereafter merged field by field: each event kind
//! overwrites only the fields it carries and stores itself in its
//! dedicated slot, leaving everything else untouched.

use vstd::prelude::*;

use crate::data::EventError;
use crate::data::PrecipitationType;
use crate::events::DeviceStatusEvent;
use crate::events::LightningStrikeEvent;
use crate::events::RainStartEvent;
use crate::events::RapidWindEvent;
use crate::events::device_status_eqv;
use crate::events::lightning_eqv;
use crate::events::rain_eqv;
use crate::events::rapid_wind_eqv;
use crate::obs::ObservationAirEvent;
use crate::obs::ObservationEvent;
use crate::obs::ObservationSkyEvent;
use crate::obs::air_eqv;
use crate::obs::observation_eqv;
use crate::obs::sky_eqv;
use crate::obs::spec_row_slot;
use crate::obs::spec_sky_slot;

verus! {

/// `Ok` as `Some`, any error as `None`.
pub open spec fn ok_or_none<T>(r: Result<T, EventError>) -> Option<T> {
    match r {
        Ok(v) => Some(v),
        Err(_) => None,
    }
}

/// The inner optional reading of an `Ok`, any error as `None`.
pub open spec fn flat_or_none<T>(r: Result<Option<T>, EventError>) -> Option<T> {
    match r {
        Ok(o) => o,
        Err(_) => None,
    }
}

/// A cached station record. Readings that came from float slots are
/// kept as f32 bits; an absent field means no event has supplied it
/// yet.
#[derive(Debug, PartialEq)]
pub struct Station {
    pub hub_sn: String,
    pub firmware_revision: Option<u16>,
    pub serial_number: String,
    pub battery_voltage: Option<u32>,
    pub air_temperature: Option<u32>,
    pub station_pressure: Option<u32>,
    pub relative_humidity: Option<u32>,
    pub lightning_strike_count: Option<u32>,
    pub lightning_strike_avg_distance: Option<u32>,
    pub illuminance: Option<u32>,
    pub uv: Option<u32>,
    pub rain_amount_prev_minute: Option<u32>,
    pub prev_rain_timestamp: Option<u64>,
    pub wind_lull: Option<u32>,
    pub wind_avg: Option<u32>,
    pub wind_gust: Option<u32>,
    pub wind_direction: Option<u32>,
    pub solar_radiation: Option<u32>,
    pub precipitation_type: Option<PrecipitationType>,
    pub observation: Option<ObservationEvent>,
    pub wind_event: Option<RapidWindEvent>,
    pub rain_event: Option<RainStartEvent>,
    pub lightning_event: Option<LightningStrikeEvent>,
    pub air_event: Option<ObservationAirEvent>,
    pub sky_event: Option<ObservationSkyEvent>,
    pub device_status: Option<DeviceStatusEvent>,
}

/// Both records read the same: equal identity and reading fields, and
/// slot events that read the same pairwise.
pub open spec fn station_eqv(a: Station, b: Station) -> bool {
    &&& a.hub_sn == b.hub_sn
    &&& a.firmware_revision == b.firmware_revision
    &&& a.serial_number == b.serial_number
    &&& a.battery_voltage == b.battery_voltage
    &&& a.air_temperature == b.air_temperature
    &&& a.station_pressure == b.station_pressure
    &&& a.relative_humidity == b.relative_humidity
    &&& a.lightning_strike_count == b.lightning_strike_count
    &&& a.lightning_strike_avg_distance == b.lightning_strike_avg_distance
    &&& a.illuminance == b.illuminance
    &&& a.uv == b.uv
    &&& a.rain_amount_prev_minute == b.rain_amount_prev_minute
    &&& a.prev_rain_timestamp == b.prev_rain_timestamp
    &&& a.wind_lull == b.wind_lull
    &&& a.wind_avg == b.wind_avg
    &&& a.wind_gust == b.wind_gust
    &&& a.wind_direction == b.wind_direction
    &&& a.solar_radiation == b.solar_radiation
    &&& a.precipitation_type == b.precipitation_type
    &&& match (a.observation, b.observation) {
        (Some(x), Some(y)) => observation_eqv(x, y),
        (None, None) => true,
        _ => false,
    }
    &&& match (a.wind_event, b.wind_event) {
        (Some(x), Some(y)) => rapid_wind_eqv(x, y),
        (None, None) => true,
        _ => false,
    }
    &&& match (a.rain_event, b.rain_event) {
        (Some(x), Some(y)) => rain_eqv(x, y),
        (None, None) => true,
        _ => false,
    }
    &&& match (a.lightning_event, b.lightning_event) {
        (Some(x), Some(y)) => lightning_eqv(x, y),
        (None, None) => true,
        _ => false,
    }
    &&& match (a.air_event, b.air_event) {
        (Some(x), Some(y)) => air_eqv(x, y),
        (None, None) => true,
        _ => false,
    }
    &&& match (a.sky_event, b.sky_event) {
        (Some(x), Some(y)) => sky_eqv(x, y),
        (None, None) => true,
        _ => false,
    }
    &&& match (a.device_status, b.device_status) {
        (Some(x), Some(y)) => device_status_eqv(x, y),
        (None, None) => true,
        _ => false,
    }
}

impl Clone for Station {
    fn clone(&self) -> (r: Self)
        ensures
            station_eqv(r, *self),
    {
        Station {
            hub_sn: self.hub_sn.clone(),
            firmware_revision: self.firmware_revision,
            serial_number: self.serial_number.clone(),
            battery_voltage: self.battery_voltage,
            air_temperature: self.air_temperature,
            station_pressure: self.station_pressure,
            relative_humidity: self.relative_humidity,
            lightning_strike_count: self.lightning_strike_count,
            lightning_strike_avg_distance: self.lightning_strike_avg_distance,
            illuminance: self.illuminance,
            uv: self.uv,
            rain_amount_prev_minute: self.rain_amount_prev_minute,
            prev_rain_timestamp: self.prev_rain_timestamp,
            wind_lull: self.wind_lull,
            wind_avg: self.wind_avg,
            wind_gust: self.wind_gust,
            wind_direction: self.wind_direction,
            solar_radiation: self.solar_radiation,
            precipitation_type: self.precipitation_type,
            observation: match &self.observation {
                Some(e) => Some(e.clone()),
                None => None,
            },
            wind_event: match &self.wind_event {
                Some(e) => Some(e.clone()),
                None => None,
            },
            rain_event: match &self.rain_event {
                Some(e) => Some(e.clone()),
                None => None,
            },
            lightning_event: match &self.lightning_event {
                Some(e) => Some(e.clone()),
                None => None,
            },
            air_event: match &self.air_event {
                Some(e) => Some(e.clone()),
                None => None,
            },
            sky_event: match &self.sky_event {
                Some(e) => Some(e.clone()),
                None => None,
            },
            device_status: match &self.device_status {
                Some(e) => Some(e.clone()),
                None => None,
            },
        }
    }
}

/// A station with every field absent, under the given identity.
pub open spec fn spec_blank_station(serial_number: String, hub_sn: String) -> Station {
    Station {
        hub_sn: hub_sn,
        firmware_revision: None,
        serial_number: serial_number,
        battery_voltage: None,
        air_temperature: None,
        station_pressure: None,
        relative_humidity: None,
        lightning_strike_count: None,
        lightning_strike_avg_distance: None,
        illuminance: None,
        uv: None,
        rain_amount_prev_minute: None,
        prev_rain_timestamp: None,
        wind_lull: None,
        wind_avg: None,
        wind_gust: None,
        wind_direction: None,
        solar_radiation: None,
        precipitation_type: None,
        observation: None,
        wind_event: None,
        rain_event: None,
        lightning_event: None,
        air_event: None,
        sky_event: None,
        device_status: None,
    }
}

fn blank_station(serial_number: String, hub_sn: String) -> (s: Station)
    ensures
        s == spec_blank_station(serial_number, hub_sn),
{
    Station {
        hub_sn: hub_sn,
        firmware_revision: None,
        serial_number: serial_number,
        battery_voltage: None,
        air_temperature: None,
        station_pressure: None,
        relative_humidity: None,
        lightning_strike_count: None,
        lightning_strike_avg_distance: None,
        illuminance: None,
        uv: None,
        rain_amount_prev_minute: None,
        prev_rain_timestamp: None,
        wind_lull: None,
        wind_avg: None,
        wind_gust: None,
        wind_direction: None,
        solar_radiation: None,
        precipitation_type: None,
        observation: None,
        wind_event: None,
        rain_event: None,
        lightning_event: None,
        air_event: None,
        sky_event: None,
        device_status: None,
    }
}

/// The station a combined observation event creates when none is cached
/// for its serial number yet.
///
/// Note: on this creation path the lightning count and average-distance
/// slots are swapped relative to the merge path, the wind average reads
/// the gust slot, and the wind direction reads the solar-radiation
/// slot. Consumers observe these readings, so they are kept as they
/// are; the merge path's straight mappings are the ones to follow for
/// new fields.
pub open spec fn spec_station_from_observation(e: ObservationEvent) -> Station {
    Station {
        hub_sn: e.hub_sn,
        firmware_revision: Some(e.firmware_revision),
        serial_number: e.serial_number,
        battery_voltage: ok_or_none(spec_row_slot(e.obs, 16)),
        air_temperature: ok_or_none(spec_row_slot(e.obs, 7)),
        station_pressure: ok_or_none(spec_row_slot(e.obs, 6)),
        relative_humidity: ok_or_none(spec_row_slot(e.obs, 8)),
        lightning_strike_count: ok_or_none(spec_row_slot(e.obs, 14)),
        lightning_strike_avg_distance: ok_or_none(spec_row_slot(e.obs, 15)),
        illuminance: ok_or_none(spec_row_slot(e.obs, 9)),
        uv: ok_or_none(spec_row_slot(e.obs, 10)),
        rain_amount_prev_minute: ok_or_none(spec_row_slot(e.obs, 12)),
        prev_rain_timestamp: None,
        wind_lull: ok_or_none(spec_row_slot(e.obs, 1)),
        wind_avg: ok_or_none(spec_row_slot(e.obs, 3)),
        wind_gust: ok_or_none(spec_row_slot(e.obs, 3)),
        wind_direction: ok_or_none(spec_row_slot(e.obs, 11)),
        solar_radiation: ok_or_none(spec_row_slot(e.obs, 11)),
        precipitation_type: ok_or_none(e.spec_get_precip_type()),
        observation: Some(e),
        wind_event: None,
        rain_event: None,
        lightning_event: None,
        air_event: None,
        sky_event: None,
        device_status: None,
    }
}

/// A cached station after a combined observation event is merged into
/// it: identity, every summary reading and the observation slot are
/// refreshed, everything else keeps its value.
pub open spec fn spec_merge_observation(st: Station, e: ObservationEvent) -> Station {
    Station {
        hub_sn: e.hub_sn,
        firmware_revision: Some(e.firmware_revision),
        serial_number: e.serial_number,
        battery_voltage: ok_or_none(spec_row_slot(e.obs, 16)),
        station_pressure: ok_or_none(spec_row_slot(e.obs, 6)),
        air_temperature: ok_or_none(spec_row_slot(e.obs, 7)),
        relative_humidity: ok_or_none(spec_row_slot(e.obs, 8)),
        lightning_strike_count: ok_or_none(spec_row_slot(e.obs, 15)),
        lightning_strike_avg_distance: ok_or_none(spec_row_slot(e.obs, 14)),
        illuminance: ok_or_none(spec_row_slot(e.obs, 9)),
        uv: ok_or_none(spec_row_slot(e.obs, 10)),
        rain_amount_prev_minute: ok_or_none(spec_row_slot(e.obs, 12)),
        wind_lull: ok_or_none(spec_row_slot(e.obs, 1)),
        wind_avg: ok_or_none(spec_row_slot(e.obs, 2)),
        wind_gust: ok_or_none(spec_row_slot(e.obs, 3)),
        wind_direction: ok_or_none(spec_row_slot(e.obs, 4)),
        solar_radiation: ok_or_none(spec_row_slot(e.obs, 11)),
        precipitation_type: ok_or_none(e.spec_get_precip_type()),
        observation: Some(e),
        ..st
    }
}

/// The station a rapid wind event creates: identity and the wind event
/// slot only.
pub open spec fn spec_station_from_wind(e: RapidWindEvent) -> Station {
    Station {
        wind_event: Some(e),
        ..spec_blank_station(e.serial_number, e.hub_sn)
    }
}

/// A cached station after a rapid wind event: only the wind event slot
/// is replaced.
pub open spec fn spec_merge_wind(st: Station, e: RapidWindEvent) -> Station {
    Station { wind_event: Some(e), ..st }
}

/// The station a rain start event creates: identity, the rain start
/// timestamp when the event carries one, and the rain event slot.
pub open spec fn spec_station_from_rain(e: RainStartEvent) -> Station {
    Station {
        prev_rain_timestamp: if e.evt@.len() >= 1 {
            Some(e.evt@[0])
        } else {
            None
        },
        rain_event: Some(e),
        ..spec_blank_station(e.serial_number, e.hub_sn)
    }
}

/// A cached station after a rain start event: only the rain event slot
/// is replaced.
pub open spec fn spec_merge_rain(st: Station, e: RainStartEvent) -> Station {
    Station { rain_event: Some(e), ..st }
}

/// The station a lightning strike event creates: identity and the
/// lightning event slot only.
pub open spec fn spec_station_from_lightning(e: LightningStrikeEvent) -> Station {
    Station {
        lightning_event: Some(e),
        ..spec_blank_station(e.serial_number, e.hub_sn)
    }
}

/// A cached station after a lightning strike event: only the lightning
/// event slot is replaced.
pub open spec fn spec_merge_lightning(st: Station, e: LightningStrikeEvent) -> Station {
    Station { lightning_event: Some(e), ..st }
}

/// The station an air observation event creates when none is cached.
pub open spec fn spec_station_from_air(e: ObservationAirEvent) -> Station {
    Station {
        firmware_revision: Some(e.firmware_revision),
        battery_voltage: ok_or_none(spec_row_slot(e.obs, 6)),
        air_temperature: ok_or_none(spec_row_slot(e.obs, 2)),
        station_pressure: ok_or_none(spec_row_slot(e.obs, 1)),
        relative_humidity: ok_or_none(spec_row_slot(e.obs, 3)),
        lightning_strike_count: ok_or_none(spec_row_slot(e.obs, 4)),
        lightning_strike_avg_distance: ok_or_none(spec_row_slot(e.obs, 5)),
        air_event: Some(e),
        ..spec_blank_station(e.serial_number, e.hub_sn)
    }
}

/// A cached station after an air observation event is merged into it:
/// identity, the air readings and the air event slot are refreshed,
/// everything else keeps its value.
pub open spec fn spec_merge_air(st: Station, e: ObservationAirEvent) -> Station {
    Station {
        serial_number: e.serial_number,
        hub_sn: e.hub_sn,
        firmware_revision: Some(e.firmware_revision),
        battery_voltage: ok_or_none(spec_row_slot(e.obs, 6)),
        station_pressure: ok_or_none(spec_row_slot(e.obs, 1)),
        air_temperature: ok_or_none(spec_row_slot(e.obs, 2)),
        relative_humidity: ok_or_none(spec_row_slot(e.obs, 3)),
        lightning_strike_count: ok_or_none(spec_row_slot(e.obs, 4)),
        lightning_strike_avg_distance: ok_or_none(spec_row_slot(e.obs, 5)),
        air_event: Some(e),
        ..st
    }
}

/// The station a sky observation event creates when none is cached.
pub open spec fn spec_station_from_sky(e: ObservationSkyEvent) -> Station {
    Station {
        firmware_revision: Some(e.firmware_revision),
        battery_voltage: flat_or_none(spec_sky_slot(e.obs, 8)),
        illuminance: flat_or_none(spec_sky_slot(e.obs, 1)),
        uv: flat_or_none(spec_sky_slot(e.obs, 2)),
        rain_amount_prev_minute: flat_or_none(spec_sky_slot(e.obs, 3)),
        wind_lull: flat_or_none(spec_sky_slot(e.obs, 4)),
        wind_avg: flat_or_none(spec_sky_slot(e.obs, 5)),
        wind_gust: flat_or_none(spec_sky_slot(e.obs, 6)),
        wind_direction: flat_or_none(spec_sky_slot(e.obs, 7)),
        solar_radiation: flat_or_none(spec_sky_slot(e.obs, 10)),
        precipitation_type: ok_or_none(e.spec_get_precip_type()),
        sky_event: Some(e),
        ..spec_blank_station(e.serial_number, e.hub_sn)
    }
}

/// A cached station after a sky observation event is merged into it:
/// identity, the sky readings and the sky event slot are refreshed,
/// everything else keeps its value.
pub open spec fn spec_merge_sky(st: Station, e: ObservationSkyEvent) -> Station {
    Station {
        serial_number: e.serial_number,
        hub_sn: e.hub_sn,
        firmware_revision: Some(e.firmware_revision),
        battery_voltage: flat_or_none(spec_sky_slot(e.obs, 8)),
        illuminance: flat_or_none(spec_sky_slot(e.obs, 1)),
        uv: flat_or_none(spec_sky_slot(e.obs, 2)),
        rain_amount_prev_minute: flat_or_none(spec_sky_slot(e.obs, 3)),
        wind_lull: flat_or_none(spec_sky_slot(e.obs, 4)),
        wind_avg: flat_or_none(spec_sky_slot(e.obs, 5)),
        wind_gust: flat_or_none(spec_sky_slot(e.obs, 6)),
        wind_direction: flat_or_none(spec_sky_slot(e.obs, 7)),
        solar_radiation: flat_or_none(spec_sky_slot(e.obs, 10)),
        precipitation_type: ok_or_none(e.spec_get_precip_type()),
        sky_event: Some(e),
        ..st
    }
}

/// The station a device status event creates when none is cached.
pub open spec fn spec_station_from_device(e: DeviceStatusEvent) -> Station {
    Station {
        firmware_revision: Some(e.firmware_revision),
        battery_voltage: Some(e.voltage),
        device_status: Some(e),
        ..spec_blank_station(e.serial_number, e.hub_sn)
    }
}

/// A cached station after a device status event is merged into it:
/// identity, firmware, battery voltage and the device status slot are
/// refreshed, everything else keeps its value.
pub open spec fn spec_merge_device(st: Station, e: DeviceStatusEvent) -> Station {
    Station {
        serial_number: e.serial_number,
        hub_sn: e.hub_sn,
        firmware_revision: Some(e.firmware_revision),
        battery_voltage: Some(e.voltage),
        device_status: Some(e),
        ..st
    }
}

/// Merges a combined observation event into a cached station.
pub fn merge_observation(st: Station, e: ObservationEvent) -> (r: Station)
    ensures
        r == spec_merge_observation(st, e),
{
    let battery_voltage = match e.get_battery_voltage() {
        Ok(v) => Some(v),
        Err(_) => None,
    };
    let station_pressure = match e.get_station_pressure() {
        Ok(v) => Some(v),
        Err(_) => None,
    };
    let air_temperature = match e.get_air_temperature() {
        Ok(v) => Some(v),
        Err(_) => None,
    };
    let relative_humidity = match e.get_rh() {
        Ok(v) => Some(v),
        Err(_) => None,
    };
    let lightning_strike_count = match e.get_lightning_strike_count() {
        Ok(v) => Some(v),
        Err(_) => None,
    };
    let lightning_strike_avg_distance = match e.get_lightning_avg_distance() {
        Ok(v) => Some(v),
        Err(_) => None,
    };
    let illuminance = match e.get_illuminance() {
        Ok(v) => Some(v),
        Err(_) => None,
    };
    let uv = match e.get_uv() {
        Ok(v) => Some(v),
        Err(_) => None,
    };
    let rain_amount_prev_minute = match e.get_rain_amount_prev_min() {
        Ok(v) => Some(v),
        Err(_) => None,
    };
    let wind_lull = match e.get_wind_lull() {
        Ok(v) => Some(v),
        Err(_) => None,
    };
    let wind_avg = match e.get_wind_avg() {
        Ok(v) => Some(v),
        Err(_) => None,
    };
    let wind_gust = match e.get_wind_gust() {
        Ok(v) => Some(v),
        Err(_) => None,
    };
    let wind_direction = match e.get_wind_direction() {
        Ok(v) => Some(v),
        Err(_) => None,
    };
    let solar_radiation = match e.get_solar_radiation() {
        Ok(v) => Some(v),
        Err(_) => None,
    };
    let precipitation_type = match e.get_precip_type() {
        Ok(v) => Some(v),
        Err(_) => None,
    };
    Station {
        hub_sn: e.get_hub_sn(),
        firmware_revision: Some(e.get_firmware_revision()),
        serial_number: e.get_serial_number(),
        battery_voltage,
        station_pressure,
        air_temperature,
        relative_humidity,
        lightning_strike_count,
        lightning_strike_avg_distance,
        illuminance,
        uv,
        rain_amount_prev_minute,
        wind_lull,
        wind_avg,
        wind_gust,
        wind_direction,
        solar_radiation,
        precipitation_type,
        observation: Some(e),
        ..st
    }
}

/// Merges a rapid wind event into a cached station.
pub fn merge_wind(st: Station, e: RapidWindEvent) -> (r: Station)
    ensures
        r == spec_merge_wind(st, e),
{
    Station { wind_event: Some(e), ..st }
}

/// Merges a rain start event into a cached station.
pub fn merge_rain(st: Station, e: RainStartEvent) -> (r: Station)
    ensures
        r == spec_merge_rain(st, e),
{
    Station { rain_event: Some(e), ..st }
}

/// Merges a lightning strike event into a cached station.
pub fn merge_lightning(st: Station, e: LightningStrikeEvent) -> (r: Station)
    ensures
        r == spec_merge_lightning(st, e),
{
    Station { lightning_event: Some(e), ..st }
}

/// Merges an air observation event into a cached station.
pub fn merge_air(st: Station, e: ObservationAirEvent) -> (r: Station)
    ensures
        r == spec_merge_air(st, e),
{
    let battery_voltage = match e.get_battery_voltage() {
        Ok(v) => Some(v),
        Err(_) => None,
    };
    let station_pressure = match e.get_station_pressure() {
        Ok(v) => Some(v),
        Err(_) => None,
    };
    let air_temperature = match e.get_air_temperature() {
        Ok(v) => Some(v),
        Err(_) => None,
    };
    let relative_humidity = match e.get_relative_humidity() {
        Ok(v) => Some(v),
        Err(_) => None,
    };
    let lightning_strike_count = match e.get_lightning_count() {
        Ok(v) => Some(v),
        Err(_) => None,
    };
    let lightning_strike_avg_distance = match e.get_lightning_avg_distance() {
        Ok(v) => Some(v),
        Err(_) => None,
    };
    Station {
        serial_number: e.get_serial_number(),
        hub_sn: e.get_hub_sn(),
        firmware_revision: Some(e.get_firmware_revision()),
        battery_voltage,
        station_pressure,
        air_temperature,
        relative_humidity,
        lightning_strike_count,
        lightning_strike_avg_distance,
        air_event: Some(e),
        ..st
    }
}

/// Merges a sky observation event into a cached station.
pub fn merge_sky(st: Station, e: ObservationSkyEvent) -> (r: Station)
    ensures
        r == spec_merge_sky(st, e),
{
    let battery_voltage = match e.get_battery_voltage() {
        Ok(o) => o,
        Err(_) => None,
    };
    let illuminance = match e.get_illuminance() {
        Ok(o) => o,
        Err(_) => None,
    };
    let uv = match e.get_uv() {
        Ok(o) => o,
        Err(_) => None,
    };
    let rain_amount_prev_minute = match e.get_rain_prev_min() {
        Ok(o) => o,
        Err(_) => None,
    };
    let wind_lull = match e.get_wind_lull() {
        Ok(o) => o,
        Err(_) => None,
    };
    let wind_avg = match e.get_wind_avg() {
        Ok(o) => o,
        Err(_) => None,
    };
    let wind_gust = match e.get_wind_gust() {
        Ok(o) => o,
        Err(_) => None,
    };
    let wind_direction = match e.get_wind_direction() {
        Ok(o) => o,
        Err(_) => None,
    };
    let solar_radiation = match e.get_solar_radiation() {
        Ok(o) => o,
        Err(_) => None,
    };
    let precipitation_type = match e.get_precip_type() {
        Ok(v) => Some(v),
        Err(_) => None,
    };
    Station {
        serial_number: e.get_serial_number(),
        hub_sn: e.get_hub_sn(),
        firmware_revision: Some(e.get_firmware_revision()),
        battery_voltage,
        illuminance,
        uv,
        rain_amount_prev_minute,
        wind_lull,
        wind_avg,
        wind_gust,
        wind_direction,
        solar_radiation,
        precipitation_type,
        sky_event: Some(e),
        ..st
    }
}

/// Merges a device status event into a cached station.
pub fn merge_device(st: Station, e: DeviceStatusEvent) -> (r: Station)
    ensures
        r == spec_merge_device(st, e),
{
    Station {
        serial_number: e.get_serial_number(),
        hub_sn: e.get_hub_sn(),
        firmware_revision: Some(e.get_firmware_revision()),
        battery_voltage: Some(e.get_battery_voltage()),
        device_status: Some(e),
        ..st
    }
}

impl vstd::std_specs::convert::FromSpecImpl<ObservationEvent> for Station {
    open spec fn obeys_from_spec() -> bool {
        true
    }

    open spec fn from_spec(e: ObservationEvent) -> Station {
        spec_station_from_observation(e)
    }
}

impl From<ObservationEvent> for Station {
    /// The station a combined observation event creates when none is
    /// cached for its serial number yet.
    fn from(e: ObservationEvent) -> (s: Station) {
        let battery_voltage = match e.get_battery_voltage() {
            Ok(v) => Some(v),
            Err(_) => None,
        };
        let air_temperature = match e.get_air_temperature() {
            Ok(v) => Some(v),
            Err(_) => None,
        };
        let station_pressure = match e.get_station_pressure() {
            Ok(v) => Some(v),
            Err(_) => None,
        };
        let relative_humidity = match e.get_rh() {
            Ok(v) => Some(v),
            Err(_) => None,
        };
        let lightning_strike_count = match e.get_lightning_avg_distance() {
            Ok(v) => Some(v),
            Err(_) => None,
        };
        let lightning_strike_avg_distance = match e.get_lightning_strike_count() {
            Ok(v) => Some(v),
            Err(_) => None,
        };
        let illuminance = match e.get_illuminance() {
            Ok(v) => Some(v),
            Err(_) => None,
        };
        let uv = match e.get_uv() {
            Ok(v) => Some(v),
            Err(_) => None,
        };
        let rain_amount_prev_minute = match e.get_rain_amount_prev_min() {
            Ok(v) => Some(v),
            Err(_) => None,
        };
        let wind_lull = match e.get_wind_lull() {
            Ok(v) => Some(v),
            Err(_) => None,
        };
        let wind_avg = match e.get_wind_gust() {
            Ok(v) => Some(v),
            Err(_) => None,
        };
        let wind_gust = match e.get_wind_gust() {
            Ok(v) => Some(v),
            Err(_) => None,
        };
        let wind_direction = match e.get_solar_radiation() {
            Ok(v) => Some(v),
            Err(_) => None,
        };
        let solar_radiation = match e.get_solar_radiation() {
            Ok(v) => Some(v),
            Err(_) => None,
        };
        let precipitation_type = match e.get_precip_type() {
            Ok(v) => Some(v),
            Err(_) => None,
        };
        Station {
            hub_sn: e.get_hub_sn(),
            firmware_revision: Some(e.get_firmware_revision()),
            serial_number: e.get_serial_number(),
            battery_voltage,
            air_temperature,
            station_pressure,
            relative_humidity,
            lightning_strike_count,
            lightning_strike_avg_distance,
            illuminance,
            uv,
            rain_amount_prev_minute,
            prev_rain_timestamp: None,
            wind_lull,
            wind_avg,
            wind_gust,
            wind_direction,
            solar_radiation,
            precipitation_type,
            observation: Some(e),
            wind_event: None,
            rain_event: None,
            lightning_event: None,
            air_event: None,
            sky_event: None,
            device_status: None,
        }
    }
}

impl vstd::std_specs::convert::FromSpecImpl<RapidWindEvent> for Station {
    open spec fn obeys_from_spec() -> bool {
        true
    }

    open spec fn from_spec(e: RapidWindEvent) -> Station {
        spec_station_from_wind(e)
    }
}

impl From<RapidWindEvent> for Station {
    /// The station a rapid wind event creates when none is cached for
    /// its serial number yet.
    fn from(e: RapidWindEvent) -> (s: Station) {
        let blank = blank_station(e.get_serial_number(), e.get_hub_sn());
        Station { wind_event: Some(e), ..blank }
    }
}

impl vstd::std_specs::convert::FromSpecImpl<RainStartEvent> for Station {
    open spec fn obeys_from_spec() -> bool {
        true
    }

    open spec fn from_spec(e: RainStartEvent) -> Station {
        spec_station_from_rain(e)
    }
}

impl From<RainStartEvent> for Station {
    /// The station a rain start event creates when none is cached for
    /// its serial number yet.
    fn from(e: RainStartEvent) -> (s: Station) {
        let blank = blank_station(e.get_serial_number(), e.get_hub_sn());
        let prev_rain_timestamp = if e.evt.len() >= 1 {
            Some(e.get_timestamp())
        } else {
            None
        };
        Station { prev_rain_timestamp, rain_event: Some(e), ..blank }
    }
}

impl vstd::std_specs::convert::FromSpecImpl<LightningStrikeEvent> for Station {
    open spec fn obeys_from_spec() -> bool {
        true
    }

    open spec fn from_spec(e: LightningStrikeEvent) -> Station {
        spec_station_from_lightning(e)
    }
}

impl From<LightningStrikeEvent> for Station {
    /// The station a lightning strike event creates when none is cached
    /// for its serial number yet.
    fn from(e: LightningStrikeEvent) -> (s: Station) {
        let blank = blank_station(e.get_serial_number(), e.get_hub_sn());
        Station { lightning_event: Some(e), ..blank }
    }
}

impl vstd::std_specs::convert::FromSpecImpl<ObservationAirEvent> for Station {
    open spec fn obeys_from_spec() -> bool {
        true
    }

    open spec fn from_spec(e: ObservationAirEvent) -> Station {
        spec_station_from_air(e)
    }
}

impl From<ObservationAirEvent> for Station {
    /// The station an air observation event creates when none is cached
    /// for its serial number yet.
    fn from(e: ObservationAirEvent) -> (s: Station) {
        let blank = blank_station(e.get_serial_number(), e.get_hub_sn());
        let battery_voltage = match e.get_battery_voltage() {
            Ok(v) => Some(v),
            Err(_) => None,
        };
        let air_temperature = match e.get_air_temperature() {
            Ok(v) => Some(v),
            Err(_) => None,
        };
        let station_pressure = match e.get_station_pressure() {
            Ok(v) => Some(v),
            Err(_) => None,
        };
        let relative_humidity = match e.get_relative_humidity() {
            Ok(v) => Some(v),
            Err(_) => None,
        };
        let lightning_strike_count = match e.get_lightning_count() {
            Ok(v) => Some(v),
            Err(_) => None,
        };
        let lightning_strike_avg_distance = match e.get_lightning_avg_distance() {
            Ok(v) => Some(v),
            Err(_) => None,
        };
        Station {
            firmware_revision: Some(e.get_firmware_revision()),
            battery_voltage,
            air_temperature,
            station_pressure,
            relative_humidity,
            lightning_strike_count,
            lightning_strike_avg_distance,
            air_event: Some(e),
            ..blank
        }
    }
}

impl vstd::std_specs::convert::FromSpecImpl<ObservationSkyEvent> for Station {
    open spec fn obeys_from_spec() -> bool {
        true
    }

    open spec fn from_spec(e: ObservationSkyEvent) -> Station {
        spec_station_from_sky(e)
    }
}

impl From<ObservationSkyEvent> for Station {
    /// The station a sky observation event creates when none is cached
    /// for its serial number yet.
    fn from(e: ObservationSkyEvent) -> (s: Station) {
        let blank = blank_station(e.get_serial_number(), e.get_hub_sn());
        let battery_voltage = match e.get_battery_voltage() {
            Ok(o) => o,
            Err(_) => None,
        };
        let illuminance = match e.get_illuminance() {
            Ok(o) => o,
            Err(_) => None,
        };
        let uv = match e.get_uv() {
            Ok(o) => o,
            Err(_) => None,
        };
        let rain_amount_prev_minute = match e.get_rain_prev_min() {
            Ok(o) => o,
            Err(_) => None,
        };
        let wind_lull = match e.get_wind_lull() {
            Ok(o) => o,
            Err(_) => None,
        };
        let wind_avg = match e.get_wind_avg() {
            Ok(o) => o,
            Err(_) => None,
        };
        let wind_gust = match e.get_wind_gust() {
            Ok(o) => o,
            Err(_) => None,
        };
        let wind_direction = match e.get_wind_direction() {
            Ok(o) => o,
            Err(_) => None,
        };
        let solar_radiation = match e.get_solar_radiation() {
            Ok(o) => o,
            Err(_) => None,
        };
        let precipitation_type = match e.get_precip_type() {
            Ok(v) => Some(v),
            Err(_) => None,
        };
        Station {
            firmware_revision: Some(e.get_firmware_revision()),
            battery_voltage,
            illuminance,
            uv,
            rain_amount_prev_minute,
            wind_lull,
            wind_avg,
            wind_gust,
            wind_direction,
            solar_radiation,
            precipitation_type,
            sky_event: Some(e),
            ..blank
        }
    }
}

impl vstd::std_specs::convert::FromSpecImpl<DeviceStatusEvent> for Station {
    open spec fn obeys_from_spec() -> bool {
        true
    }

    open spec fn from_spec(e: DeviceStatusEvent) -> Station {
        spec_station_from_device(e)
    }
}

impl From<DeviceStatusEvent> for Station {
    /// The station a device status event creates when none is cached
    /// for its serial number yet.
    fn from(e: DeviceStatusEvent) -> (s: Station) {
        let blank = blank_station(e.get_serial_number(), e.get_hub_sn());
        Station {
            firmware_revision: Some(e.get_firmware_revision()),
            battery_voltage: Some(e.get_battery_voltage()),
            device_status: Some(e),
            ..blank
        }
    }
}

} // verus!
