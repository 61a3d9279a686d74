//! Observation event records: the combined station observation
//! (`obs_st`, an 18-slot layout), the air observation (`obs_air`, an
//! 8-slot layout) and the sky observation (`obs_sky`, a layout whose
//! slots are each independently optional).
//!
//! Each record carries its readings as one row of a positional array,
//! exactly as they stood in the datagram; numbers are `JsonNum` values,
//! so a float reading comes back as its f32 bit pattern. An accessor
//! returns `ParseError` when the row, or the slot it reads, is missing.

use vstd::prelude::*;

use crate::data::EventError;
use crate::data::PrecipitationType;
use crate::data::spec_precip_of_code;
use crate::data::precip_of_code;
use crate::json::JsonNum;
use crate::vecs::clone_rows;
use crate::vecs::rows_eqv;

verus! {

/// A station's combined observation event (`obs_st`).
#[derive(Debug, PartialEq)]
pub struct ObservationEvent {
    pub serial_number: String,
    pub event_type: String,
    pub hub_sn: String,
    pub obs: Vec<Vec<JsonNum>>,
    pub firmware_revision: u16,
}

/// Both records read the same: equal identity fields and the same
/// observation rows.
pub open spec fn observation_eqv(a: ObservationEvent, b: ObservationEvent) -> bool {
    &&& a.serial_number == b.serial_number
    &&& a.event_type == b.event_type
    &&& a.hub_sn == b.hub_sn
    &&& rows_eqv(a.obs, b.obs)
    &&& a.firmware_revision == b.firmware_revision
}

impl Clone for ObservationEvent {
    fn clone(&self) -> (r: Self)
        ensures
            observation_eqv(r, *self),
    {
        ObservationEvent {
            serial_number: self.serial_number.clone(),
            event_type: self.event_type.clone(),
            hub_sn: self.hub_sn.clone(),
            obs: clone_rows(&self.obs),
            firmware_revision: self.firmware_revision,
        }
    }
}

/// The f32 bits in slot `i` of the first row of `obs`, or `ParseError`
/// when the row or the slot is missing.
pub open spec fn spec_row_slot(obs: Vec<Vec<JsonNum>>, i: int) -> Result<u32, EventError> {
    if obs@.len() > 0 && i < obs@[0]@.len() {
        Ok(obs@[0]@[i].bits32)
    } else {
        Err(EventError::ParseError)
    }
}

/// Reads slot `i` of the first row of `obs`.
fn row_slot(obs: &Vec<Vec<JsonNum>>, i: usize) -> (r: Result<u32, EventError>)
    ensures
        r == spec_row_slot(*obs, i as int),
{
    if obs.len() > 0 && i < obs[0].len() {
        Ok(obs[0][i].bits32)
    } else {
        Err(EventError::ParseError)
    }
}

/// The number in slot `i` of the first row of `obs`, or `ParseError`
/// when the row or the slot is missing.
pub open spec fn spec_row_num(obs: Vec<Vec<JsonNum>>, i: int) -> Result<JsonNum, EventError> {
    if obs@.len() > 0 && i < obs@[0]@.len() {
        Ok(obs@[0]@[i])
    } else {
        Err(EventError::ParseError)
    }
}

impl ObservationEvent {
    /// The station's serial number.
    pub fn get_serial_number(&self) -> (r: String)
        ensures
            r == self.serial_number,
    {
        self.serial_number.clone()
    }

    /// The serial number of the hub that relayed the event.
    pub fn get_hub_sn(&self) -> (r: String)
        ensures
            r == self.hub_sn,
    {
        self.hub_sn.clone()
    }

    /// The station's firmware revision.
    pub fn get_firmware_revision(&self) -> (r: u16)
        ensures
            r == self.firmware_revision,
    {
        self.firmware_revision
    }

    /// Slot 0: when the observation was made, in seconds since the
    /// epoch, as f32 bits.
    pub fn get_timestamp(&self) -> (r: Result<u32, EventError>)
        ensures
            r == spec_row_slot(self.obs, 0),
    {
        row_slot(&self.obs, 0)
    }

    /// Slot 1: wind lull in meters per second, as f32 bits.
    pub fn get_wind_lull(&self) -> (r: Result<u32, EventError>)
        ensures
            r == spec_row_slot(self.obs, 1),
    {
        row_slot(&self.obs, 1)
    }

    /// Slot 2: average wind speed in meters per second, as f32 bits.
    pub fn get_wind_avg(&self) -> (r: Result<u32, EventError>)
        ensures
            r == spec_row_slot(self.obs, 2),
    {
        row_slot(&self.obs, 2)
    }

    /// Slot 3: wind gust in meters per second, as f32 bits.
    pub fn get_wind_gust(&self) -> (r: Result<u32, EventError>)
        ensures
            r == spec_row_slot(self.obs, 3),
    {
        row_slot(&self.obs, 3)
    }

    /// Slot 4: wind direction in degrees, as f32 bits.
    pub fn get_wind_direction(&self) -> (r: Result<u32, EventError>)
        ensures
            r == spec_row_slot(self.obs, 4),
    {
        row_slot(&self.obs, 4)
    }

    /// Slot 5: wind sample interval in seconds, as f32 bits.
    pub fn get_wind_sample_interval(&self) -> (r: Result<u32, EventError>)
        ensures
            r == spec_row_slot(self.obs, 5),
    {
        row_slot(&self.obs, 5)
    }

    /// Slot 6: station pressure in millibars, as f32 bits.
    pub fn get_station_pressure(&self) -> (r: Result<u32, EventError>)
        ensures
            r == spec_row_slot(self.obs, 6),
    {
        row_slot(&self.obs, 6)
    }

    /// Slot 7: air temperature in degrees Celsius, as f32 bits.
    pub fn get_air_temperature(&self) -> (r: Result<u32, EventError>)
        ensures
            r == spec_row_slot(self.obs, 7),
    {
        row_slot(&self.obs, 7)
    }

    /// Slot 8: relative humidity in percent, as f32 bits.
    pub fn get_rh(&self) -> (r: Result<u32, EventError>)
        ensures
            r == spec_row_slot(self.obs, 8),
    {
        row_slot(&self.obs, 8)
    }

    /// Slot 9: illuminance in lux, as f32 bits.
    pub fn get_illuminance(&self) -> (r: Result<u32, EventError>)
        ensures
            r == spec_row_slot(self.obs, 9),
    {
        row_slot(&self.obs, 9)
    }

    /// Slot 10: UV index, as f32 bits.
    pub fn get_uv(&self) -> (r: Result<u32, EventError>)
        ensures
            r == spec_row_slot(self.obs, 10),
    {
        row_slot(&self.obs, 10)
    }

    /// Slot 11: solar radiation in watts per square meter, as f32 bits.
    pub fn get_solar_radiation(&self) -> (r: Result<u32, EventError>)
        ensures
            r == spec_row_slot(self.obs, 11),
    {
        row_slot(&self.obs, 11)
    }

    /// Slot 12: rain over the previous minute in millimeters, as f32
    /// bits.
    pub fn get_rain_amount_prev_min(&self) -> (r: Result<u32, EventError>)
        ensures
            r == spec_row_slot(self.obs, 12),
    {
        row_slot(&self.obs, 12)
    }

    /// What `get_precip_type` returns: the code in slot 13, rounded
    /// toward zero, decoded as a precipitation kind; `ParseError` when
    /// the slot is missing, `UnexpectedValue` when the code is out of
    /// range.
    pub open spec fn spec_get_precip_type(self) -> Result<PrecipitationType, EventError> {
        match spec_row_num(self.obs, 13) {
            Ok(n) => spec_precip_of_code(n.spec_trunc_u16()),
            Err(e) => Err(e),
        }
    }

    /// Slot 13: the kind of precipitation observed.
    pub fn get_precip_type(&self) -> (r: Result<PrecipitationType, EventError>)
        ensures
            r == self.spec_get_precip_type(),
    {
        if self.obs.len() > 0 && 13 < self.obs[0].len() {
            precip_of_code(self.obs[0][13].trunc_u16())
        } else {
            Err(EventError::ParseError)
        }
    }

    /// Slot 14: average lightning strike distance in kilometers, as f32
    /// bits.
    pub fn get_lightning_avg_distance(&self) -> (r: Result<u32, EventError>)
        ensures
            r == spec_row_slot(self.obs, 14),
    {
        row_slot(&self.obs, 14)
    }

    /// Slot 15: lightning strike count, as f32 bits.
    pub fn get_lightning_strike_count(&self) -> (r: Result<u32, EventError>)
        ensures
            r == spec_row_slot(self.obs, 15),
    {
        row_slot(&self.obs, 15)
    }

    /// Slot 16: battery voltage, as f32 bits.
    pub fn get_battery_voltage(&self) -> (r: Result<u32, EventError>)
        ensures
            r == spec_row_slot(self.obs, 16),
    {
        row_slot(&self.obs, 16)
    }

    /// Slot 17: report interval in minutes, as f32 bits.
    pub fn get_report_interval(&self) -> (r: Result<u32, EventError>)
        ensures
            r == spec_row_slot(self.obs, 17),
    {
        row_slot(&self.obs, 17)
    }
}

/// A station's air observation event (`obs_air`).
#[derive(Debug, PartialEq)]
pub struct ObservationAirEvent {
    pub serial_number: String,
    pub event_type: String,
    pub hub_sn: String,
    pub obs: Vec<Vec<JsonNum>>,
    pub firmware_revision: u16,
}

/// Both records read the same: equal identity fields and the same
/// observation rows.
pub open spec fn air_eqv(a: ObservationAirEvent, b: ObservationAirEvent) -> bool {
    &&& a.serial_number == b.serial_number
    &&& a.event_type == b.event_type
    &&& a.hub_sn == b.hub_sn
    &&& rows_eqv(a.obs, b.obs)
    &&& a.firmware_revision == b.firmware_revision
}

impl Clone for ObservationAirEvent {
    fn clone(&self) -> (r: Self)
        ensures
            air_eqv(r, *self),
    {
        ObservationAirEvent {
            serial_number: self.serial_number.clone(),
            event_type: self.event_type.clone(),
            hub_sn: self.hub_sn.clone(),
            obs: clone_rows(&self.obs),
            firmware_revision: self.firmware_revision,
        }
    }
}

impl ObservationAirEvent {
    /// The station's serial number.
    pub fn get_serial_number(&self) -> (r: String)
        ensures
            r == self.serial_number,
    {
        self.serial_number.clone()
    }

    /// The serial number of the hub that relayed the event.
    pub fn get_hub_sn(&self) -> (r: String)
        ensures
            r == self.hub_sn,
    {
        self.hub_sn.clone()
    }

    /// The station's firmware revision.
    pub fn get_firmware_revision(&self) -> (r: u16)
        ensures
            r == self.firmware_revision,
    {
        self.firmware_revision
    }

    /// Slot 0: when the observation was made, in seconds since the
    /// epoch, as f32 bits.
    pub fn get_timestamp(&self) -> (r: Result<u32, EventError>)
        ensures
            r == spec_row_slot(self.obs, 0),
    {
        row_slot(&self.obs, 0)
    }

    /// Slot 1: station pressure in millibars, as f32 bits.
    pub fn get_station_pressure(&self) -> (r: Result<u32, EventError>)
        ensures
            r == spec_row_slot(self.obs, 1),
    {
        row_slot(&self.obs, 1)
    }

    /// Slot 2: air temperature in degrees Celsius, as f32 bits.
    pub fn get_air_temperature(&self) -> (r: Result<u32, EventError>)
        ensures
            r == spec_row_slot(self.obs, 2),
    {
        row_slot(&self.obs, 2)
    }

    /// Slot 3: relative humidity in percent, as f32 bits.
    pub fn get_relative_humidity(&self) -> (r: Result<u32, EventError>)
        ensures
            r == spec_row_slot(self.obs, 3),
    {
        row_slot(&self.obs, 3)
    }

    /// Slot 4: lightning strike count, as f32 bits.
    pub fn get_lightning_count(&self) -> (r: Result<u32, EventError>)
        ensures
            r == spec_row_slot(self.obs, 4),
    {
        row_slot(&self.obs, 4)
    }

    /// Slot 5: average lightning strike distance in kilometers, as f32
    /// bits.
    pub fn get_lightning_avg_distance(&self) -> (r: Result<u32, EventError>)
        ensures
            r == spec_row_slot(self.obs, 5),
    {
        row_slot(&self.obs, 5)
    }

    /// Slot 6: battery voltage, as f32 bits.
    pub fn get_battery_voltage(&self) -> (r: Result<u32, EventError>)
        ensures
            r == spec_row_slot(self.obs, 6),
    {
        row_slot(&self.obs, 6)
    }

    /// Slot 7: report interval in minutes, as f32 bits.
    pub fn get_report_interval(&self) -> (r: Result<u32, EventError>)
        ensures
            r == spec_row_slot(self.obs, 7),
    {
        row_slot(&self.obs, 7)
    }
}

/// A station's sky observation event (`obs_sky`). Every slot is
/// independently optional: a `null` on the wire reads as `None`, which
/// is distinct from a reading of zero.
#[derive(Debug, PartialEq)]
pub struct ObservationSkyEvent {
    pub serial_number: String,
    pub event_type: String,
    pub hub_sn: String,
    pub obs: Vec<Vec<Option<JsonNum>>>,
    pub firmware_revision: u16,
}

/// Both records read the same: equal identity fields and the same
/// observation rows.
pub open spec fn sky_eqv(a: ObservationSkyEvent, b: ObservationSkyEvent) -> bool {
    &&& a.serial_number == b.serial_number
    &&& a.event_type == b.event_type
    &&& a.hub_sn == b.hub_sn
    &&& rows_eqv(a.obs, b.obs)
    &&& a.firmware_revision == b.firmware_revision
}

impl Clone for ObservationSkyEvent {
    fn clone(&self) -> (r: Self)
        ensures
            sky_eqv(r, *self),
    {
        ObservationSkyEvent {
            serial_number: self.serial_number.clone(),
            event_type: self.event_type.clone(),
            hub_sn: self.hub_sn.clone(),
            obs: clone_rows(&self.obs),
            firmware_revision: self.firmware_revision,
        }
    }
}

/// The optional f32 bits in slot `i` of the first row of `obs`:
/// `Ok(None)` for a `null` slot, `ParseError` when the row or the slot
/// is missing.
pub open spec fn spec_sky_slot(
    obs: Vec<Vec<Option<JsonNum>>>,
    i: int,
) -> Result<Option<u32>, EventError> {
    if obs@.len() > 0 && i < obs@[0]@.len() {
        match obs@[0]@[i] {
            Some(n) => Ok(Some(n.bits32)),
            None => Ok(None),
        }
    } else {
        Err(EventError::ParseError)
    }
}

/// Reads slot `i` of the first row of `obs`.
fn sky_slot(obs: &Vec<Vec<Option<JsonNum>>>, i: usize) -> (r: Result<Option<u32>, EventError>)
    ensures
        r == spec_sky_slot(*obs, i as int),
{
    if obs.len() > 0 && i < obs[0].len() {
        match obs[0][i] {
            Some(n) => Ok(Some(n.bits32)),
            None => Ok(None),
        }
    } else {
        Err(EventError::ParseError)
    }
}

impl ObservationSkyEvent {
    /// The station's serial number.
    pub fn get_serial_number(&self) -> (r: String)
        ensures
            r == self.serial_number,
    {
        self.serial_number.clone()
    }

    /// The serial number of the hub that relayed the event.
    pub fn get_hub_sn(&self) -> (r: String)
        ensures
            r == self.hub_sn,
    {
        self.hub_sn.clone()
    }

    /// The station's firmware revision.
    pub fn get_firmware_revision(&self) -> (r: u16)
        ensures
            r == self.firmware_revision,
    {
        self.firmware_revision
    }

    /// Slot 0: when the observation was made, in seconds since the
    /// epoch, as f32 bits.
    pub fn get_timestamp(&self) -> (r: Result<Option<u32>, EventError>)
        ensures
            r == spec_sky_slot(self.obs, 0),
    {
        sky_slot(&self.obs, 0)
    }

    /// Slot 1: illuminance in lux, as f32 bits.
    pub fn get_illuminance(&self) -> (r: Result<Option<u32>, EventError>)
        ensures
            r == spec_sky_slot(self.obs, 1),
    {
        sky_slot(&self.obs, 1)
    }

    /// Slot 2: UV index, as f32 bits.
    pub fn get_uv(&self) -> (r: Result<Option<u32>, EventError>)
        ensures
            r == spec_sky_slot(self.obs, 2),
    {
        sky_slot(&self.obs, 2)
    }

    /// Slot 3: rain over the previous minute in millimeters, as f32
    /// bits.
    pub fn get_rain_prev_min(&self) -> (r: Result<Option<u32>, EventError>)
        ensures
            r == spec_sky_slot(self.obs, 3),
    {
        sky_slot(&self.obs, 3)
    }

    /// Slot 4: wind lull in meters per second, as f32 bits.
    pub fn get_wind_lull(&self) -> (r: Result<Option<u32>, EventError>)
        ensures
            r == spec_sky_slot(self.obs, 4),
    {
        sky_slot(&self.obs, 4)
    }

    /// Slot 5: average wind speed in meters per second, as f32 bits.
    pub fn get_wind_avg(&self) -> (r: Result<Option<u32>, EventError>)
        ensures
            r == spec_sky_slot(self.obs, 5),
    {
        sky_slot(&self.obs, 5)
    }

    /// Slot 6: wind gust in meters per second, as f32 bits.
    pub fn get_wind_gust(&self) -> (r: Result<Option<u32>, EventError>)
        ensures
            r == spec_sky_slot(self.obs, 6),
    {
        sky_slot(&self.obs, 6)
    }

    /// Slot 7: wind direction in degrees, as f32 bits.
    pub fn get_wind_direction(&self) -> (r: Result<Option<u32>, EventError>)
        ensures
            r == spec_sky_slot(self.obs, 7),
    {
        sky_slot(&self.obs, 7)
    }

    /// Slot 8: battery voltage, as f32 bits.
    pub fn get_battery_voltage(&self) -> (r: Result<Option<u32>, EventError>)
        ensures
            r == spec_sky_slot(self.obs, 8),
    {
        sky_slot(&self.obs, 8)
    }

    /// Slot 9: report interval in minutes, as f32 bits.
    pub fn get_report_interval(&self) -> (r: Result<Option<u32>, EventError>)
        ensures
            r == spec_sky_slot(self.obs, 9),
    {
        sky_slot(&self.obs, 9)
    }

    /// Slot 10: solar radiation in watts per square meter, as f32 bits.
    pub fn get_solar_radiation(&self) -> (r: Result<Option<u32>, EventError>)
        ensures
            r == spec_sky_slot(self.obs, 10),
    {
        sky_slot(&self.obs, 10)
    }

    /// Slot 11: rain accumulated over the local day in millimeters, as
    /// f32 bits.
    pub fn get_local_day_rain_accum(&self) -> (r: Result<Option<u32>, EventError>)
        ensures
            r == spec_sky_slot(self.obs, 11),
    {
        sky_slot(&self.obs, 11)
    }

    /// What `get_precip_type` returns: the code in slot 12, rounded
    /// toward zero, decoded as a precipitation kind; `ParseError` when
    /// the slot is missing or `null`, `UnexpectedValue` when the code is
    /// out of range.
    pub open spec fn spec_get_precip_type(self) -> Result<PrecipitationType, EventError> {
        if self.obs@.len() > 0 && 12 < self.obs@[0]@.len() && self.obs@[0]@[12] is Some {
            spec_precip_of_code(self.obs@[0]@[12]->0.spec_trunc_u16())
        } else {
            Err(EventError::ParseError)
        }
    }

    /// Slot 12: the kind of precipitation observed.
    pub fn get_precip_type(&self) -> (r: Result<PrecipitationType, EventError>)
        ensures
            r == self.spec_get_precip_type(),
    {
        if self.obs.len() > 0 && 12 < self.obs[0].len() {
            match self.obs[0][12] {
                Some(n) => precip_of_code(n.trunc_u16()),
                None => Err(EventError::ParseError),
            }
        } else {
            Err(EventError::ParseError)
        }
    }

    /// Slot 13: wind sample interval in seconds, as f32 bits.
    pub fn get_wind_sample_interval(&self) -> (r: Result<Option<u32>, EventError>)
        ensures
            r == spec_sky_slot(self.obs, 13),
    {
        sky_slot(&self.obs, 13)
    }
}

} // verus!
