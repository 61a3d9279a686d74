//! Shared enumerations of the event model, and the tagged union of all
//! event kinds.

use vstd::prelude::*;

use crate::events::DeviceStatusEvent;
use crate::events::HubStatusEvent;
use crate::events::LightningStrikeEvent;
use crate::events::RainStartEvent;
use crate::events::RapidWindEvent;
use crate::events::device_status_eqv;
use crate::events::hub_status_eqv;
use crate::events::lightning_eqv;
use crate::events::rain_eqv;
use crate::events::rapid_wind_eqv;
use crate::obs::ObservationAirEvent;
use crate::obs::ObservationEvent;
use crate::obs::ObservationSkyEvent;
use crate::obs::air_eqv;
use crate::obs::observation_eqv;
use crate::obs::sky_eqv;

verus! {

/// Why a field accessor failed: the positional array (or the slot in it)
/// is missing, or an enumerated code lies outside the known set.
#[derive(Clone, Copy, Debug, PartialEq, Eq, Structural)]
pub enum EventError {
    ParseError,
    UnexpectedValue,
}

/// Kind of precipitation a station reports.
#[derive(Clone, Copy, Debug, PartialEq, Eq, Structural)]
pub enum PrecipitationType {
    NoPrecipitation,
    Rain,
    Hail,
    RainHail,
}

/// What precipitation code `c` decodes to; codes above 3 are unexpected.
pub open spec fn spec_precip_of_code(c: u16) -> Result<PrecipitationType, EventError> {
    if c == 0 {
        Ok(PrecipitationType::NoPrecipitation)
    } else if c == 1 {
        Ok(PrecipitationType::Rain)
    } else if c == 2 {
        Ok(PrecipitationType::Hail)
    } else if c == 3 {
        Ok(PrecipitationType::RainHail)
    } else {
        Err(EventError::UnexpectedValue)
    }
}

/// Decodes a precipitation code.
pub fn precip_of_code(c: u16) -> (r: Result<PrecipitationType, EventError>)
    ensures
        r == spec_precip_of_code(c),
{
    match c {
        0 => Ok(PrecipitationType::NoPrecipitation),
        1 => Ok(PrecipitationType::Rain),
        2 => Ok(PrecipitationType::Hail),
        3 => Ok(PrecipitationType::RainHail),
        _ => Err(EventError::UnexpectedValue),
    }
}

/// State of a hub's radio subsystem.
#[derive(Clone, Copy, Debug, PartialEq, Eq, Structural)]
pub enum RadioStatus {
    RadioOff,
    RadioOn,
    RadioActive,
    BLEConnected,
    Unknown,
}

/// What a hub status report's radio code means; codes outside the known
/// set read as `Unknown`.
pub open spec fn spec_radio_status_of_code(c: u16) -> RadioStatus {
    if c == 0 {
        RadioStatus::RadioOff
    } else if c == 1 {
        RadioStatus::RadioOn
    } else if c == 3 {
        RadioStatus::RadioActive
    } else if c == 7 {
        RadioStatus::BLEConnected
    } else {
        RadioStatus::Unknown
    }
}

/// Decodes a radio status code as reported by a hub status event.
pub fn radio_status_of_code(c: u16) -> (r: RadioStatus)
    ensures
        r == spec_radio_status_of_code(c),
{
    match c {
        0 => RadioStatus::RadioOff,
        1 => RadioStatus::RadioOn,
        3 => RadioStatus::RadioActive,
        7 => RadioStatus::BLEConnected,
        _ => RadioStatus::Unknown,
    }
}

/// One decoded weather event of any kind.
#[derive(Debug, PartialEq)]
pub enum EventType {
    Rain(RainStartEvent),
    Lightning(LightningStrikeEvent),
    RapidWind(RapidWindEvent),
    Observation(ObservationEvent),
    Air(ObservationAirEvent),
    Sky(ObservationSkyEvent),
    DeviceStatus(DeviceStatusEvent),
    HubStatus(HubStatusEvent),
}

/// Both events are of the same kind and their records read the same.
pub open spec fn event_eqv(a: EventType, b: EventType) -> bool {
    match (a, b) {
        (EventType::Rain(x), EventType::Rain(y)) => rain_eqv(x, y),
        (EventType::Lightning(x), EventType::Lightning(y)) => lightning_eqv(x, y),
        (EventType::RapidWind(x), EventType::RapidWind(y)) => rapid_wind_eqv(x, y),
        (EventType::Observation(x), EventType::Observation(y)) => observation_eqv(x, y),
        (EventType::Air(x), EventType::Air(y)) => air_eqv(x, y),
        (EventType::Sky(x), EventType::Sky(y)) => sky_eqv(x, y),
        (EventType::DeviceStatus(x), EventType::DeviceStatus(y)) => device_status_eqv(x, y),
        (EventType::HubStatus(x), EventType::HubStatus(y)) => hub_status_eqv(x, y),
        _ => false,
    }
}

impl Clone for EventType {
    fn clone(&self) -> (r: Self)
        ensures
            event_eqv(r, *self),
    {
        match self {
            EventType::Rain(e) => EventType::Rain(e.clone()),
            EventType::Lightning(e) => EventType::Lightning(e.clone()),
            EventType::RapidWind(e) => EventType::RapidWind(e.clone()),
            EventType::Observation(e) => EventType::Observation(e.clone()),
            EventType::Air(e) => EventType::Air(e.clone()),
            EventType::Sky(e) => EventType::Sky(e.clone()),
            EventType::DeviceStatus(e) => EventType::DeviceStatus(e.clone()),
            EventType::HubStatus(e) => EventType::HubStatus(e.clone()),
        }
    }
}

impl EventType {
    /// The serial number of the device the event is about: for a hub
    /// status event the hub's own serial number, for every other kind
    /// the station's.
    pub open spec fn spec_serial_number(self) -> Seq<char> {
        match self {
            EventType::Rain(e) => e.serial_number@,
            EventType::Lightning(e) => e.serial_number@,
            EventType::RapidWind(e) => e.serial_number@,
            EventType::Observation(e) => e.serial_number@,
            EventType::Air(e) => e.serial_number@,
            EventType::Sky(e) => e.serial_number@,
            EventType::DeviceStatus(e) => e.serial_number@,
            EventType::HubStatus(e) => e.serial_number@,
        }
    }

    /// The serial number of the device the event is about.
    pub fn get_serial_number(&self) -> (r: &String)
        ensures
            r@ == self.spec_serial_number(),
    {
        match self {
            EventType::Rain(e) => &e.serial_number,
            EventType::Lightning(e) => &e.serial_number,
            EventType::RapidWind(e) => &e.serial_number,
            EventType::Observation(e) => &e.serial_number,
            EventType::Air(e) => &e.serial_number,
            EventType::Sky(e) => &e.serial_number,
            EventType::DeviceStatus(e) => &e.serial_number,
            EventType::HubStatus(e) => &e.serial_number,
        }
    }
}

} // verus!
