//! One pass of the ingestion loop's decision logic: classify and decode
//! a datagram's JSON tree, update the cache when caching is on, and
//! decide whether the event is delivered under the optional
//! serial-number filter. The surrounding loop — socket receives, JSON
//! tokenisation, the delivery queue — lives outside the verified core
//! and hands each tree to `Tempest::process_datagram`.

use vstd::prelude::*;

use crate::cache::Tempest;
use crate::cache::spec_cache_air;
use crate::cache::spec_cache_device;
use crate::cache::spec_cache_lightning;
use crate::cache::spec_cache_observation;
use crate::cache::spec_cache_rain;
use crate::cache::spec_cache_sky;
use crate::cache::spec_cache_wind;
use crate::cache::spec_hub_upsert;
use crate::data::EventType;
use crate::decode::DecodeError;
use crate::decode::air_decoded;
use crate::decode::device_decoded;
use crate::decode::dispatch;
use crate::decode::hub_status_decoded;
use crate::decode::lightning_decoded;
use crate::decode::observation_decoded;
use crate::decode::rain_decoded;
use crate::decode::rapid_wind_decoded;
use crate::decode::sky_decoded;
use crate::decode::spec_air_ok;
use crate::decode::spec_device_ok;
use crate::decode::spec_hub_status_ok;
use crate::decode::spec_lightning_ok;
use crate::decode::spec_observation_ok;
use crate::decode::spec_rain_ok;
use crate::decode::spec_rapid_wind_ok;
use crate::decode::spec_sky_ok;
use crate::decode::spec_str_field;
use crate::decode::spec_type_tag;
use crate::hub::Hub;
use crate::hub::hub_built_from;
use crate::json::JsonValue;
use crate::station::Station;
use crate::strutil::str_eq;

verus! {

/// What became of one datagram: delivered as an event, dropped by the
/// serial-number filter, or rejected by the decoder.
#[derive(Debug)]
pub enum Processed {
    Delivered(EventType),
    Filtered,
    Rejected(DecodeError),
}

/// Some member of `list` reads `sn`.
pub open spec fn spec_in_filter(list: Seq<String>, sn: Seq<char>) -> bool {
    exists|i: int| 0 <= i < list.len() && (#[trigger] list[i])@ == sn
}

/// Whether the filter lets a device with serial number `sn` through: an
/// absent filter lets everything through, a present one only its
/// members.
pub open spec fn spec_filter_passes(filter: Option<Vec<String>>, sn: Seq<char>) -> bool {
    match filter {
        None => true,
        Some(list) => spec_in_filter(list@, sn),
    }
}

/// Decides whether the filter lets a device with serial number `sn`
/// through.
pub fn filter_passes(filter: &Option<Vec<String>>, sn: &str) -> (r: bool)
    ensures
        r == spec_filter_passes(*filter, sn@),
{
    match filter {
        None => true,
        Some(list) => {
            let n = list.len();
            let mut i: usize = 0;
            while i < n
                invariant
                    *filter == Some(*list),
                    n == list@.len(),
                    0 <= i <= n,
                    forall|k: int| 0 <= k < i ==> list@[k]@ != sn@,
                decreases n - i,
            {
                if str_eq(list[i].as_str(), sn) {
                    proof {
                        assert(0 <= i < list@.len() && list@[i as int]@ == sn@);
                        assert(spec_in_filter(list@, sn@));
                    }
                    return true;
                }
                i += 1;
            }
            false
        },
    }
}

/// How the classifier judges a datagram: which decode error it earns,
/// if any. The tag chain mirrors the dispatch table.
pub open spec fn spec_classify(v: JsonValue) -> Result<(), DecodeError> {
    match spec_type_tag(v) {
        None => Err(DecodeError::UnknownType),
        Some(tag) => {
            if tag@ == "obs_st"@ {
                if spec_observation_ok(v) {
                    Ok(())
                } else {
                    Err(DecodeError::Malformed)
                }
            } else if tag@ == "obs_air"@ {
                if spec_air_ok(v) {
                    Ok(())
                } else {
                    Err(DecodeError::Malformed)
                }
            } else if tag@ == "obs_sky"@ {
                if spec_sky_ok(v) {
                    Ok(())
                } else {
                    Err(DecodeError::Malformed)
                }
            } else if tag@ == "hub_status"@ {
                if spec_hub_status_ok(v) {
                    Ok(())
                } else {
                    Err(DecodeError::Malformed)
                }
            } else if tag@ == "rapid_wind"@ {
                if spec_rapid_wind_ok(v) {
                    Ok(())
                } else {
                    Err(DecodeError::Malformed)
                }
            } else if tag@ == "evt_precip"@ {
                if spec_rain_ok(v) {
                    Ok(())
                } else {
                    Err(DecodeError::Malformed)
                }
            } else if tag@ == "evt_strike"@ {
                if spec_lightning_ok(v) {
                    Ok(())
                } else {
                    Err(DecodeError::Malformed)
                }
            } else if tag@ == "device_status"@ {
                if spec_device_ok(v) {
                    Ok(())
                } else {
                    Err(DecodeError::Malformed)
                }
            } else {
                Err(DecodeError::UnknownType)
            }
        },
    }
}

/// The serial number a datagram names, when it names one.
pub open spec fn spec_datagram_serial(v: JsonValue) -> Seq<char> {
    match spec_str_field(v, "serial_number"@) {
        Some(s) => s@,
        None => Seq::empty(),
    }
}

/// The event `ev` is the decoding of datagram `v`, wrapped in the
/// variant that `v`'s type tag selects in the dispatch table.
pub open spec fn event_dispatched(v: JsonValue, ev: EventType) -> bool {
    spec_type_tag(v) matches Some(tag) && {
        if tag@ == "obs_st"@ {
            ev matches EventType::Observation(e) && observation_decoded(v, e)
        } else if tag@ == "obs_air"@ {
            ev matches EventType::Air(e) && air_decoded(v, e)
        } else if tag@ == "obs_sky"@ {
            ev matches EventType::Sky(e) && sky_decoded(v, e)
        } else if tag@ == "hub_status"@ {
            ev matches EventType::HubStatus(e) && hub_status_decoded(v, e)
        } else if tag@ == "rapid_wind"@ {
            ev matches EventType::RapidWind(e) && rapid_wind_decoded(v, e)
        } else if tag@ == "evt_precip"@ {
            ev matches EventType::Rain(e) && rain_decoded(v, e)
        } else if tag@ == "evt_strike"@ {
            ev matches EventType::Lightning(e) && lightning_decoded(v, e)
        } else if tag@ == "device_status"@ {
            ev matches EventType::DeviceStatus(e) && device_decoded(v, e)
        } else {
            false
        }
    }
}

/// The cache contents `(hubs1, stations1)` are what caching datagram
/// `v` turns `(hubs0, stations0)` into: the decoded event merged or
/// upserted under the rule of its kind.
pub open spec fn spec_caches_datagram(
    v: JsonValue,
    hubs0: Seq<Hub>,
    stations0: Seq<Station>,
    hubs1: Seq<Hub>,
    stations1: Seq<Station>,
) -> bool {
    match spec_type_tag(v) {
        Some(tag) => {
            if tag@ == "obs_st"@ {
                hubs1 == hubs0 && exists|e: crate::obs::ObservationEvent|
                    observation_decoded(v, e) && stations1 == spec_cache_observation(stations0, e)
            } else if tag@ == "obs_air"@ {
                hubs1 == hubs0 && exists|e: crate::obs::ObservationAirEvent|
                    air_decoded(v, e) && stations1 == spec_cache_air(stations0, e)
            } else if tag@ == "obs_sky"@ {
                hubs1 == hubs0 && exists|e: crate::obs::ObservationSkyEvent|
                    sky_decoded(v, e) && stations1 == spec_cache_sky(stations0, e)
            } else if tag@ == "hub_status"@ {
                stations1 == stations0 && exists|e: crate::events::HubStatusEvent, h: Hub|
                    hub_status_decoded(v, e) && hub_built_from(h, e) && hubs1 == spec_hub_upsert(
                        hubs0,
                        h,
                    )
            } else if tag@ == "rapid_wind"@ {
                hubs1 == hubs0 && exists|e: crate::events::RapidWindEvent|
                    rapid_wind_decoded(v, e) && stations1 == spec_cache_wind(stations0, e)
            } else if tag@ == "evt_precip"@ {
                hubs1 == hubs0 && exists|e: crate::events::RainStartEvent|
                    rain_decoded(v, e) && stations1 == spec_cache_rain(stations0, e)
            } else if tag@ == "evt_strike"@ {
                hubs1 == hubs0 && exists|e: crate::events::LightningStrikeEvent|
                    lightning_decoded(v, e) && stations1 == spec_cache_lightning(stations0, e)
            } else if tag@ == "device_status"@ {
                hubs1 == hubs0 && exists|e: crate::events::DeviceStatusEvent|
                    device_decoded(v, e) && stations1 == spec_cache_device(stations0, e)
            } else {
                false
            }
        },
        None => false,
    }
}

impl Tempest {
    /// Runs one datagram through decode, optional caching and the
    /// optional serial-number filter.
    ///
    /// A datagram whose type tag is missing or unknown, or whose body
    /// does not fit its kind, is rejected with its decode error and
    /// leaves the cache untouched. A decoded event updates the cache
    /// exactly when `caching` is on, and is delivered exactly when the
    /// filter lets its serial number through.
    pub fn process_datagram(
        &mut self,
        caching: bool,
        station_filter: &Option<Vec<String>>,
        v: &JsonValue,
    ) -> (r: Processed)
        requires
            old(self).wf(),
        ensures
            final(self).wf(),
            spec_classify(*v) matches Err(er) ==> (r matches Processed::Rejected(e2) && e2 == er
                && final(self).hubs() == old(self).hubs() && final(self).stations() == old(
                self,
            ).stations()),
            spec_classify(*v) is Ok ==> {
                &&& !caching ==> final(self).hubs() == old(self).hubs() && final(self).stations()
                    == old(self).stations()
                &&& caching ==> spec_caches_datagram(
                    *v,
                    old(self).hubs(),
                    old(self).stations(),
                    final(self).hubs(),
                    final(self).stations(),
                )
                &&& (r is Delivered) == spec_filter_passes(
                    *station_filter,
                    spec_datagram_serial(*v),
                )
                &&& (r is Filtered) == !spec_filter_passes(
                    *station_filter,
                    spec_datagram_serial(*v),
                )
                &&& r matches Processed::Delivered(ev) ==> (event_dispatched(*v, ev))
            },
    {
        let event = match dispatch(v) {
            Ok(ev) => ev,
            Err(er) => {
                return Processed::Rejected(er);
            },
        };
        let pass = filter_passes(station_filter, event.get_serial_number().as_str());
        if caching {
            let outgoing = if pass {
                Some(event.clone())
            } else {
                None
            };
            match event {
                EventType::Observation(e) => self.cache_station_observation(e),
                EventType::Air(e) => self.cache_station_air_event(e),
                EventType::Sky(e) => self.cache_station_sky_event(e),
                EventType::HubStatus(e) => self.hub_upsert(Hub::from_status(e)),
                EventType::RapidWind(e) => self.cache_station_wind_event(e),
                EventType::Rain(e) => self.cache_station_rain_event(e),
                EventType::Lightning(e) => self.cache_station_lightning_event(e),
                EventType::DeviceStatus(e) => self.cache_station_device_status(e),
            }
            match outgoing {
                Some(ev) => Processed::Delivered(ev),
                None => Processed::Filtered,
            }
        } else {
            if pass {
                Processed::Delivered(event)
            } else {
                Processed::Filtered
            }
        }
    }
}

} // verus!
