//! The cache of hub and station records, keyed by serial number.
//!
//! The cache holds at most one hub record and at most one station record
//! per serial number. A hub status event replaces the whole hub record;
//! every other event kind is merged into the station record for its
//! serial number, or creates one when none is cached.

use vstd::prelude::*;

use crate::events::DeviceStatusEvent;
use crate::events::LightningStrikeEvent;
use crate::events::RainStartEvent;
use crate::events::RapidWindEvent;
use crate::hub::Hub;
use crate::hub::hub_eqv;
use crate::obs::ObservationAirEvent;
use crate::obs::ObservationEvent;
use crate::obs::ObservationSkyEvent;
use crate::station::Station;
use crate::station::merge_air;
use crate::station::merge_device;
use crate::station::merge_lightning;
use crate::station::merge_observation;
use crate::station::merge_rain;
use crate::station::merge_sky;
use crate::station::merge_wind;
use crate::station::spec_merge_air;
use crate::station::spec_merge_device;
use crate::station::spec_merge_lightning;
use crate::station::spec_merge_observation;
use crate::station::spec_merge_rain;
use crate::station::spec_merge_sky;
use crate::station::spec_merge_wind;
use crate::station::spec_station_from_air;
use crate::station::spec_station_from_device;
use crate::station::spec_station_from_lightning;
use crate::station::spec_station_from_observation;
use crate::station::spec_station_from_rain;
use crate::station::spec_station_from_sky;
use crate::station::spec_station_from_wind;
use crate::station::station_eqv;
use crate::strutil::str_eq;

verus! {

/// Index of the first station in `s` whose serial number reads `sn`.
pub open spec fn spec_station_index(s: Seq<Station>, sn: Seq<char>) -> Option<int>
    decreases s.len(),
{
    if s.len() == 0 {
        None
    } else if s[0].serial_number@ == sn {
        Some(0int)
    } else {
        match spec_station_index(s.drop_first(), sn) {
            Some(i) => Some(i + 1),
            None => None,
        }
    }
}

/// Index of the first hub in `s` whose serial number reads `sn`.
pub open spec fn spec_hub_index(s: Seq<Hub>, sn: Seq<char>) -> Option<int>
    decreases s.len(),
{
    if s.len() == 0 {
        None
    } else if s[0].serial_number@ == sn {
        Some(0int)
    } else {
        match spec_hub_index(s.drop_first(), sn) {
            Some(i) => Some(i + 1),
            None => None,
        }
    }
}

/// A found station index points at the first match.
pub proof fn lemma_station_index_some(s: Seq<Station>, sn: Seq<char>)
    ensures
        spec_station_index(s, sn) matches Some(i) ==> 0 <= i < s.len()
            && s[i].serial_number@ == sn && forall|k: int|
            0 <= k < i ==> s[k].serial_number@ != sn,
    decreases s.len(),
{
    if s.len() > 0 && s[0].serial_number@ != sn {
        let t = s.drop_first();
        lemma_station_index_some(t, sn);
        match spec_station_index(t, sn) {
            Some(j) => {
                assert(t[j] == s[j + 1]);
                assert forall|k: int| 0 <= k < j + 1 implies s[k].serial_number@ != sn by {
                    if k > 0 {
                        assert(t[k - 1] == s[k]);
                    }
                }
            },
            None => {},
        }
    }
}

/// No station index comes back exactly when no serial number matches.
pub proof fn lemma_station_index_none(s: Seq<Station>, sn: Seq<char>)
    ensures
        (spec_station_index(s, sn) is None) <==> (forall|k: int|
            0 <= k < s.len() ==> s[k].serial_number@ != sn),
    decreases s.len(),
{
    if s.len() > 0 {
        let t = s.drop_first();
        lemma_station_index_none(t, sn);
        if forall|k: int| 0 <= k < s.len() ==> s[k].serial_number@ != sn {
            assert forall|k: int| 0 <= k < t.len() implies t[k].serial_number@ != sn by {
                assert(t[k] == s[k + 1]);
            }
        }
        if spec_station_index(s, sn) is None {
            assert forall|k: int| 0 <= k < s.len() implies s[k].serial_number@ != sn by {
                if k > 0 {
                    assert(t[k - 1] == s[k]);
                }
            }
        }
    }
}

/// The first match determines the station index.
pub proof fn lemma_station_index_at(s: Seq<Station>, sn: Seq<char>, i: int)
    requires
        0 <= i < s.len(),
        s[i].serial_number@ == sn,
        forall|k: int| 0 <= k < i ==> s[k].serial_number@ != sn,
    ensures
        spec_station_index(s, sn) == Some(i),
    decreases i,
{
    if i > 0 {
        lemma_station_index_at(s.drop_first(), sn, i - 1);
    }
}

/// A found hub index points at the first match.
pub proof fn lemma_hub_index_some(s: Seq<Hub>, sn: Seq<char>)
    ensures
        spec_hub_index(s, sn) matches Some(i) ==> 0 <= i < s.len() && s[i].serial_number@ == sn
            && forall|k: int| 0 <= k < i ==> s[k].serial_number@ != sn,
    decreases s.len(),
{
    if s.len() > 0 && s[0].serial_number@ != sn {
        let t = s.drop_first();
        lemma_hub_index_some(t, sn);
        match spec_hub_index(t, sn) {
            Some(j) => {
                assert(t[j] == s[j + 1]);
                assert forall|k: int| 0 <= k < j + 1 implies s[k].serial_number@ != sn by {
                    if k > 0 {
                        assert(t[k - 1] == s[k]);
                    }
                }
            },
            None => {},
        }
    }
}

/// No hub index comes back exactly when no serial number matches.
pub proof fn lemma_hub_index_none(s: Seq<Hub>, sn: Seq<char>)
    ensures
        (spec_hub_index(s, sn) is None) <==> (forall|k: int|
            0 <= k < s.len() ==> s[k].serial_number@ != sn),
    decreases s.len(),
{
    if s.len() > 0 {
        let t = s.drop_first();
        lemma_hub_index_none(t, sn);
        if forall|k: int| 0 <= k < s.len() ==> s[k].serial_number@ != sn {
            assert forall|k: int| 0 <= k < t.len() implies t[k].serial_number@ != sn by {
                assert(t[k] == s[k + 1]);
            }
        }
        if spec_hub_index(s, sn) is None {
            assert forall|k: int| 0 <= k < s.len() implies s[k].serial_number@ != sn by {
                if k > 0 {
                    assert(t[k - 1] == s[k]);
                }
            }
        }
    }
}

/// The first match determines the hub index.
pub proof fn lemma_hub_index_at(s: Seq<Hub>, sn: Seq<char>, i: int)
    requires
        0 <= i < s.len(),
        s[i].serial_number@ == sn,
        forall|k: int| 0 <= k < i ==> s[k].serial_number@ != sn,
    ensures
        spec_hub_index(s, sn) == Some(i),
    decreases i,
{
    if i > 0 {
        lemma_hub_index_at(s.drop_first(), sn, i - 1);
    }
}

/// No two stations share a serial number.
pub open spec fn stations_wf(s: Seq<Station>) -> bool {
    forall|i: int, j: int|
        0 <= i < j < s.len() ==> s[i].serial_number@ != s[j].serial_number@
}

/// No two hubs share a serial number.
pub open spec fn hubs_wf(s: Seq<Hub>) -> bool {
    forall|i: int, j: int|
        0 <= i < j < s.len() ==> s[i].serial_number@ != s[j].serial_number@
}

/// The hub cache after a hub record is upserted: an existing record
/// under the same serial number leaves by a swap with the last record,
/// and the new record is appended.
pub open spec fn spec_hub_upsert(s: Seq<Hub>, h: Hub) -> Seq<Hub> {
    match spec_hub_index(s, h.serial_number@) {
        Some(i) => s.update(i, s.last()).drop_last().push(h),
        None => s.push(h),
    }
}

/// The station cache after a combined observation event: merged into the
/// record under its serial number, or appended as a new record.
pub open spec fn spec_cache_observation(s: Seq<Station>, e: ObservationEvent) -> Seq<Station> {
    match spec_station_index(s, e.serial_number@) {
        Some(i) => s.update(i, spec_merge_observation(s[i], e)),
        None => s.push(spec_station_from_observation(e)),
    }
}

/// The station cache after a rapid wind event.
pub open spec fn spec_cache_wind(s: Seq<Station>, e: RapidWindEvent) -> Seq<Station> {
    match spec_station_index(s, e.serial_number@) {
        Some(i) => s.update(i, spec_merge_wind(s[i], e)),
        None => s.push(spec_station_from_wind(e)),
    }
}

/// The station cache after a rain start event.
pub open spec fn spec_cache_rain(s: Seq<Station>, e: RainStartEvent) -> Seq<Station> {
    match spec_station_index(s, e.serial_number@) {
        Some(i) => s.update(i, spec_merge_rain(s[i], e)),
        None => s.push(spec_station_from_rain(e)),
    }
}

/// The station cache after a lightning strike event.
pub open spec fn spec_cache_lightning(s: Seq<Station>, e: LightningStrikeEvent) -> Seq<Station> {
    match spec_station_index(s, e.serial_number@) {
        Some(i) => s.update(i, spec_merge_lightning(s[i], e)),
        None => s.push(spec_station_from_lightning(e)),
    }
}

/// The station cache after an air observation event.
pub open spec fn spec_cache_air(s: Seq<Station>, e: ObservationAirEvent) -> Seq<Station> {
    match spec_station_index(s, e.serial_number@) {
        Some(i) => s.update(i, spec_merge_air(s[i], e)),
        None => s.push(spec_station_from_air(e)),
    }
}

/// The station cache after a sky observation event.
pub open spec fn spec_cache_sky(s: Seq<Station>, e: ObservationSkyEvent) -> Seq<Station> {
    match spec_station_index(s, e.serial_number@) {
        Some(i) => s.update(i, spec_merge_sky(s[i], e)),
        None => s.push(spec_station_from_sky(e)),
    }
}

/// The station cache after a device status event.
pub open spec fn spec_cache_device(s: Seq<Station>, e: DeviceStatusEvent) -> Seq<Station> {
    match spec_station_index(s, e.serial_number@) {
        Some(i) => s.update(i, spec_merge_device(s[i], e)),
        None => s.push(spec_station_from_device(e)),
    }
}

/// Updating a station in place with a record under the same serial
/// number keeps serial numbers distinct.
proof fn lemma_stations_wf_update(s: Seq<Station>, i: int, st: Station)
    requires
        stations_wf(s),
        0 <= i < s.len(),
        st.serial_number@ == s[i].serial_number@,
    ensures
        stations_wf(s.update(i, st)),
{
}

/// Appending a station under a fresh serial number keeps serial numbers
/// distinct.
proof fn lemma_stations_wf_push(s: Seq<Station>, st: Station)
    requires
        stations_wf(s),
        forall|k: int| 0 <= k < s.len() ==> s[k].serial_number@ != st.serial_number@,
    ensures
        stations_wf(s.push(st)),
{
}

/// Swap-removing the hub under a serial number and appending a record
/// under that same serial number keeps serial numbers distinct.
proof fn lemma_hubs_wf_upsert(s: Seq<Hub>, i: int, h: Hub)
    requires
        hubs_wf(s),
        0 <= i < s.len(),
        s[i].serial_number@ == h.serial_number@,
    ensures
        hubs_wf(s.update(i, s.last()).drop_last().push(h)),
{
    let t = s.update(i, s.last()).drop_last();
    assert forall|p: int| 0 <= p < t.len() implies t[p].serial_number@ != h.serial_number@ by {
        if p == i {
            assert(t[p] == s[s.len() - 1]);
        } else {
            assert(t[p] == s[p]);
        }
    }
    assert forall|p: int, q: int|
        0 <= p < q < t.push(h).len() implies t.push(h)[p].serial_number@ != t.push(
        h,
    )[q].serial_number@ by {
        if q < t.len() {
            let sp = if p == i {
                s.len() - 1
            } else {
                p
            };
            let sq = if q == i {
                s.len() - 1
            } else {
                q
            };
            assert(t[p] == s[sp]);
            assert(t[q] == s[sq]);
        }
    }
}

/// Appending a hub under a fresh serial number keeps serial numbers
/// distinct.
proof fn lemma_hubs_wf_push(s: Seq<Hub>, h: Hub)
    requires
        hubs_wf(s),
        forall|k: int| 0 <= k < s.len() ==> s[k].serial_number@ != h.serial_number@,
    ensures
        hubs_wf(s.push(h)),
{
}

/// The cache of hub and station records a listener builds up.
pub struct Tempest {
    hubs_cached: Vec<Hub>,
    stations_cached: Vec<Station>,
}

impl Tempest {
    /// The cached hub records, in cache order.
    pub closed spec fn hubs(&self) -> Seq<Hub> {
        self.hubs_cached@
    }

    /// The cached station records, in cache order.
    pub closed spec fn stations(&self) -> Seq<Station> {
        self.stations_cached@
    }

    /// At most one hub record and one station record per serial number.
    pub open spec fn wf(&self) -> bool {
        hubs_wf(self.hubs()) && stations_wf(self.stations())
    }

    /// An empty cache.
    pub fn new() -> (r: Tempest)
        ensures
            r.wf(),
            r.hubs() == Seq::<Hub>::empty(),
            r.stations() == Seq::<Station>::empty(),
    {
        let r = Tempest { hubs_cached: Vec::new(), stations_cached: Vec::new() };
        proof {
            assert(r.hubs() =~= Seq::<Hub>::empty());
            assert(r.stations() =~= Seq::<Station>::empty());
        }
        r
    }

    /// How many stations are cached.
    pub fn station_count(&self) -> (r: usize)
        ensures
            r == self.stations().len(),
    {
        self.stations_cached.len()
    }

    /// How many hubs are cached.
    pub fn hub_count(&self) -> (r: usize)
        ensures
            r == self.hubs().len(),
    {
        self.hubs_cached.len()
    }

    /// Index of the cached hub with the given serial number, if any.
    fn get_hub_index(&self, serial_number: &str) -> (r: Option<usize>)
        ensures
            match r {
                Some(i) => spec_hub_index(self.hubs(), serial_number@) == Some(i as int),
                None => spec_hub_index(self.hubs(), serial_number@) is None,
            },
    {
        let n = self.hubs_cached.len();
        let mut i: usize = 0;
        while i < n
            invariant
                n == self.hubs().len(),
                0 <= i <= n,
                forall|k: int| 0 <= k < i ==> self.hubs()[k].serial_number@ != serial_number@,
            decreases n - i,
        {
            if str_eq(self.hubs_cached[i].serial_number.as_str(), serial_number) {
                proof {
                    lemma_hub_index_at(self.hubs(), serial_number@, i as int);
                }
                return Some(i);
            }
            i += 1;
        }
        proof {
            lemma_hub_index_none(self.hubs(), serial_number@);
        }
        None
    }

    /// Index of the cached station with the given serial number, if any.
    fn get_station_index(&self, serial_number: &str) -> (r: Option<usize>)
        ensures
            match r {
                Some(i) => spec_station_index(self.stations(), serial_number@) == Some(i as int),
                None => spec_station_index(self.stations(), serial_number@) is None,
            },
    {
        let n = self.stations_cached.len();
        let mut i: usize = 0;
        while i < n
            invariant
                n == self.stations().len(),
                0 <= i <= n,
                forall|k: int| 0 <= k < i ==> self.stations()[k].serial_number@ != serial_number@,
            decreases n - i,
        {
            if str_eq(self.stations_cached[i].serial_number.as_str(), serial_number) {
                proof {
                    lemma_station_index_at(self.stations(), serial_number@, i as int);
                }
                return Some(i);
            }
            i += 1;
        }
        proof {
            lemma_station_index_none(self.stations(), serial_number@);
        }
        None
    }

    /// Inserts the hub record, replacing any cached record under the
    /// same serial number wholesale.
    pub fn hub_upsert(&mut self, hub_data: Hub)
        requires
            old(self).wf(),
        ensures
            final(self).wf(),
            final(self).hubs() == spec_hub_upsert(old(self).hubs(), hub_data),
            final(self).stations() == old(self).stations(),
    {
        let index = self.get_hub_index(hub_data.serial_number.as_str());
        proof {
            lemma_hub_index_some(self.hubs(), hub_data.serial_number@);
        }
        if let Some(index) = index {
            proof {
                lemma_hubs_wf_upsert(self.hubs(), index as int, hub_data);
            }
            self.hubs_cached.swap_remove(index);
        } else {
            proof {
                lemma_hub_index_none(self.hubs(), hub_data.serial_number@);
                lemma_hubs_wf_push(self.hubs(), hub_data);
            }
        }
        self.hubs_cached.push(hub_data);
    }

    /// Merges a combined observation event into the station cache.
    pub fn cache_station_observation(&mut self, observation: ObservationEvent)
        requires
            old(self).wf(),
        ensures
            final(self).wf(),
            final(self).stations() == spec_cache_observation(
                old(self).stations(),
                observation,
            ),
            final(self).hubs() == old(self).hubs(),
    {
        let index = self.get_station_index(observation.serial_number.as_str());
        proof {
            lemma_station_index_some(self.stations(), observation.serial_number@);
        }
        if let Some(index) = index {
            let existing = self.stations_cached.remove(index);
            let merged = merge_observation(existing, observation);
            proof {
                assert(old(self).stations().remove(index as int).insert(index as int, merged)
                    =~= old(self).stations().update(index as int, merged));
                lemma_stations_wf_update(old(self).stations(), index as int, merged);
            }
            self.stations_cached.insert(index, merged);
        } else {
            proof {
                lemma_station_index_none(self.stations(), observation.serial_number@);
                lemma_stations_wf_push(
                    self.stations(),
                    spec_station_from_observation(observation),
                );
            }
            self.stations_cached.push(Station::from(observation));
        }
    }

    /// Merges a rapid wind event into the station cache.
    pub fn cache_station_wind_event(&mut self, event: RapidWindEvent)
        requires
            old(self).wf(),
        ensures
            final(self).wf(),
            final(self).stations() == spec_cache_wind(old(self).stations(), event),
            final(self).hubs() == old(self).hubs(),
    {
        let index = self.get_station_index(event.serial_number.as_str());
        proof {
            lemma_station_index_some(self.stations(), event.serial_number@);
        }
        if let Some(index) = index {
            let existing = self.stations_cached.remove(index);
            let merged = merge_wind(existing, event);
            proof {
                assert(old(self).stations().remove(index as int).insert(index as int, merged)
                    =~= old(self).stations().update(index as int, merged));
                lemma_stations_wf_update(old(self).stations(), index as int, merged);
            }
            self.stations_cached.insert(index, merged);
        } else {
            proof {
                lemma_station_index_none(self.stations(), event.serial_number@);
                lemma_stations_wf_push(self.stations(), spec_station_from_wind(event));
            }
            self.stations_cached.push(Station::from(event));
        }
    }

    /// Merges a rain start event into the station cache.
    pub fn cache_station_rain_event(&mut self, event: RainStartEvent)
        requires
            old(self).wf(),
        ensures
            final(self).wf(),
            final(self).stations() == spec_cache_rain(old(self).stations(), event),
            final(self).hubs() == old(self).hubs(),
    {
        let index = self.get_station_index(event.serial_number.as_str());
        proof {
            lemma_station_index_some(self.stations(), event.serial_number@);
        }
        if let Some(index) = index {
            let existing = self.stations_cached.remove(index);
            let merged = merge_rain(existing, event);
            proof {
                assert(old(self).stations().remove(index as int).insert(index as int, merged)
                    =~= old(self).stations().update(index as int, merged));
                lemma_stations_wf_update(old(self).stations(), index as int, merged);
            }
            self.stations_cached.insert(index, merged);
        } else {
            proof {
                lemma_station_index_none(self.stations(), event.serial_number@);
                lemma_stations_wf_push(self.stations(), spec_station_from_rain(event));
            }
            self.stations_cached.push(Station::from(event));
        }
    }

    /// Merges a lightning strike event into the station cache.
    pub fn cache_station_lightning_event(&mut self, event: LightningStrikeEvent)
        requires
            old(self).wf(),
        ensures
            final(self).wf(),
            final(self).stations() == spec_cache_lightning(old(self).stations(), event),
            final(self).hubs() == old(self).hubs(),
    {
        let index = self.get_station_index(event.serial_number.as_str());
        proof {
            lemma_station_index_some(self.stations(), event.serial_number@);
        }
        if let Some(index) = index {
            let existing = self.stations_cached.remove(index);
            let merged = merge_lightning(existing, event);
            proof {
                assert(old(self).stations().remove(index as int).insert(index as int, merged)
                    =~= old(self).stations().update(index as int, merged));
                lemma_stations_wf_update(old(self).stations(), index as int, merged);
            }
            self.stations_cached.insert(index, merged);
        } else {
            proof {
                lemma_station_index_none(self.stations(), event.serial_number@);
                lemma_stations_wf_push(self.stations(), spec_station_from_lightning(event));
            }
            self.stations_cached.push(Station::from(event));
        }
    }

    /// Merges an air observation event into the station cache.
    pub fn cache_station_air_event(&mut self, event: ObservationAirEvent)
        requires
            old(self).wf(),
        ensures
            final(self).wf(),
            final(self).stations() == spec_cache_air(old(self).stations(), event),
            final(self).hubs() == old(self).hubs(),
    {
        let index = self.get_station_index(event.serial_number.as_str());
        proof {
            lemma_station_index_some(self.stations(), event.serial_number@);
        }
        if let Some(index) = index {
            let existing = self.stations_cached.remove(index);
            let merged = merge_air(existing, event);
            proof {
                assert(old(self).stations().remove(index as int).insert(index as int, merged)
                    =~= old(self).stations().update(index as int, merged));
                lemma_stations_wf_update(old(self).stations(), index as int, merged);
            }
            self.stations_cached.insert(index, merged);
        } else {
            proof {
                lemma_station_index_none(self.stations(), event.serial_number@);
                lemma_stations_wf_push(self.stations(), spec_station_from_air(event));
            }
            self.stations_cached.push(Station::from(event));
        }
    }

    /// Merges a sky observation event into the station cache.
    pub fn cache_station_sky_event(&mut self, event: ObservationSkyEvent)
        requires
            old(self).wf(),
        ensures
            final(self).wf(),
            final(self).stations() == spec_cache_sky(old(self).stations(), event),
            final(self).hubs() == old(self).hubs(),
    {
        let index = self.get_station_index(event.serial_number.as_str());
        proof {
            lemma_station_index_some(self.stations(), event.serial_number@);
        }
        if let Some(index) = index {
            let existing = self.stations_cached.remove(index);
            let merged = merge_sky(existing, event);
            proof {
                assert(old(self).stations().remove(index as int).insert(index as int, merged)
                    =~= old(self).stations().update(index as int, merged));
                lemma_stations_wf_update(old(self).stations(), index as int, merged);
            }
            self.stations_cached.insert(index, merged);
        } else {
            proof {
                lemma_station_index_none(self.stations(), event.serial_number@);
                lemma_stations_wf_push(self.stations(), spec_station_from_sky(event));
            }
            self.stations_cached.push(Station::from(event));
        }
    }

    /// Merges a device status event into the station cache.
    pub fn cache_station_device_status(&mut self, event: DeviceStatusEvent)
        requires
            old(self).wf(),
        ensures
            final(self).wf(),
            final(self).stations() == spec_cache_device(old(self).stations(), event),
            final(self).hubs() == old(self).hubs(),
    {
        let index = self.get_station_index(event.serial_number.as_str());
        proof {
            lemma_station_index_some(self.stations(), event.serial_number@);
        }
        if let Some(index) = index {
            let existing = self.stations_cached.remove(index);
            let merged = merge_device(existing, event);
            proof {
                assert(old(self).stations().remove(index as int).insert(index as int, merged)
                    =~= old(self).stations().update(index as int, merged));
                lemma_stations_wf_update(old(self).stations(), index as int, merged);
            }
            self.stations_cached.insert(index, merged);
        } else {
            proof {
                lemma_station_index_none(self.stations(), event.serial_number@);
                lemma_stations_wf_push(self.stations(), spec_station_from_device(event));
            }
            self.stations_cached.push(Station::from(event));
        }
    }

    /// A copy of the cached hub with the given serial number, if one is
    /// cached.
    pub fn get_hub_by_sn(&self, serial_number: &str) -> (r: Option<Hub>)
        ensures
            match spec_hub_index(self.hubs(), serial_number@) {
                Some(i) => r matches Some(h) && hub_eqv(h, self.hubs()[i]),
                None => r is None,
            },
    {
        proof {
            lemma_hub_index_some(self.hubs(), serial_number@);
        }
        match self.get_hub_index(serial_number) {
            Some(i) => Some(self.hubs_cached[i].clone()),
            None => None,
        }
    }

    /// A copy of the cached hub that relays for the given station, if
    /// one is cached.
    pub fn get_hub_from_station(&self, station: Station) -> (r: Option<Hub>)
        ensures
            match spec_hub_index(self.hubs(), station.hub_sn@) {
                Some(i) => r matches Some(h) && hub_eqv(h, self.hubs()[i]),
                None => r is None,
            },
    {
        self.get_hub_by_sn(station.hub_sn.as_str())
    }

    /// A copy of the cached station with the given serial number, if one
    /// is cached.
    pub fn get_station_by_sn(&self, serial_number: &str) -> (r: Option<Station>)
        ensures
            match spec_station_index(self.stations(), serial_number@) {
                Some(i) => r matches Some(st) && station_eqv(st, self.stations()[i]),
                None => r is None,
            },
    {
        proof {
            lemma_station_index_some(self.stations(), serial_number@);
        }
        match self.get_station_index(serial_number) {
            Some(i) => Some(self.stations_cached[i].clone()),
            None => None,
        }
    }


    /// The most recent battery voltage (as f32 bits) of the cached
    /// station with the given serial number, if the station and that reading are cached.
    pub fn get_battery_voltage(&self, serial_number: &str) -> (r: Option<u32>)
        ensures
            r == match spec_station_index(self.stations(), serial_number@) {
                Some(i) => self.stations()[i].battery_voltage,
                None => None,
            },
    {
        proof {
            lemma_station_index_some(self.stations(), serial_number@);
        }
        match self.get_station_index(serial_number) {
            Some(i) => self.stations_cached[i].battery_voltage,
            None => None,
        }
    }

    /// The most recent wind lull in meters per second (as f32 bits) of the cached
    /// station with the given serial number, if the station and that reading are cached.
    pub fn get_wind_lull(&self, serial_number: &str) -> (r: Option<u32>)
        ensures
            r == match spec_station_index(self.stations(), serial_number@) {
                Some(i) => self.stations()[i].wind_lull,
                None => None,
            },
    {
        proof {
            lemma_station_index_some(self.stations(), serial_number@);
        }
        match self.get_station_index(serial_number) {
            Some(i) => self.stations_cached[i].wind_lull,
            None => None,
        }
    }

    /// The most recent average wind speed in meters per second (as f32 bits) of the cached
    /// station with the given serial number, if the station and that reading are cached.
    pub fn get_wind_avg(&self, serial_number: &str) -> (r: Option<u32>)
        ensures
            r == match spec_station_index(self.stations(), serial_number@) {
                Some(i) => self.stations()[i].wind_avg,
                None => None,
            },
    {
        proof {
            lemma_station_index_some(self.stations(), serial_number@);
        }
        match self.get_station_index(serial_number) {
            Some(i) => self.stations_cached[i].wind_avg,
            None => None,
        }
    }

    /// The most recent wind gust in meters per second (as f32 bits) of the cached
    /// station with the given serial number, if the station and that reading are cached.
    pub fn get_wind_gust(&self, serial_number: &str) -> (r: Option<u32>)
        ensures
            r == match spec_station_index(self.stations(), serial_number@) {
                Some(i) => self.stations()[i].wind_gust,
                None => None,
            },
    {
        proof {
            lemma_station_index_some(self.stations(), serial_number@);
        }
        match self.get_station_index(serial_number) {
            Some(i) => self.stations_cached[i].wind_gust,
            None => None,
        }
    }

    /// The most recent wind direction in degrees (as f32 bits) of the cached
    /// station with the given serial number, if the station and that reading are cached.
    pub fn get_wind_direction(&self, serial_number: &str) -> (r: Option<u32>)
        ensures
            r == match spec_station_index(self.stations(), serial_number@) {
                Some(i) => self.stations()[i].wind_direction,
                None => None,
            },
    {
        proof {
            lemma_station_index_some(self.stations(), serial_number@);
        }
        match self.get_station_index(serial_number) {
            Some(i) => self.stations_cached[i].wind_direction,
            None => None,
        }
    }

    /// The most recent station pressure in millibars (as f32 bits) of the cached
    /// station with the given serial number, if the station and that reading are cached.
    pub fn get_station_pressure(&self, serial_number: &str) -> (r: Option<u32>)
        ensures
            r == match spec_station_index(self.stations(), serial_number@) {
                Some(i) => self.stations()[i].station_pressure,
                None => None,
            },
    {
        proof {
            lemma_station_index_some(self.stations(), serial_number@);
        }
        match self.get_station_index(serial_number) {
            Some(i) => self.stations_cached[i].station_pressure,
            None => None,
        }
    }

    /// The most recent air temperature in degrees Celsius (as f32 bits) of the cached
    /// station with the given serial number, if the station and that reading are cached.
    pub fn get_air_temperature(&self, serial_number: &str) -> (r: Option<u32>)
        ensures
            r == match spec_station_index(self.stations(), serial_number@) {
                Some(i) => self.stations()[i].air_temperature,
                None => None,
            },
    {
        proof {
            lemma_station_index_some(self.stations(), serial_number@);
        }
        match self.get_station_index(serial_number) {
            Some(i) => self.stations_cached[i].air_temperature,
            None => None,
        }
    }

    /// The most recent illuminance in lux (as f32 bits) of the cached
    /// station with the given serial number, if the station and that reading are cached.
    pub fn get_lux(&self, serial_number: &str) -> (r: Option<u32>)
        ensures
            r == match spec_station_index(self.stations(), serial_number@) {
                Some(i) => self.stations()[i].illuminance,
                None => None,
            },
    {
        proof {
            lemma_station_index_some(self.stations(), serial_number@);
        }
        match self.get_station_index(serial_number) {
            Some(i) => self.stations_cached[i].illuminance,
            None => None,
        }
    }

    /// The most recent UV index (as f32 bits) of the cached
    /// station with the given serial number, if the station and that reading are cached.
    pub fn get_uv(&self, serial_number: &str) -> (r: Option<u32>)
        ensures
            r == match spec_station_index(self.stations(), serial_number@) {
                Some(i) => self.stations()[i].uv,
                None => None,
            },
    {
        proof {
            lemma_station_index_some(self.stations(), serial_number@);
        }
        match self.get_station_index(serial_number) {
            Some(i) => self.stations_cached[i].uv,
            None => None,
        }
    }

    /// The most recent solar radiation in watts per square meter (as f32 bits) of the cached
    /// station with the given serial number, if the station and that reading are cached.
    pub fn get_solar_radiation(&self, serial_number: &str) -> (r: Option<u32>)
        ensures
            r == match spec_station_index(self.stations(), serial_number@) {
                Some(i) => self.stations()[i].solar_radiation,
                None => None,
            },
    {
        proof {
            lemma_station_index_some(self.stations(), serial_number@);
        }
        match self.get_station_index(serial_number) {
            Some(i) => self.stations_cached[i].solar_radiation,
            None => None,
        }
    }

    /// The most recent rain over the previous minute in millimeters (as f32 bits) of the cached
    /// station with the given serial number, if the station and that reading are cached.
    pub fn get_rain_prev_min(&self, serial_number: &str) -> (r: Option<u32>)
        ensures
            r == match spec_station_index(self.stations(), serial_number@) {
                Some(i) => self.stations()[i].rain_amount_prev_minute,
                None => None,
            },
    {
        proof {
            lemma_station_index_some(self.stations(), serial_number@);
        }
        match self.get_station_index(serial_number) {
            Some(i) => self.stations_cached[i].rain_amount_prev_minute,
            None => None,
        }
    }

    /// The most recent timestamp of the previous rain start (in seconds
    /// since the epoch) of the cached station with the given serial number, if the station and that reading are cached.
    pub fn get_prev_rain_start(&self, serial_number: &str) -> (r: Option<u64>)
        ensures
            r == match spec_station_index(self.stations(), serial_number@) {
                Some(i) => self.stations()[i].prev_rain_timestamp,
                None => None,
            },
    {
        proof {
            lemma_station_index_some(self.stations(), serial_number@);
        }
        match self.get_station_index(serial_number) {
            Some(i) => self.stations_cached[i].prev_rain_timestamp,
            None => None,
        }
    }

    /// The most recent kind of precipitation of the cached station with the given
    /// serial number, if the station and that reading are cached.
    pub fn get_precipitation_type(&self, serial_number: &str) -> (r: Option<crate::data::PrecipitationType>)
        ensures
            r == match spec_station_index(self.stations(), serial_number@) {
                Some(i) => self.stations()[i].precipitation_type,
                None => None,
            },
    {
        proof {
            lemma_station_index_some(self.stations(), serial_number@);
        }
        match self.get_station_index(serial_number) {
            Some(i) => self.stations_cached[i].precipitation_type,
            None => None,
        }
    }

    /// The most recent average lightning strike distance in kilometers,
    /// as f32 bits, of the cached station with the given serial number,
    /// if the station and that reading are cached.
    pub fn get_lightning_avg_distance(&self, serial_number: &str) -> (r: Option<u32>)
        ensures
            r == match spec_station_index(self.stations(), serial_number@) {
                Some(i) => self.stations()[i].lightning_strike_avg_distance,
                None => None,
            },
    {
        proof {
            lemma_station_index_some(self.stations(), serial_number@);
        }
        match self.get_station_index(serial_number) {
            Some(i) => self.stations_cached[i].lightning_strike_avg_distance,
            None => None,
        }
    }

    /// The most recent lightning strike count, as f32 bits, of the
    /// cached station with the given serial number, if the station and
    /// that reading are cached.
    pub fn get_lightning_count(&self, serial_number: &str) -> (r: Option<u32>)
        ensures
            r == match spec_station_index(self.stations(), serial_number@) {
                Some(i) => self.stations()[i].lightning_strike_count,
                None => None,
            },
    {
        proof {
            lemma_station_index_some(self.stations(), serial_number@);
        }
        match self.get_station_index(serial_number) {
            Some(i) => self.stations_cached[i].lightning_strike_count,
            None => None,
        }
    }

    /// What `get_wind_speed` returns: the speed reading of the cached
    /// station's most recent rapid wind event, if all of that is there.
    pub open spec fn spec_get_wind_speed(&self, sn: Seq<char>) -> Option<u32> {
        match spec_station_index(self.stations(), sn) {
            Some(i) => match self.stations()[i].wind_event {
                Some(w) => if w.ob@.len() >= 2 {
                    Some(w.ob@[1].bits32)
                } else {
                    None
                },
                None => None,
            },
            None => None,
        }
    }

    /// The most recent wind speed in meters per second, as f32 bits,
    /// from the cached station's last rapid wind event.
    pub fn get_wind_speed(&self, serial_number: &str) -> (r: Option<u32>)
        ensures
            r == self.spec_get_wind_speed(serial_number@),
    {
        proof {
            lemma_station_index_some(self.stations(), serial_number@);
        }
        match self.get_station_index(serial_number) {
            Some(i) => match &self.stations_cached[i].wind_event {
                Some(w) => if w.ob.len() >= 2 {
                    Some(w.ob[1].bits32)
                } else {
                    None
                },
                None => None,
            },
            None => None,
        }
    }

    /// What `get_lightning_timestamp` returns: slot 0 of the cached station's most
    /// recent lightning strike event, if all of that is there.
    pub open spec fn spec_get_lightning_timestamp(&self, sn: Seq<char>) -> Option<u64> {
        match spec_station_index(self.stations(), sn) {
            Some(i) => match self.stations()[i].lightning_event {
                Some(ev) => if ev.evt@.len() >= 1 {
                    Some(ev.evt@[0])
                } else {
                    None
                },
                None => None,
            },
            None => None,
        }
    }

    /// The most recent lightning strike timestamp, in seconds since the epoch, from the cached
    /// station's last lightning strike event.
    pub fn get_lightning_timestamp(&self, serial_number: &str) -> (r: Option<u64>)
        ensures
            r == self.spec_get_lightning_timestamp(serial_number@),
    {
        proof {
            lemma_station_index_some(self.stations(), serial_number@);
        }
        match self.get_station_index(serial_number) {
            Some(i) => match &self.stations_cached[i].lightning_event {
                Some(ev) => if ev.evt.len() >= 1 {
                    Some(ev.evt[0])
                } else {
                    None
                },
                None => None,
            },
            None => None,
        }
    }

    /// What `get_lightning_distance` returns: slot 1 of the cached station's most
    /// recent lightning strike event, if all of that is there.
    pub open spec fn spec_get_lightning_distance(&self, sn: Seq<char>) -> Option<u64> {
        match spec_station_index(self.stations(), sn) {
            Some(i) => match self.stations()[i].lightning_event {
                Some(ev) => if ev.evt@.len() >= 2 {
                    Some(ev.evt@[1])
                } else {
                    None
                },
                None => None,
            },
            None => None,
        }
    }

    /// The most recent lightning strike distance in kilometers, from the cached
    /// station's last lightning strike event.
    pub fn get_lightning_distance(&self, serial_number: &str) -> (r: Option<u64>)
        ensures
            r == self.spec_get_lightning_distance(serial_number@),
    {
        proof {
            lemma_station_index_some(self.stations(), serial_number@);
        }
        match self.get_station_index(serial_number) {
            Some(i) => match &self.stations_cached[i].lightning_event {
                Some(ev) => if ev.evt.len() >= 2 {
                    Some(ev.evt[1])
                } else {
                    None
                },
                None => None,
            },
            None => None,
        }
    }

    /// What `get_lightning_energy` returns: slot 2 of the cached station's most
    /// recent lightning strike event, if all of that is there.
    pub open spec fn spec_get_lightning_energy(&self, sn: Seq<char>) -> Option<u64> {
        match spec_station_index(self.stations(), sn) {
            Some(i) => match self.stations()[i].lightning_event {
                Some(ev) => if ev.evt@.len() >= 3 {
                    Some(ev.evt@[2])
                } else {
                    None
                },
                None => None,
            },
            None => None,
        }
    }

    /// The most recent lightning strike energy reading in joules, from the cached
    /// station's last lightning strike event.
    pub fn get_lightning_energy(&self, serial_number: &str) -> (r: Option<u64>)
        ensures
            r == self.spec_get_lightning_energy(serial_number@),
    {
        proof {
            lemma_station_index_some(self.stations(), serial_number@);
        }
        match self.get_station_index(serial_number) {
            Some(i) => match &self.stations_cached[i].lightning_event {
                Some(ev) => if ev.evt.len() >= 3 {
                    Some(ev.evt[2])
                } else {
                    None
                },
                None => None,
            },
            None => None,
        }
    }

    /// Copies of the cached stations that report through the hub with
    /// the given serial number, in cache order.
    pub fn get_stations_by_hub_sn(&self, serial_number: &str) -> (r: Vec<Station>)
        ensures
            ({
                let matching = spec_stations_for_hub(self.stations(), serial_number@);
                r@.len() == matching.len() && forall|k: int|
                    0 <= k < matching.len() ==> station_eqv(#[trigger] r@[k], matching[k])
            }),
    {
        let mut stations: Vec<Station> = Vec::new();
        let n = self.stations_cached.len();
        let mut i: usize = 0;
        while i < n
            invariant
                n == self.stations().len(),
                0 <= i <= n,
                ({
                    let matching = spec_stations_for_hub(
                        self.stations().take(i as int),
                        serial_number@,
                    );
                    stations@.len() == matching.len() && forall|k: int|
                        0 <= k < matching.len() ==> station_eqv(
                            #[trigger] stations@[k],
                            matching[k],
                        )
                }),
            decreases n - i,
        {
            proof {
                assert(self.stations().take(i + 1).drop_last() =~= self.stations().take(i as int));
                assert(self.stations().take(i + 1).last() == self.stations()[i as int]);
            }
            if str_eq(self.stations_cached[i].hub_sn.as_str(), serial_number) {
                stations.push(self.stations_cached[i].clone());
            }
            i += 1;
        }
        proof {
            assert(self.stations().take(n as int) =~= self.stations());
        }
        stations
    }
}

/// The stations of `s` that report through the hub with serial number
/// `sn`, in order.
pub open spec fn spec_stations_for_hub(s: Seq<Station>, sn: Seq<char>) -> Seq<Station>
    decreases s.len(),
{
    if s.len() == 0 {
        Seq::empty()
    } else {
        let rest = spec_stations_for_hub(s.drop_last(), sn);
        if s.last().hub_sn@ == sn {
            rest.push(s.last())
        } else {
            rest
        }
    }
}

} // verus!
