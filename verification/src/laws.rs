//! Properties of the library that hold across functions: the decode
//! round trip, idempotence of hub caching, station counting, and the
//! field-merge discipline.

use vstd::prelude::*;

use crate::cache::lemma_station_index_at;
use crate::cache::lemma_station_index_none;
use crate::cache::lemma_hub_index_none;
use crate::cache::spec_cache_air;
use crate::cache::spec_cache_observation;
use crate::cache::spec_cache_rain;
use crate::cache::spec_hub_index;
use crate::cache::spec_hub_upsert;
use crate::cache::spec_station_index;
use crate::cache::spec_stations_for_hub;
use crate::data::EventError;
use crate::data::spec_precip_of_code;
use crate::decode::observation_decoded;
use crate::decode::spec_num_rows_field;
use crate::events::RainStartEvent;
use crate::hub::Hub;
use crate::obs::ObservationAirEvent;
use crate::obs::ObservationEvent;
use crate::obs::spec_row_slot;
use crate::station::Station;
use crate::station::ok_or_none;
use crate::station::spec_station_from_observation;

verus! {

/// Decoding an `obs_st` datagram and re-reading a slot through the
/// event's accessor returns exactly the number at that position of the
/// datagram's first observation row: the accessor result for each of
/// the 18 slots is the f32 bits at that slot, or `ParseError` when the
/// row or the slot is missing; the precipitation slot decodes its code.
pub proof fn lemma_observation_round_trip(v: crate::json::JsonValue, e: ObservationEvent, i: int)
    requires
        observation_decoded(v, e),
        0 <= i < 18,
    ensures
        spec_num_rows_field(v, "obs"@) matches Some(rows) && spec_row_slot(e.obs, i) == (
        if rows.len() > 0 && i < rows[0].len() {
            Ok::<u32, EventError>(rows[0][i].bits32)
        } else {
            Err::<u32, EventError>(EventError::ParseError)
        }),
        spec_num_rows_field(v, "obs"@) matches Some(rows) && e.spec_get_precip_type() == (
        if rows.len() > 0 && 13 < rows[0].len() {
            spec_precip_of_code(rows[0][13].spec_trunc_u16())
        } else {
            Err::<crate::data::PrecipitationType, EventError>(EventError::ParseError)
        }),
{
}

/// Upserting a hub record grows the cache only when its serial number
/// is new: the count stays the same when a record under that serial
/// number was cached, and grows by one when none was.
pub proof fn lemma_hub_upsert_count(s: Seq<Hub>, h: Hub)
    ensures
        spec_hub_upsert(s, h).len() == if spec_hub_index(s, h.serial_number@) is Some {
            s.len()
        } else {
            s.len() + 1
        },
{
    crate::cache::lemma_hub_index_some(s, h.serial_number@);
}

/// After an upsert, a hub under that serial number is cached.
pub proof fn lemma_hub_upsert_present(s: Seq<Hub>, h: Hub)
    ensures
        spec_hub_index(spec_hub_upsert(s, h), h.serial_number@) is Some,
{
    crate::cache::lemma_hub_index_some(s, h.serial_number@);
    let after = spec_hub_upsert(s, h);
    assert(after.last() == h);
    lemma_hub_index_none(after, h.serial_number@);
    assert(!(forall|k: int|
        0 <= k < after.len() ==> after[k].serial_number@ != h.serial_number@)) by {
        assert(after[after.len() - 1].serial_number@ == h.serial_number@);
    }
}

/// Caching hub status reports is idempotent per serial number: once a
/// hub is cached, upserting another record under the same serial number
/// leaves the hub count unchanged. In particular, the same report twice
/// from an empty cache yields a count of one.
pub proof fn lemma_hub_upsert_idempotent(s: Seq<Hub>, h1: Hub, h2: Hub)
    requires
        h1.serial_number@ == h2.serial_number@,
    ensures
        spec_hub_upsert(spec_hub_upsert(s, h1), h2).len() == spec_hub_upsert(s, h1).len(),
{
    let s1 = spec_hub_upsert(s, h1);
    lemma_hub_upsert_present(s, h1);
    assert(spec_hub_index(s1, h2.serial_number@) is Some);
    lemma_hub_upsert_count(s1, h2);
}

/// From an empty cache, two hub status reports under the same serial
/// number — in particular the identical report twice — leave exactly
/// one hub cached.
pub proof fn lemma_same_hub_twice_counts_one(h1: Hub, h2: Hub)
    requires
        h1.serial_number@ == h2.serial_number@,
    ensures
        spec_hub_upsert(spec_hub_upsert(Seq::empty(), h1), h2).len() == 1,
{
    lemma_hub_upsert_count(Seq::empty(), h1);
    lemma_hub_upsert_idempotent(Seq::empty(), h1, h2);
}

/// Two combined observation events for two distinct serial numbers
/// under the same hub, cached into an empty station cache, yield
/// exactly two stations, and the hub's station listing returns exactly
/// those two, in order.
pub proof fn lemma_two_stations_cached(e1: ObservationEvent, e2: ObservationEvent)
    requires
        e1.serial_number@ != e2.serial_number@,
        e1.hub_sn@ == e2.hub_sn@,
    ensures
        ({
            let s1 = spec_cache_observation(Seq::empty(), e1);
            let s2 = spec_cache_observation(s1, e2);
            &&& s2.len() == 2
            &&& s2[0] == spec_station_from_observation(e1)
            &&& s2[1] == spec_station_from_observation(e2)
            &&& spec_stations_for_hub(s2, e1.hub_sn@) == s2
        }),
{
    let empty = Seq::<Station>::empty();
    let st1 = spec_station_from_observation(e1);
    let st2 = spec_station_from_observation(e2);
    let s1 = spec_cache_observation(empty, e1);
    assert(spec_station_index(empty, e1.serial_number@) is None);
    assert(s1 == empty.push(st1));
    assert(s1.len() == 1 && s1[0] == st1);
    assert(spec_station_index(s1, e2.serial_number@) is None) by {
        lemma_station_index_none(s1, e2.serial_number@);
        assert(s1[0].serial_number@ == e1.serial_number@);
    }
    let s2 = spec_cache_observation(s1, e2);
    assert(s2 == s1.push(st2));
    assert(s2.len() == 2 && s2[0] == st1 && s2[1] == st2);
    assert(spec_stations_for_hub(s2, e1.hub_sn@) == s2) by {
        assert(s2.last() == st2 && st2.hub_sn@ == e1.hub_sn@);
        assert(s2.drop_last() =~= s1);
        assert(s1.last() == st1 && st1.hub_sn@ == e1.hub_sn@);
        assert(s1.drop_last() =~= empty);
        assert(spec_stations_for_hub(empty, e1.hub_sn@) == Seq::<Station>::empty());
        assert(spec_stations_for_hub(s1, e1.hub_sn@) =~= s1);
        assert(spec_stations_for_hub(s2, e1.hub_sn@) =~= s2);
    }
}

/// Field-merge correctness: a rain start event for a serial number not
/// yet cached, followed by an air observation event for the same serial
/// number, yields one station that holds both the rain-derived field
/// (the previous rain start timestamp) and the air-derived readings at
/// once — neither event kind clobbers the fields it does not own.
pub proof fn lemma_rain_then_air_merge(
    s: Seq<Station>,
    rain: RainStartEvent,
    air: ObservationAirEvent,
)
    requires
        spec_station_index(s, rain.serial_number@) is None,
        air.serial_number@ == rain.serial_number@,
        rain.evt@.len() >= 1,
    ensures
        ({
            let s1 = spec_cache_rain(s, rain);
            let s2 = spec_cache_air(s1, air);
            spec_station_index(s2, air.serial_number@) matches Some(i) && {
                let st = s2[i];
                &&& st.prev_rain_timestamp == Some(rain.evt@[0])
                &&& st.air_temperature == ok_or_none(spec_row_slot(air.obs, 2))
                &&& st.station_pressure == ok_or_none(spec_row_slot(air.obs, 1))
                &&& st.relative_humidity == ok_or_none(spec_row_slot(air.obs, 3))
                &&& st.battery_voltage == ok_or_none(spec_row_slot(air.obs, 6))
                &&& st.rain_event matches Some(re) && re.evt@ == rain.evt@
                &&& st.air_event matches Some(ae) && ae.serial_number@ == air.serial_number@
            }
        }),
{
    let s1 = spec_cache_rain(s, rain);
    let st1 = crate::station::spec_station_from_rain(rain);
    assert(s1 == s.push(st1));
    lemma_station_index_none(s, rain.serial_number@);
    lemma_station_index_at(s1, air.serial_number@, s.len() as int);
    assert(spec_station_index(s1, air.serial_number@) == Some(s.len() as int));
    let s2 = spec_cache_air(s1, air);
    assert(s2 == s1.update(s.len() as int, crate::station::spec_merge_air(st1, air)));
    lemma_station_index_at(s2, air.serial_number@, s.len() as int);
}

} // verus!
