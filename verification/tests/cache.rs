//! The cache, driven through the datagram pipeline: each test feeds the
//! JSON trees of broadcast payloads to `process_datagram` with caching
//! on and then queries the cache.

use rtempest::JsonNum;
use rtempest::JsonValue;
use rtempest::PrecipitationType;
use rtempest::Tempest;

/// The f32 bits a JSON number ends up as.
fn b32(f: f64) -> u32 {
    (f as f32).to_bits()
}

/// A JSON number token with a fractional part.
fn jnum(f: f64) -> JsonNum {
    JsonNum {
        uint_val: None,
        int_val: None,
        bits32: (f as f32).to_bits(),
        bits64: f.to_bits(),
        trunc: f as i64,
    }
}

/// An unsigned integer JSON number token.
fn junum(u: u64) -> JsonNum {
    let f = u as f64;
    JsonNum {
        uint_val: Some(u),
        int_val: i64::try_from(u).ok(),
        bits32: (f as f32).to_bits(),
        bits64: f.to_bits(),
        trunc: f as i64,
    }
}

/// A signed integer JSON number token.
fn jinum(i: i64) -> JsonNum {
    let f = i as f64;
    JsonNum {
        uint_val: u64::try_from(i).ok(),
        int_val: Some(i),
        bits32: (f as f32).to_bits(),
        bits64: f.to_bits(),
        trunc: f as i64,
    }
}

fn s(v: &str) -> JsonValue {
    JsonValue::Str(v.to_string())
}

fn n(v: JsonNum) -> JsonValue {
    JsonValue::Num(v)
}

fn arr(items: Vec<JsonValue>) -> JsonValue {
    JsonValue::Arr(items)
}

fn obj(pairs: Vec<(&str, JsonValue)>) -> JsonValue {
    JsonValue::Obj(pairs.into_iter().map(|(k, v)| (k.to_string(), v)).collect())
}

fn station_observation_tree() -> JsonValue {
    obj(vec![
        ("serial_number", s("ST-00000512")),
        ("type", s("obs_st")),
        ("hub_sn", s("HB-00013030")),
        (
            "obs",
            arr(vec![arr(vec![
                n(junum(1588948614)),
                n(jnum(0.18)),
                n(jnum(0.22)),
                n(jnum(0.27)),
                n(junum(144)),
                n(junum(6)),
                n(jnum(1017.57)),
                n(jnum(22.37)),
                n(jnum(50.26)),
                n(junum(328)),
                n(jnum(0.03)),
                n(junum(3)),
                n(jnum(0.000000)),
                n(junum(0)),
                n(junum(0)),
                n(junum(0)),
                n(jnum(2.410)),
                n(junum(1)),
            ])]),
        ),
        ("firmware_revision", n(junum(129))),
    ])
}

fn secondary_station_observation_tree() -> JsonValue {
    obj(vec![
        ("serial_number", s("ST-00000513")),
        ("type", s("obs_st")),
        ("hub_sn", s("HB-00013030")),
        (
            "obs",
            arr(vec![arr(vec![
                n(junum(1588948614)),
                n(jnum(0.18)),
                n(jnum(0.22)),
                n(jnum(0.27)),
                n(junum(144)),
                n(junum(6)),
                n(jnum(1017.57)),
                n(jnum(22.37)),
                n(jnum(50.26)),
                n(junum(328)),
                n(jnum(0.03)),
                n(junum(3)),
                n(jnum(0.000000)),
                n(junum(0)),
                n(junum(0)),
                n(junum(0)),
                n(jnum(2.410)),
                n(junum(1)),
            ])]),
        ),
        ("firmware_revision", n(junum(129))),
    ])
}

fn hub_tree() -> JsonValue {
    obj(vec![
        ("serial_number", s("HB-00013030")),
        ("type", s("hub_status")),
        ("firmware_revision", s("35")),
        ("uptime", n(junum(1670133))),
        ("rssi", n(jinum(-62))),
        ("timestamp", n(junum(1495724691))),
        ("reset_flags", s("BOR,PIN,POR")),
        ("seq", n(junum(48))),
        (
            "fs",
            arr(vec![n(junum(1)), n(junum(0)), n(junum(15675411)), n(junum(524288))]),
        ),
        (
            "radio_stats",
            arr(vec![n(junum(2)), n(junum(1)), n(junum(0)), n(junum(3)), n(junum(2839))]),
        ),
        ("mqtt_stats", arr(vec![n(junum(1)), n(junum(0))])),
    ])
}

fn rain_tree() -> JsonValue {
    obj(vec![
        ("serial_number", s("ST-00000512")),
        ("type", s("evt_precip")),
        ("hub_sn", s("HB-00000001")),
        ("evt", arr(vec![n(junum(1493322445))])),
    ])
}

fn lightning_tree() -> JsonValue {
    obj(vec![
        ("serial_number", s("ST-00000512")),
        ("type", s("evt_strike")),
        ("hub_sn", s("HB-00000001")),
        ("evt", arr(vec![n(junum(1493322445)), n(junum(27)), n(junum(3848))])),
    ])
}

fn rapidwind_tree() -> JsonValue {
    obj(vec![
        ("serial_number", s("ST-00000512")),
        ("type", s("rapid_wind")),
        ("hub_sn", s("HB-00000001")),
        ("ob", arr(vec![n(junum(1493322445)), n(jnum(2.3)), n(junum(128))])),
    ])
}

fn air_tree() -> JsonValue {
    obj(vec![
        ("serial_number", s("ST-00000512")),
        ("type", s("obs_air")),
        ("hub_sn", s("HB-00000001")),
        (
            "obs",
            arr(vec![arr(vec![
                n(junum(1493164835)),
                n(jnum(835.0)),
                n(jnum(10.0)),
                n(junum(45)),
                n(junum(0)),
                n(junum(0)),
                n(jnum(3.46)),
                n(junum(1)),
            ])]),
        ),
        ("firmware_revision", n(junum(17))),
    ])
}

fn sky_tree() -> JsonValue {
    obj(vec![
        ("serial_number", s("ST-00000512")),
        ("type", s("obs_sky")),
        ("hub_sn", s("HB-00000001")),
        (
            "obs",
            arr(vec![arr(vec![
                n(junum(1493321340)),
                n(junum(9000)),
                n(junum(10)),
                n(jnum(0.0)),
                n(jnum(2.6)),
                n(jnum(4.6)),
                n(jnum(7.4)),
                n(junum(187)),
                n(jnum(3.12)),
                n(junum(1)),
                n(junum(130)),
                JsonValue::Null,
                n(junum(0)),
                n(junum(3)),
            ])]),
        ),
        ("firmware_revision", n(junum(29))),
    ])
}

/// A fresh caching pipeline with no filter; feeds each tree through it.
fn cache_all(trees: Vec<JsonValue>) -> Tempest {
    let mut tempest = Tempest::new();
    for tree in trees.iter() {
        tempest.process_datagram(true, &None, tree);
    }
    tempest
}

#[test]
fn station_count() {
    let mut tempest = Tempest::new();

    // check cached station count while empty
    assert_eq!(0, tempest.station_count());

    // check cached station count after receiving a station observation event
    tempest.process_datagram(true, &None, &station_observation_tree());
    assert_eq!(1, tempest.station_count());

    // check cached station count after receiving a station observation event
    tempest.process_datagram(true, &None, &station_observation_tree());
    assert_eq!(1, tempest.station_count());
}

#[test]
fn hub_count() {
    let mut tempest = Tempest::new();

    // check cached hub count while empty
    assert_eq!(0, tempest.hub_count());

    // check cached hub count after receiving a hub status event
    tempest.process_datagram(true, &None, &hub_tree());
    assert_eq!(1, tempest.hub_count());

    // check cached hub count after receiving a hub status event for the same hub
    tempest.process_datagram(true, &None, &hub_tree());
    assert_eq!(1, tempest.hub_count());
}

#[test]
fn get_hub_by_sn() {
    let tempest = cache_all(vec![hub_tree()]);

    // try to retrieve hub with correct SN
    let hub = tempest.get_hub_by_sn("HB-00013030");

    assert!(hub.is_some());

    // try to retrieve hub with incorrect SN
    let hub = tempest.get_hub_by_sn("HB-00000000");

    assert!(hub.is_none())
}

#[test]
fn get_hub_from_station() {
    let tempest = cache_all(vec![hub_tree(), station_observation_tree()]);

    let station = tempest
        .get_station_by_sn("ST-00000512")
        .expect("Unable to retrieve station");

    let hub = tempest.get_hub_from_station(station);

    assert!(hub.is_some());
}

#[test]
fn get_station_by_sn() {
    let tempest = cache_all(vec![station_observation_tree()]);

    // try to retrieve station with correct SN
    let station = tempest.get_station_by_sn("ST-00000512");

    assert!(station.is_some());

    // try to retrieve hub with incorrect SN
    let station = tempest.get_station_by_sn("ST-00000513");

    assert!(station.is_none())
}

#[test]
fn get_stations_by_hub_sn() {
    let tempest = cache_all(vec![
        hub_tree(),
        station_observation_tree(),
        secondary_station_observation_tree(),
    ]);

    let stations = tempest.get_stations_by_hub_sn("HB-00013030");

    assert_eq!(stations.len(), 2);
}

#[test]
fn cache_rain_event_only() {
    let tempest = cache_all(vec![rain_tree()]);

    assert_eq!(tempest.get_prev_rain_start("ST-00000512"), Some(1493322445));
}

#[test]
fn cache_air_event_only() {
    let tempest = cache_all(vec![air_tree()]);

    assert_eq!(tempest.get_air_temperature("ST-00000512"), Some(b32(10.0)));
}

#[test]
fn cache_sky_event_only() {
    let tempest = cache_all(vec![sky_tree()]);

    assert_eq!(tempest.get_lux("ST-00000512"), Some(b32(9000.0)));
}

#[test]
fn cache_wind_event_only() {
    let tempest = cache_all(vec![rapidwind_tree()]);

    assert_eq!(tempest.get_wind_speed("ST-00000512"), Some(b32(2.3)));
}

#[test]
fn cache_lightning_event_only() {
    let tempest = cache_all(vec![lightning_tree()]);

    assert_eq!(tempest.get_lightning_energy("ST-00000512"), Some(3848));
}

#[test]
fn get_battery_voltage() {
    let tempest = cache_all(vec![station_observation_tree()]);

    assert_eq!(tempest.get_battery_voltage("ST-00000512"), Some(b32(2.410)));
}

#[test]
fn get_wind_lull() {
    let tempest = cache_all(vec![station_observation_tree()]);

    assert_eq!(tempest.get_wind_lull("ST-00000512"), Some(b32(0.18)));
}

#[test]
fn get_wind_avg() {
    let tempest = cache_all(vec![station_observation_tree()]);

    assert_eq!(tempest.get_wind_avg("ST-00000512"), Some(b32(0.27)));
}

#[test]
fn get_wind_gust() {
    let tempest = cache_all(vec![station_observation_tree()]);

    assert_eq!(tempest.get_wind_gust("ST-00000512"), Some(b32(0.27)));
}

#[test]
fn get_wind_direction() {
    let tempest = cache_all(vec![station_observation_tree()]);

    assert_eq!(tempest.get_wind_direction("ST-00000512"), Some(b32(3.0)));
}

#[test]
fn get_wind_speed() {
    let tempest = cache_all(vec![station_observation_tree(), rapidwind_tree()]);

    assert_eq!(tempest.get_wind_speed("ST-00000512"), Some(b32(2.3)));
}

#[test]
fn get_station_pressure() {
    let tempest = cache_all(vec![station_observation_tree()]);

    assert_eq!(
        tempest.get_station_pressure("ST-00000512"),
        Some(b32(1017.57))
    );
}

#[test]
fn get_air_temperature() {
    let tempest = cache_all(vec![station_observation_tree()]);

    assert_eq!(tempest.get_air_temperature("ST-00000512"), Some(b32(22.37)));
}

#[test]
fn get_lux() {
    let tempest = cache_all(vec![station_observation_tree()]);

    assert_eq!(tempest.get_lux("ST-00000512"), Some(b32(328.0)));
}

#[test]
fn get_uv() {
    let tempest = cache_all(vec![station_observation_tree()]);

    assert_eq!(tempest.get_uv("ST-00000512"), Some(b32(0.03)));
}

#[test]
fn get_solar_radiation() {
    let tempest = cache_all(vec![station_observation_tree()]);

    assert_eq!(tempest.get_solar_radiation("ST-00000512"), Some(b32(3.0)));
}

#[test]
fn get_rain_prev_min() {
    let tempest = cache_all(vec![station_observation_tree()]);

    assert_eq!(tempest.get_rain_prev_min("ST-00000512"), Some(b32(0.0)));
}

#[test]
fn get_precip_type() {
    let tempest = cache_all(vec![station_observation_tree()]);

    assert_eq!(
        tempest.get_precipitation_type("ST-00000512"),
        Some(PrecipitationType::NoPrecipitation)
    );
}

#[test]
fn get_lightning_avg_distance() {
    let tempest = cache_all(vec![station_observation_tree()]);

    assert_eq!(
        tempest.get_lightning_avg_distance("ST-00000512"),
        Some(b32(0.0))
    );
}

#[test]
fn get_lightning_count() {
    let tempest = cache_all(vec![station_observation_tree()]);

    assert_eq!(tempest.get_lightning_count("ST-00000512"), Some(b32(0.0)));
}

#[test]
fn get_lightning_timestamp() {
    let tempest = cache_all(vec![station_observation_tree(), lightning_tree()]);

    assert_eq!(
        tempest.get_lightning_timestamp("ST-00000512"),
        Some(1493322445)
    );
}

#[test]
fn get_lightning_distance() {
    let tempest = cache_all(vec![station_observation_tree(), lightning_tree()]);

    assert_eq!(tempest.get_lightning_distance("ST-00000512"), Some(27));
}

#[test]
fn get_lightning_energy() {
    let tempest = cache_all(vec![station_observation_tree(), lightning_tree()]);

    assert_eq!(tempest.get_lightning_energy("ST-00000512"), Some(3848));
}

#[test]
fn rain_then_air_merge_keeps_both() {
    let tempest = cache_all(vec![rain_tree(), air_tree()]);

    assert_eq!(1, tempest.station_count());
    assert_eq!(tempest.get_prev_rain_start("ST-00000512"), Some(1493322445));
    assert_eq!(tempest.get_air_temperature("ST-00000512"), Some(b32(10.0)));
    assert_eq!(tempest.get_station_pressure("ST-00000512"), Some(b32(835.0)));
}

#[test]
fn hub_replaced_wholesale() {
    let mut tempest = cache_all(vec![hub_tree()]);

    let updated = obj(vec![
        ("serial_number", s("HB-00013030")),
        ("type", s("hub_status")),
        ("firmware_revision", s("36")),
        ("uptime", n(junum(99))),
        ("rssi", n(jinum(-10))),
        ("timestamp", n(junum(1495724999))),
        ("reset_flags", s("BOR")),
        ("seq", n(junum(49))),
        (
            "radio_stats",
            arr(vec![n(junum(2)), n(junum(1)), n(junum(0)), n(junum(7)), n(junum(2839))]),
        ),
        ("mqtt_stats", arr(vec![n(junum(1)), n(junum(0))])),
    ]);
    tempest.process_datagram(true, &None, &updated);

    assert_eq!(1, tempest.hub_count());
    let hub = tempest.get_hub_by_sn("HB-00013030").expect("hub is cached");
    assert_eq!(hub.firmware_revision, "36");
    assert_eq!(hub.uptime, 99);
    assert_eq!(hub.reset_flags, vec!["BOR".to_string()]);
    assert_eq!(hub.fs, None);
    assert_eq!(hub.radio_stats.radio_status, rtempest::RadioStatus::BLEConnected);
}

#[test]
fn rain_created_station_lists_under_its_hub() {
    let tempest = cache_all(vec![rain_tree()]);

    let station = tempest
        .get_station_by_sn("ST-00000512")
        .expect("station is cached");
    assert_eq!(station.hub_sn, "HB-00000001");
    assert_eq!(tempest.get_stations_by_hub_sn("HB-00000001").len(), 1);
}

#[test]
fn unknown_radio_code_reads_as_unknown() {
    let tree = obj(vec![
        ("serial_number", s("HB-00013030")),
        ("type", s("hub_status")),
        ("firmware_revision", s("35")),
        ("uptime", n(junum(1670133))),
        ("rssi", n(jinum(-62))),
        ("timestamp", n(junum(1495724691))),
        ("reset_flags", s("BOR")),
        ("seq", n(junum(48))),
        (
            "radio_stats",
            arr(vec![n(junum(2)), n(junum(1)), n(junum(0)), n(junum(5)), n(junum(2839))]),
        ),
        ("mqtt_stats", arr(vec![n(junum(1)), n(junum(0))])),
    ]);
    let tempest = cache_all(vec![tree]);

    let hub = tempest.get_hub_by_sn("HB-00013030").expect("hub is cached");
    assert_eq!(hub.radio_stats.radio_status, rtempest::RadioStatus::Unknown);
}
