//! The datagram pipeline: dispatch, filtering and error handling.

use rtempest::DecodeError;
use rtempest::EventType;
use rtempest::JsonNum;
use rtempest::JsonValue;
use rtempest::Processed;
use rtempest::Tempest;
use rtempest::dispatch;

/// A JSON number token with a fractional part.
fn jnum(f: f64) -> JsonNum {
    JsonNum {
        uint_val: None,
        int_val: None,
        bits32: (f as f32).to_bits(),
        bits64: f.to_bits(),
        trunc: f as i64,
    }
}

/// An unsigned integer JSON number token.
fn junum(u: u64) -> JsonNum {
    let f = u as f64;
    JsonNum {
        uint_val: Some(u),
        int_val: i64::try_from(u).ok(),
        bits32: (f as f32).to_bits(),
        bits64: f.to_bits(),
        trunc: f as i64,
    }
}

fn s(v: &str) -> JsonValue {
    JsonValue::Str(v.to_string())
}

fn n(v: JsonNum) -> JsonValue {
    JsonValue::Num(v)
}

fn arr(items: Vec<JsonValue>) -> JsonValue {
    JsonValue::Arr(items)
}

fn obj(pairs: Vec<(&str, JsonValue)>) -> JsonValue {
    JsonValue::Obj(pairs.into_iter().map(|(k, v)| (k.to_string(), v)).collect())
}

fn strike_tree(serial: &str) -> JsonValue {
    obj(vec![
        ("serial_number", s(serial)),
        ("type", s("evt_strike")),
        ("hub_sn", s("HB-00000001")),
        ("evt", arr(vec![n(junum(1493322445)), n(junum(27)), n(junum(3848))])),
    ])
}

#[test]
fn json_to_observation() {
    let tree = obj(vec![
        ("serial_number", s("ST-00000512")),
        ("type", s("obs_st")),
        ("hub_sn", s("HB-00013030")),
        (
            "obs",
            arr(vec![arr(vec![
                n(junum(1588948614)),
                n(jnum(0.18)),
                n(jnum(0.22)),
                n(jnum(0.27)),
                n(junum(144)),
                n(junum(6)),
                n(jnum(1017.57)),
                n(jnum(22.37)),
                n(jnum(50.26)),
                n(junum(328)),
                n(jnum(0.03)),
                n(junum(3)),
                n(jnum(0.000000)),
                n(junum(0)),
                n(junum(0)),
                n(junum(0)),
                n(jnum(2.410)),
                n(junum(1)),
            ])]),
        ),
        ("firmware_revision", n(junum(129))),
    ]);

    let observation = match dispatch(&tree) {
        Ok(EventType::Observation(e)) => e,
        other => panic!("expected an observation event, got {:?}", other),
    };

    assert_eq!(observation.serial_number, "ST-00000512");
}

#[test]
fn lightning_example_populates_lightning_getters() {
    let mut tempest = Tempest::new();
    let outcome = tempest.process_datagram(true, &None, &strike_tree("ST-00000512"));

    assert!(matches!(outcome, Processed::Delivered(EventType::Lightning(_))));
    assert_eq!(tempest.get_lightning_energy("ST-00000512"), Some(3848));
    assert_eq!(tempest.get_lightning_distance("ST-00000512"), Some(27));
    assert_eq!(
        tempest.get_lightning_timestamp("ST-00000512"),
        Some(1493322445)
    );
}

#[test]
fn filter_blocks_other_serial_numbers() {
    let filter = Some(vec!["ST-00084233".to_string()]);
    let mut tempest = Tempest::new();

    let outcome = tempest.process_datagram(false, &filter, &strike_tree("ST-00000512"));

    assert!(matches!(outcome, Processed::Filtered));
}

#[test]
fn filter_delivers_matching_serial_number() {
    let filter = Some(vec!["ST-00084233".to_string()]);
    let mut tempest = Tempest::new();

    let outcome = tempest.process_datagram(false, &filter, &strike_tree("ST-00084233"));

    match outcome {
        Processed::Delivered(EventType::Lightning(e)) => {
            assert_eq!(e.get_serial_number(), "ST-00084233");
        }
        other => panic!("expected delivery, got {:?}", other),
    }
}

#[test]
fn absent_filter_delivers_everything() {
    let mut tempest = Tempest::new();

    let outcome = tempest.process_datagram(false, &None, &strike_tree("ST-00000512"));

    assert!(matches!(outcome, Processed::Delivered(_)));
}

#[test]
fn unknown_type_is_rejected_and_caches_nothing() {
    let mut tempest = Tempest::new();
    let tree = obj(vec![
        ("serial_number", s("ST-00000512")),
        ("type", s("evt_mystery")),
        ("hub_sn", s("HB-00000001")),
        ("evt", arr(vec![n(junum(1493322445))])),
    ]);

    let outcome = tempest.process_datagram(true, &None, &tree);

    assert!(matches!(outcome, Processed::Rejected(DecodeError::UnknownType)));
    assert_eq!(0, tempest.station_count());
    assert_eq!(0, tempest.hub_count());
}

#[test]
fn missing_type_is_rejected() {
    let mut tempest = Tempest::new();
    let tree = obj(vec![("serial_number", s("ST-00000512"))]);

    let outcome = tempest.process_datagram(true, &None, &tree);

    assert!(matches!(outcome, Processed::Rejected(DecodeError::UnknownType)));
    assert_eq!(0, tempest.station_count());
}

#[test]
fn malformed_known_kind_is_rejected() {
    let mut tempest = Tempest::new();
    // an evt_strike datagram whose evt array is too short
    let tree = obj(vec![
        ("serial_number", s("ST-00000512")),
        ("type", s("evt_strike")),
        ("hub_sn", s("HB-00000001")),
        ("evt", arr(vec![n(junum(1493322445))])),
    ]);

    let outcome = tempest.process_datagram(true, &None, &tree);

    assert!(matches!(outcome, Processed::Rejected(DecodeError::Malformed)));
    assert_eq!(0, tempest.station_count());

    // an obs_st datagram without its obs table
    let tree = obj(vec![
        ("serial_number", s("ST-00000512")),
        ("type", s("obs_st")),
        ("hub_sn", s("HB-00013030")),
        ("firmware_revision", n(junum(129))),
    ]);

    let outcome = tempest.process_datagram(true, &None, &tree);

    assert!(matches!(outcome, Processed::Rejected(DecodeError::Malformed)));
    assert_eq!(0, tempest.station_count());
}

#[test]
fn non_integer_field_is_rejected() {
    let mut tempest = Tempest::new();
    // evt values must be exact unsigned integers
    let tree = obj(vec![
        ("serial_number", s("ST-00000512")),
        ("type", s("evt_strike")),
        ("hub_sn", s("HB-00000001")),
        ("evt", arr(vec![n(jnum(1493322445.5)), n(junum(27)), n(junum(3848))])),
    ]);

    let outcome = tempest.process_datagram(true, &None, &tree);

    assert!(matches!(outcome, Processed::Rejected(DecodeError::Malformed)));
}

#[test]
fn rapid_wind_readings_truncate() {
    let tree = obj(vec![
        ("serial_number", s("ST-00000512")),
        ("type", s("rapid_wind")),
        ("hub_sn", s("HB-00000001")),
        ("ob", arr(vec![n(jnum(1493322445.9)), n(jnum(2.3)), n(jnum(359.9))])),
    ]);

    let wind = match dispatch(&tree) {
        Ok(EventType::RapidWind(e)) => e,
        other => panic!("expected a rapid wind event, got {:?}", other),
    };

    assert_eq!(wind.get_timestamp(), 1493322445);
    assert_eq!(wind.get_wind_speed_mps(), (2.3f64 as f32).to_bits());
    assert_eq!(wind.get_wind_direction(), 359);
}

#[test]
fn wind_direction_saturates_at_u16_bounds() {
    let below = JsonNum {
        uint_val: None,
        int_val: Some(-5),
        bits32: (-5.0f32).to_bits(),
        bits64: (-5.0f64).to_bits(),
        trunc: -5,
    };
    let above = junum(70000);
    let wind = rtempest::RapidWindEvent {
        serial_number: "ST-00000512".to_string(),
        event_type: "rapid_wind".to_string(),
        hub_sn: "HB-00000001".to_string(),
        ob: vec![junum(1493322445), below, above],
    };

    assert_eq!(wind.get_wind_direction(), 65535);

    let wind = rtempest::RapidWindEvent {
        ob: vec![junum(1493322445), jnum(2.3), below],
        ..wind
    };
    assert_eq!(wind.get_wind_direction(), 0);
}

#[test]
fn empty_and_trailing_reset_flags_split() {
    let hub = |flags: &str| -> rtempest::Hub {
        rtempest::HubStatusEvent {
            serial_number: "HB-00000001".to_string(),
            event_type: "hub_status".to_string(),
            firmware_revision: "35".to_string(),
            uptime: 0,
            rssi: 0,
            timestamp: 0,
            reset_flags: flags.to_string(),
            seq: 0,
            fs: None,
            radio_stats: vec![0, 0, 0, 0, 0],
            mqtt_stats: vec![],
        }
        .into()
    };

    assert_eq!(hub("").reset_flags, vec!["".to_string()]);
    assert_eq!(hub("BOR").reset_flags, vec!["BOR".to_string()]);
    assert_eq!(
        hub("BOR,,POR").reset_flags,
        vec!["BOR".to_string(), "".to_string(), "POR".to_string()]
    );
    assert_eq!(
        hub("BOR,").reset_flags,
        vec!["BOR".to_string(), "".to_string()]
    );
}

#[test]
fn no_caching_leaves_cache_empty() {
    let mut tempest = Tempest::new();

    let outcome = tempest.process_datagram(false, &None, &strike_tree("ST-00000512"));

    assert!(matches!(outcome, Processed::Delivered(_)));
    assert_eq!(0, tempest.station_count());
    assert_eq!(0, tempest.hub_count());
}

#[test]
fn first_member_of_duplicate_keys_wins() {
    let tree = JsonValue::Obj(vec![
        ("serial_number".to_string(), s("ST-A")),
        ("serial_number".to_string(), s("ST-B")),
        ("type".to_string(), s("evt_precip")),
        ("hub_sn".to_string(), s("HB-00000001")),
        ("evt".to_string(), arr(vec![n(junum(7))])),
    ]);

    let rain = match dispatch(&tree) {
        Ok(EventType::Rain(e)) => e,
        other => panic!("expected a rain event, got {:?}", other),
    };

    assert_eq!(rain.get_serial_number(), "ST-A");
}

#[test]
fn sky_precip_null_reads_as_parse_error() {
    let mut row: Vec<JsonValue> = Vec::new();
    for _ in 0..12 {
        row.push(n(junum(0)));
    }
    row.push(JsonValue::Null);
    row.push(n(junum(3)));
    let tree = obj(vec![
        ("serial_number", s("SK-00008453")),
        ("type", s("obs_sky")),
        ("hub_sn", s("HB-00000001")),
        ("obs", arr(vec![arr(row)])),
        ("firmware_revision", n(junum(29))),
    ]);

    let sky = match dispatch(&tree) {
        Ok(EventType::Sky(e)) => e,
        other => panic!("expected a sky event, got {:?}", other),
    };

    assert_eq!(sky.get_precip_type(), Err(rtempest::EventError::ParseError));
}

#[test]
fn oversized_integer_field_is_rejected() {
    // a firmware revision beyond the 16-bit range fails the decode
    let tree = obj(vec![
        ("serial_number", s("ST-00000512")),
        ("type", s("obs_st")),
        ("hub_sn", s("HB-00013030")),
        ("obs", arr(vec![arr(vec![n(junum(1))])])),
        ("firmware_revision", n(junum(70000))),
    ]);

    assert_eq!(dispatch(&tree), Err(DecodeError::Malformed));
}

#[test]
fn short_radio_stats_are_rejected() {
    let tree = obj(vec![
        ("serial_number", s("HB-00013030")),
        ("type", s("hub_status")),
        ("firmware_revision", s("35")),
        ("uptime", n(junum(1670133))),
        ("rssi", n(junum(0))),
        ("timestamp", n(junum(1495724691))),
        ("reset_flags", s("BOR")),
        ("seq", n(junum(48))),
        ("radio_stats", arr(vec![n(junum(2)), n(junum(1))])),
        ("mqtt_stats", arr(vec![])),
    ]);

    assert_eq!(dispatch(&tree), Err(DecodeError::Malformed));
}
