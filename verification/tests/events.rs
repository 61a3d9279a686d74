//! Event records built directly: accessors and station/hub construction.

use rtempest::DeviceStatusEvent;
use rtempest::Hub;
use rtempest::HubStatusEvent;
use rtempest::JsonNum;
use rtempest::LightningStrikeEvent;
use rtempest::ObservationAirEvent;
use rtempest::ObservationEvent;
use rtempest::ObservationSkyEvent;
use rtempest::PrecipitationType;
use rtempest::RadioStatus;
use rtempest::RainStartEvent;
use rtempest::RapidWindEvent;
use rtempest::Station;

/// The f32 bits a JSON number ends up as.
fn b32(f: f64) -> u32 {
    (f as f32).to_bits()
}

/// A JSON number carrying a fractional value.
fn jnum(f: f64) -> JsonNum {
    JsonNum {
        uint_val: None,
        int_val: None,
        bits32: (f as f32).to_bits(),
        bits64: f.to_bits(),
        trunc: f as i64,
    }
}

fn observation_fixture() -> ObservationEvent {
    ObservationEvent {
        serial_number: "ST-00000512".to_string(),
        hub_sn: "HB-00013030".to_string(),
        firmware_revision: 129,
        event_type: "obs_st".to_string(),
        obs: vec![vec![
            jnum(1588948614.0),
            jnum(0.18),
            jnum(0.22),
            jnum(0.27),
            jnum(144.0),
            jnum(6.0),
            jnum(1017.57),
            jnum(22.37),
            jnum(50.26),
            jnum(328.0),
            jnum(0.03),
            jnum(3.0),
            jnum(0.000000),
            jnum(0.0),
            jnum(0.0),
            jnum(0.0),
            jnum(2.410),
            jnum(1.0),
        ]],
    }
}

fn air_fixture() -> ObservationAirEvent {
    ObservationAirEvent {
        serial_number: "AR-00004049".to_string(),
        event_type: "obs_air".to_string(),
        hub_sn: "HB-00000001".to_string(),
        firmware_revision: 17,
        obs: vec![vec![
            jnum(1493164835.0),
            jnum(835.0),
            jnum(10.0),
            jnum(45.0),
            jnum(0.0),
            jnum(0.0),
            jnum(3.46),
            jnum(1.0),
        ]],
    }
}

fn sky_fixture() -> ObservationSkyEvent {
    ObservationSkyEvent {
        serial_number: "SK-00008453".to_string(),
        event_type: "obs_sky".to_string(),
        hub_sn: "HB-00000001".to_string(),
        firmware_revision: 29,
        obs: vec![vec![
            Some(jnum(1493321340.0)),
            Some(jnum(9000.0)),
            Some(jnum(10.0)),
            Some(jnum(0.0)),
            Some(jnum(2.6)),
            Some(jnum(4.6)),
            Some(jnum(7.4)),
            Some(jnum(187.0)),
            Some(jnum(3.12)),
            Some(jnum(1.0)),
            Some(jnum(130.0)),
            Some(jnum(0.0)),
            Some(jnum(0.0)),
            Some(jnum(3.0)),
        ]],
    }
}

fn device_fixture() -> DeviceStatusEvent {
    DeviceStatusEvent {
        serial_number: "AR-00004049".to_string(),
        event_type: "device_status".to_string(),
        hub_sn: "HB-00000001".to_string(),
        timestamp: 1510855923,
        uptime: 2189,
        voltage: b32(3.50),
        firmware_revision: 17,
        rssi: -17,
        hub_rssi: -87,
        sensor_status: 0,
        debug: 0,
    }
}

fn hub_status_fixture() -> HubStatusEvent {
    HubStatusEvent {
        serial_number: "HB-00000001".to_string(),
        event_type: "hub_status".to_string(),
        firmware_revision: "35".to_string(),
        uptime: 1670133,
        rssi: -62,
        timestamp: 1495724691,
        reset_flags: "BOR,PIN,POR".to_string(),
        seq: 48,
        fs: Some(vec![1, 0, 15675411, 524288]),
        radio_stats: vec![2, 1, 0, 3, 2839],
        mqtt_stats: vec![1, 0],
    }
}

#[test]
fn hubstatus_into_hub() {
    let hub_status = hub_status_fixture();

    let hub: Hub = hub_status.clone().into();

    assert_eq!(hub.serial_number, "HB-00000001");
}

#[test]
fn observation_into_station() {
    let observation = observation_fixture();

    let station: Station = observation.clone().into();

    assert_eq!(station.serial_number, "ST-00000512");

    assert_eq!(station.observation, Some(observation));
}

#[test]
fn rapidwind_into_station() {
    let rapidwind = RapidWindEvent {
        serial_number: "SK-00008453".to_string(),
        event_type: "rapid_wind".to_string(),
        hub_sn: "HB-00000001".to_string(),
        ob: vec![jnum(1493322445.0), jnum(2.3), jnum(128.0)],
    };

    let station: Station = rapidwind.clone().into();

    assert_eq!(station.serial_number, "SK-00008453");

    assert_eq!(station.wind_event, Some(rapidwind));
}

#[test]
fn rain_into_station() {
    let rain = RainStartEvent {
        serial_number: "SK-00008453".to_string(),
        event_type: "evt_precip".to_string(),
        hub_sn: "HB-00000001".to_string(),
        evt: vec![1493322445],
    };

    let station: Station = rain.clone().into();

    assert_eq!(station.serial_number, "SK-00008453");

    assert_eq!(station.rain_event, Some(rain));
}

#[test]
fn lightning_into_station() {
    let lightning = LightningStrikeEvent {
        serial_number: "AR-00004049".to_string(),
        event_type: "evt_strike".to_string(),
        hub_sn: "HB-00000001".to_string(),
        evt: vec![1493322445, 27, 3848],
    };

    let station: Station = lightning.clone().into();

    assert_eq!(station.serial_number, "AR-00004049");

    assert_eq!(station.lightning_event, Some(lightning));
}

#[test]
fn air_into_station() {
    let air = air_fixture();

    let station: Station = air.clone().into();

    assert_eq!(station.serial_number, "AR-00004049");

    assert_eq!(station.air_event, Some(air));
}

#[test]
fn sky_into_station() {
    let sky = sky_fixture();

    let station: Station = sky.clone().into();

    assert_eq!(station.serial_number, "SK-00008453");

    assert_eq!(station.sky_event, Some(sky));
}

#[test]
fn devicestatus_into_station() {
    let device = device_fixture();

    let station: Station = device.clone().into();

    assert_eq!(station.serial_number, "AR-00004049");

    assert_eq!(station.device_status, Some(device));
}

#[test]
fn get_data_from_rainstart_event() {
    let rain = RainStartEvent {
        serial_number: "SK-00008453".to_string(),
        event_type: "evt_precip".to_string(),
        hub_sn: "HB-00000001".to_string(),
        evt: vec![1493322445],
    };

    assert_eq!(rain.get_serial_number(), "SK-00008453");
    assert_eq!(rain.get_hub_sn(), "HB-00000001");
    assert_eq!(rain.get_timestamp(), 1493322445);
}

#[test]
fn get_data_from_lightning_event() {
    let lightning = LightningStrikeEvent {
        serial_number: "AR-00004049".to_string(),
        event_type: "evt_strike".to_string(),
        hub_sn: "HB-00000001".to_string(),
        evt: vec![1493322445, 27, 3848],
    };

    assert_eq!(lightning.get_serial_number(), "AR-00004049");
    assert_eq!(lightning.get_hub_sn(), "HB-00000001");
    assert_eq!(lightning.get_timestamp(), 1493322445);
    assert_eq!(lightning.get_strike_distance(), 27);
    assert_eq!(lightning.get_strike_energy(), 3848);
}

#[test]
fn get_data_from_rapidwind_event() {
    let rapidwind = RapidWindEvent {
        serial_number: "SK-00008453".to_string(),
        event_type: "rapid_wind".to_string(),
        hub_sn: "HB-00000001".to_string(),
        ob: vec![jnum(1493322445.0), jnum(2.3), jnum(128.0)],
    };

    assert_eq!(rapidwind.get_serial_number(), "SK-00008453");
    assert_eq!(rapidwind.get_hub_sn(), "HB-00000001");
    assert_eq!(rapidwind.get_timestamp(), 1493322445);
    assert_eq!(rapidwind.get_wind_speed_mps(), b32(2.3));
    assert_eq!(rapidwind.get_wind_direction(), 128);
}

#[test]
fn get_data_from_observationair_event() {
    let air = air_fixture();

    assert_eq!(air.get_serial_number(), "AR-00004049");
    assert_eq!(air.get_hub_sn(), "HB-00000001");
    assert_eq!(air.get_firmware_revision(), 17);
    assert_eq!(air.get_timestamp(), Ok(b32(1493164835.0)));
    assert_eq!(air.get_station_pressure(), Ok(b32(835.0)));
    assert_eq!(air.get_air_temperature(), Ok(b32(10.0)));
    assert_eq!(air.get_relative_humidity(), Ok(b32(45.0)));
    assert_eq!(air.get_lightning_count(), Ok(b32(0.0)));
    assert_eq!(air.get_lightning_avg_distance(), Ok(b32(0.0)));
    assert_eq!(air.get_battery_voltage(), Ok(b32(3.46)));
    assert_eq!(air.get_report_interval(), Ok(b32(1.0)));
}

#[test]
fn get_data_from_observationsky_event() {
    let sky = sky_fixture();

    assert_eq!(sky.get_serial_number(), "SK-00008453");
    assert_eq!(sky.get_hub_sn(), "HB-00000001");
    assert_eq!(sky.get_firmware_revision(), 29);
    assert_eq!(sky.get_timestamp(), Ok(Some(b32(1493321340.0))));
    assert_eq!(sky.get_illuminance(), Ok(Some(b32(9000.0))));
    assert_eq!(sky.get_uv(), Ok(Some(b32(10.0))));
    assert_eq!(sky.get_rain_prev_min(), Ok(Some(b32(0.0))));
    assert_eq!(sky.get_wind_lull(), Ok(Some(b32(2.6))));
    assert_eq!(sky.get_wind_avg(), Ok(Some(b32(4.6))));
    assert_eq!(sky.get_wind_gust(), Ok(Some(b32(7.4))));
    assert_eq!(sky.get_wind_direction(), Ok(Some(b32(187.0))));
    assert_eq!(sky.get_battery_voltage(), Ok(Some(b32(3.12))));
    assert_eq!(sky.get_report_interval(), Ok(Some(b32(1.0))));
    assert_eq!(sky.get_solar_radiation(), Ok(Some(b32(130.0))));
    assert_eq!(sky.get_local_day_rain_accum(), Ok(Some(b32(0.0))));
    assert_eq!(sky.get_precip_type(), Ok(PrecipitationType::NoPrecipitation));
    assert_eq!(sky.get_wind_sample_interval(), Ok(Some(b32(3.0))));
}

#[test]
fn get_data_from_observationevent() {
    let observation = observation_fixture();

    assert_eq!(observation.get_serial_number(), "ST-00000512");
    assert_eq!(observation.get_hub_sn(), "HB-00013030");
    assert_eq!(observation.get_firmware_revision(), 129);
    assert_eq!(observation.get_timestamp(), Ok(b32(1588948614.0)));
    assert_eq!(observation.get_wind_lull(), Ok(b32(0.18)));
    assert_eq!(observation.get_wind_avg(), Ok(b32(0.22)));
    assert_eq!(observation.get_wind_gust(), Ok(b32(0.27)));
    assert_eq!(observation.get_wind_direction(), Ok(b32(144.0)));
    assert_eq!(observation.get_wind_sample_interval(), Ok(b32(6.0)));
    assert_eq!(observation.get_station_pressure(), Ok(b32(1017.57)));
    assert_eq!(observation.get_air_temperature(), Ok(b32(22.37)));
    assert_eq!(observation.get_rh(), Ok(b32(50.26)));
    assert_eq!(observation.get_illuminance(), Ok(b32(328.0)));
    assert_eq!(observation.get_uv(), Ok(b32(0.03)));
    assert_eq!(observation.get_solar_radiation(), Ok(b32(3.0)));
    assert_eq!(observation.get_rain_amount_prev_min(), Ok(b32(0.000000)));
    assert_eq!(
        observation.get_precip_type(),
        Ok(PrecipitationType::NoPrecipitation)
    );
    assert_eq!(observation.get_lightning_avg_distance(), Ok(b32(0.0)));
    assert_eq!(observation.get_lightning_strike_count(), Ok(b32(0.0)));
    assert_eq!(observation.get_battery_voltage(), Ok(b32(2.410)));
    assert_eq!(observation.get_report_interval(), Ok(b32(1.0)));
}

#[test]
fn get_data_from_devicestatusevent() {
    let device = device_fixture();

    assert_eq!(device.get_serial_number(), "AR-00004049");
    assert_eq!(device.get_hub_sn(), "HB-00000001");
    assert_eq!(device.get_timestamp(), 1510855923);
    assert_eq!(device.get_uptime(), 2189);
    assert_eq!(device.get_battery_voltage(), b32(3.50));
    assert_eq!(device.get_firmware_revision(), 17);
    assert_eq!(device.get_rssi(), -17);
    assert_eq!(device.get_hub_rssi(), -87);
    assert!(!device.debugging_enabled());
}

#[test]
fn get_data_from_hubstatusevent() {
    let hub_status = hub_status_fixture();

    assert_eq!(hub_status.get_serial_number(), "HB-00000001");
    assert_eq!(hub_status.get_firmware_revision(), "35");
    assert_eq!(hub_status.get_uptime(), 1670133);
    assert_eq!(hub_status.get_rssi(), -62);
    assert_eq!(hub_status.get_timestamp(), 1495724691);
    assert_eq!(hub_status.get_reset_flags(), "BOR,PIN,POR");
    assert_eq!(hub_status.get_radio_version(), 2);
    assert_eq!(hub_status.get_radio_reboot_count(), 1);
    assert_eq!(hub_status.get_radio_status(), RadioStatus::RadioActive);
    assert_eq!(hub_status.get_radio_network_id(), 2839);
}

#[test]
fn hub_from_status_splits_reset_flags() {
    let hub: Hub = hub_status_fixture().into();

    assert_eq!(
        hub.reset_flags,
        vec!["BOR".to_string(), "PIN".to_string(), "POR".to_string()]
    );
    assert_eq!(hub.radio_stats.version, 2);
    assert_eq!(hub.radio_stats.reboot_count, 1);
    assert_eq!(hub.radio_stats.i2c_bus_error_count, 0);
    assert_eq!(hub.radio_stats.radio_status, RadioStatus::RadioActive);
    assert_eq!(hub.radio_stats.radio_network_id, 2839);
    assert_eq!(hub.fs, Some(vec![1, 0, 15675411, 524288]));
    assert_eq!(hub.mqtt_stats, vec![1, 0]);
}

#[test]
fn precip_codes_decode_and_reject() {
    let mut observation = observation_fixture();
    observation.obs[0][13] = jnum(1.0);
    assert_eq!(observation.get_precip_type(), Ok(PrecipitationType::Rain));
    observation.obs[0][13] = jnum(2.0);
    assert_eq!(observation.get_precip_type(), Ok(PrecipitationType::Hail));
    observation.obs[0][13] = jnum(3.0);
    assert_eq!(observation.get_precip_type(), Ok(PrecipitationType::RainHail));
    observation.obs[0][13] = jnum(5.0);
    assert_eq!(
        observation.get_precip_type(),
        Err(rtempest::EventError::UnexpectedValue)
    );
}

#[test]
fn short_rows_read_as_parse_errors() {
    let mut observation = observation_fixture();
    observation.obs[0].truncate(3);
    assert_eq!(observation.get_wind_avg(), Ok(b32(0.22)));
    assert_eq!(
        observation.get_wind_gust(),
        Err(rtempest::EventError::ParseError)
    );
    observation.obs.clear();
    assert_eq!(
        observation.get_timestamp(),
        Err(rtempest::EventError::ParseError)
    );

    let mut sky = sky_fixture();
    sky.obs[0].truncate(2);
    assert_eq!(sky.get_uv(), Err(rtempest::EventError::ParseError));
    sky.obs[0][1] = None;
    assert_eq!(sky.get_illuminance(), Ok(None));
}
