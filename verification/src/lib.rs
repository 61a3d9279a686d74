//! Decoding, caching and filtering for WeatherFlow Tempest weather telemetry.
//!
//! A Tempest hub broadcasts one JSON datagram per weather event. This crate
//! holds the verified core of a listener for those datagrams: a generic JSON
//! tree model, a decoder that classifies each datagram by its `type` tag and
//! turns it into a typed event record, a cache of per-hub and per-station
//! state with field-merge rules, and the serial-number filter that decides
//! which events are delivered. Socket I/O and JSON tokenisation live outside
//! this crate; the tree handed in carries every number as its IEEE-754 bit
//! patterns together with its integer readings, so no floating-point
//! arithmetic happens here.

pub mod cache;
pub mod data;
pub mod decode;
pub mod events;
pub mod hub;
pub mod json;
pub mod laws;
pub mod obs;
pub mod process;
pub mod station;
pub mod strutil;
pub mod vecs;

pub use cache::Tempest;
pub use data::EventError;
pub use data::EventType;
pub use data::PrecipitationType;
pub use data::RadioStatus;
pub use decode::DecodeError;
pub use decode::dispatch;
pub use events::DeviceStatusEvent;
pub use events::HubStatusEvent;
pub use events::LightningStrikeEvent;
pub use events::RainStartEvent;
pub use events::RapidWindEvent;
pub use hub::Hub;
pub use hub::RadioStats;
pub use json::JsonNum;
pub use json::JsonValue;
pub use obs::ObservationAirEvent;
pub use obs::ObservationEvent;
pub use obs::ObservationSkyEvent;
pub use process::Processed;
pub use station::Station;
