//! Race telemetry turned into narrative events, and those events into the
//! envelopes that Race Control ingests.

pub mod fixed;
pub mod anchor_sampler;
pub mod basic_incident;
pub mod battle_state;
pub mod car_registry;
pub mod clean_laps;
pub mod config;
pub mod course;
pub mod engagement;
pub mod engine;
pub mod fights;
pub mod gap_finder;
pub mod identity;
pub mod irsdk;
pub mod irsdk_header;
pub mod js_event;
pub mod json;
pub mod lap_book;
pub mod lap_timer;
pub mod lifecycle;
pub mod live_session;
pub mod material;
pub mod micro_sector;
pub mod payload;
pub mod pipeline;
pub mod pressure;
pub mod publisher_event;
pub mod publisher_log;
pub mod publisher_status;
pub mod race_event;
pub mod rank;
pub mod regression_store;
pub mod replay;
pub mod session_info;
pub mod session_watch;
pub mod status_view;
pub mod tally;
pub mod telemetry_frame;
pub mod text;
pub mod toml_doc;
pub mod transport;
pub mod utc;
pub mod yaml;
