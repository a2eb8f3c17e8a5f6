//! Tracking-event collector: parameter merging, validation, transformation
//! into structured events, enrichment and backend selection.
pub mod config;
pub mod geoip;
pub mod handlers;
pub mod number;
pub mod params;
pub mod streaming;
pub mod text;
pub mod transformer;
pub mod user_agent;
