//! Relay-station management: provider adapters, the station store, the
//! configuration switch and the service layer that ties them together.
pub mod about;
pub mod adapters;
pub mod http;
pub mod json;
pub mod platform;
pub mod provider;
pub mod rows;
pub mod seqs;
pub mod service;
pub mod sessions;
pub mod settings;
pub mod station;
pub mod store;
pub mod text;
