//! A stand-in for the cloud interface of an electric-vehicle fleet: vehicle
//! simulators, the streaming wire format, bearer tokens and the rules of the
//! owner interface, as verified functions on plain values.

pub mod auth;
pub mod claims;
pub mod client;
pub mod connection;
pub mod data;
pub mod decimal;
pub mod errors;
pub mod jwt;
pub mod number;
pub mod owner;
pub mod records;
pub mod responses;
pub mod roundtrip;
pub mod simulator;
pub mod streaming;
pub mod testing;
pub mod text;
pub mod tokens;
pub mod types;
pub mod vehicle_data;
pub mod vehicles;
