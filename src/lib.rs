//! A set-once registry for the bundle of database clients that a server builds
//! at startup and reads from everywhere afterwards.

pub mod clients;
pub mod laws;
