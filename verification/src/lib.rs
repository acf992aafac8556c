//! Core logic of the zetteln service: the database bootstrap sequence and
//! the version-query path, stated and proved over plain values. The network
//! and database round-trips themselves live outside the library and feed
//! their outcomes in as events.

pub mod bootstrap;
pub mod config;
pub mod notes;
pub mod statements;
pub mod version;
