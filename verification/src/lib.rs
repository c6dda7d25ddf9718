//! Core of a client-server multiplayer game: the state-synchronization and
//! prediction/reconciliation subsystem.
//!
//! All world quantities are fixed-point integers (one unit = 1/1000 of a
//! world metre, angles in milliradians, time deltas in milliseconds), so that
//! the simulation is bit-for-bit deterministic on every machine: the client
//! predicts with exactly the arithmetic the server uses for authority.
//!
//! Modules, leaves first:
//! - [`fixed`]: fixed-point scalar and vector arithmetic.
//! - [`protocol`]: the wire message variants and their channels.
//! - [`codec`]: the binary encoding of messages, with a proved round trip.
//! - [`history`]: the client's bounded log of unacknowledged inputs.
//! - [`entity_map`]: network entity id to local handle translation.
//! - [`sim`]: the kinematic step shared by prediction and authority.
//! - [`combat`]: weapons, health, and the server's hit-scan.
//! - [`server`]: the authoritative per-tick state machine.
//! - [`client`]: prediction and reconciliation against server truth.
//! - [`config`]: the connection configuration values.

pub mod fixed;
pub mod protocol;
pub mod codec;
pub mod history;
pub mod entity_map;
pub mod sim;
pub mod combat;
pub mod server;
pub mod client;
pub mod config;
