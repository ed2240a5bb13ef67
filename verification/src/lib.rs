//! Backend hub for a network of game servers.
//!
//! The crate holds the verified core of the hub: the length-framed JSON wire
//! protocol spoken by game servers, the per-connection client that turns
//! frames into controller messages, and the controller that owns the
//! per-channel state and decides where every event is routed.
//!
//! Nothing in here performs I/O. Functions take plain values and return the
//! next state together with the messages that have to be delivered; the
//! program around the library owns the sockets and the mailboxes.

pub mod config;
pub mod controller;
pub mod database;
pub mod discord;
pub mod integrations;
pub mod json;
pub mod model;
pub mod persistent;
pub mod statistics;
pub mod web;
pub mod wire;
