//! A configurable router for CCSDS space-packet streams.
//!
//! The crate recovers discrete CCSDS packets from an incremental byte feed
//! (with optional fixed-size wrapper frames, APID allow-lists and an
//! endian-swapped header mode), computes when each packet should be emitted
//! under one of four timing disciplines, and drives a control-plane state
//! machine that coordinates an input task and a processing task.
//!
//! Transports (file, UDP, TCP) and threads live outside this crate; the
//! functions here are pure over plain values and carry proved contracts.

pub mod config;
pub mod controller;
pub mod header;
pub mod parser;
pub mod stats;
pub mod timing;
