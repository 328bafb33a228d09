//! A time-bounded response cache for a weather data proxy.
//!
//! The crate holds the rules of a small read-through cache that sits between
//! HTTP clients and a weather data provider: how the service is configured,
//! which upstream call stands for which resource, when a cached payload may
//! still be served, and what a handler does with the answer of an upstream
//! call. Sockets, locks and clocks are left to the program around it, which
//! hands in plain values and carries out the actions that come back.

pub mod cache;
pub mod clock;
pub mod config;
pub mod handler;
pub mod laws;
pub mod payload;
pub mod upstream;
