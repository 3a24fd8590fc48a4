//! Availability monitoring for an appointment-scheduling portal: extraction of
//! office listings, booking decisions, the per-session engine, and the shared
//! registry and cache that sessions report into.

pub mod text;
pub mod parse;
pub mod date;
pub mod service;
pub mod models;
pub mod extract;
pub mod booking;
pub mod registry;
pub mod cache;
pub mod session;
pub mod engine;
