//! Verified core of the KasVillage L2 frontend health-check service.
//!
//! The service answers `GET /` and `GET /api/health` with one fixed plain-text
//! reply and everything else with "not found". This crate holds that decision
//! as pure functions over plain values; sockets and the HTTP runtime live in
//! the binary built around it.

pub mod health;
pub mod response;
pub mod routing;
pub mod server;
mod text;
