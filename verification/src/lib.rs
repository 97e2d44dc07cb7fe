//! A safe, typed view over the DCMI management interface for NPU accelerator
//! cards: enumerating cards, the chips they host, and the virtual devices
//! carved out of a chip, together with decoding of the raw telemetry the
//! interface reports.
//!
//! All raw calls go through the [`gateway::DcmiGateway`] trait; an
//! implementation backed by the native library lives outside this crate, and
//! tests drive the hierarchy with an in-memory implementation.

pub mod codec;
pub mod device;
pub mod enums;
pub mod error;
pub mod gateway;
pub mod structs;
