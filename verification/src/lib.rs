//! A bridge between a train simulator and an ATS controller.
//!
//! The simulator, the host, drives a plug-in through a fixed set of entry
//! points: once per frame and on every event of the driver's desk, the doors,
//! the signals and the beacons. This library holds what lies between those
//! entry points and a controller:
//!
//! - [`records`]: the records that cross the boundary;
//! - [`codes`]: the closed sets of integer codes, with checked conversion;
//! - [`api`]: the capability that a controller implements, [`api::Ats`];
//! - [`bridge`]: one method per entry point, which checks what the host
//!   passed and then calls the controller;
//! - [`error`]: the conditions under which a call is refused;
//! - [`ats`]: a controller that commands what the driver has set.

pub mod api;
pub mod ats;
pub mod bridge;
pub mod codes;
pub mod error;
pub mod records;
