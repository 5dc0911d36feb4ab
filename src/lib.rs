//! A gateway that lets one control service manage a fleet of networked printers.
//!
//! - `registry`: the fixed roster of devices, read from configuration entries.
//! - `farm`: the gateway state; the four operations and the per-device session table with
//!   its bounded, first-in first-out command queues.
//! - `relay`: the device-to-client half of a session and its end-of-session message.
//! - `upload`: the delete, stage, transfer and clean-up sequence of one file upload.
//! - `client`: what a client of the gateway computes: its URL, and printer announcements.
//!
//! The transports (messaging, file transfer, the request surface) are driven from outside:
//! the library decides, the caller performs the I/O and reports back.

use vstd::prelude::*;

pub mod registry;
pub mod farm;
pub mod relay;
pub mod upload;
pub mod client;

verus! {

/// Start-up hook of the device-side network layer; it has nothing to set up.
pub fn bambu_network_rs_init() {
}

/// Diagnostic hook for the embedding host. The library keeps no log, so the message is
/// dropped here; a host that wants it records it before the call.
pub fn bambu_network_rs_log_debug(_message: String) {
}

} // verus!
