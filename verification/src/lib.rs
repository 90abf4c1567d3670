//! Bridges an HDMI-CEC remote control to a synthetic game-controller input
//! device and couples TV power-state transitions to host CPU-quota changes.
//!
//! The library holds the decision logic: translating remote-control codes to
//! device operations, dispatching bus commands to quota or device actions,
//! and routing the HTTP control endpoints. Performing the resulting I/O
//! (writing input events, spawning the quota command, serving connections)
//! is left to the surrounding application.

pub mod coordinator;
pub mod device;
pub mod dispatch;
pub mod quota;
pub mod routes;
pub mod translate;
