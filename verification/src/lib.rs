//! Decision logic of a low-power e-ink dashboard: when to wake, what to show, and how to wait.
//!
//! Nothing here touches the device. Operations that do are described by plain values, and the
//! loops around them are state machines that say what to do next and take in what came of it.
pub mod clock;
pub mod config;
pub mod config_laws;
pub mod dash;
pub mod dash_laws;
pub mod device;
pub mod fetch;
pub mod logging;
pub mod paths;
pub mod schedule;
pub mod setup;
pub mod text;
pub mod text_laws;
pub mod zone;
