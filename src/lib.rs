//! Supervision of a backend worker process: startup sequencing, port
//! discovery, log capture and two-phase shutdown, each stated as a
//! verified decision procedure that a thin host program drives.

pub mod text;
pub mod discovery;
pub mod shutdown;
pub mod manager;
pub mod log_sink;
pub mod region;
pub mod paths;
