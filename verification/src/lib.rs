//! Interception of lifecycle hooks on deployed units: topology resolution,
//! dispatch detection, dispatch script synthesis and the session controllers.

pub mod command;
pub mod detect;
pub mod pause;
pub mod script;
pub mod session;
pub mod status;
pub mod text;
pub mod topology;
pub mod trace;
pub mod usage;
