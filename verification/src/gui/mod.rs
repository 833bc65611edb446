//! What a front end keeps: the targets on show and the packets to export.

pub mod export;
pub mod targets;
