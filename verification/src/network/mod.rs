//! Channels, interfaces and the results of sending and capturing.

pub mod capture;
pub mod channel;
pub mod injection;
pub mod interface;

pub use capture::{CaptureResult, CaptureStats};
pub use channel::{ChannelHopper, ChannelInfo};
pub use injection::{InjectionResult, InjectionStats};
pub use interface::{InterfaceManager, NetworkInterface};
