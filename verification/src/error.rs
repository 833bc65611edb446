//! What can go wrong, as the library reports it.

use vstd::prelude::*;

verus! {

/// An error of the runtime. Each kind carries a message for people.
#[derive(Debug, Clone, PartialEq, Eq)]
pub enum DeauthError {
    /// A network interface could not be found, opened or used.
    InterfaceError(String),
    /// A command could not be handed to the engine, or a send failed.
    InjectionError(String),
    /// The process lacks a privilege it needs.
    PermissionError(String),
    /// The platform cannot do what was asked.
    PlatformError(String),
    /// The configuration cannot be used.
    ConfigError(String),
    /// Reading or writing failed.
    IoError(String),
    /// The capture library failed.
    PcapError(String),
}

impl DeauthError {
    /// The message that the error carries.
    pub open spec fn spec_message(&self) -> String {
        match *self {
            DeauthError::InterfaceError(m) => m,
            DeauthError::InjectionError(m) => m,
            DeauthError::PermissionError(m) => m,
            DeauthError::PlatformError(m) => m,
            DeauthError::ConfigError(m) => m,
            DeauthError::IoError(m) => m,
            DeauthError::PcapError(m) => m,
        }
    }

    /// The message that the error carries.
    pub fn message(&self) -> (m: &String)
        ensures
            *m == self.spec_message(),
    {
        match self {
            DeauthError::InterfaceError(m) => m,
            DeauthError::InjectionError(m) => m,
            DeauthError::PermissionError(m) => m,
            DeauthError::PlatformError(m) => m,
            DeauthError::ConfigError(m) => m,
            DeauthError::IoError(m) => m,
            DeauthError::PcapError(m) => m,
        }
    }
}

} // verus!
