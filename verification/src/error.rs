//! The failures that the registry reports.

use vstd::prelude::*;

verus! {

/// The four families of failure, by what the caller can do about them.
#[derive(Clone, Copy, Debug, PartialEq, Eq, Structural)]
pub enum ErrorKind {
    /// The address is malformed or names no known transport. Nothing was
    /// opened and nothing was allocated; trying again does not help.
    Configuration,
    /// The transport could not be set up. No slot was allocated; the caller
    /// may try again later.
    Connection,
    /// The handle maps to no live transport.
    StaleHandle,
    /// Input or output failed during an exchange. The slot stays allocated;
    /// the caller is expected to disconnect.
    Transport,
}

/// A failure of one registry operation.
#[derive(Clone, Copy, Debug, PartialEq, Eq, Structural)]
pub enum SkippyError {
    /// The address is not a URL, or is too short to hold a target.
    UnsupportedAddress,
    /// The URL's scheme selects no transport.
    UnsupportedProtocol,
    /// The stream could not be opened, or its greeting could not be read.
    ConnectFailed,
    /// The registry has run out of link numbers.
    RegistryFull,
    /// The handle's slot is vacant.
    DeviceDisconnected,
    /// Writing the request or reading the reply failed.
    TransportFailed,
}

impl SkippyError {
    /// The family that this failure belongs to.
    pub open spec fn spec_kind(self) -> ErrorKind {
        match self {
            SkippyError::UnsupportedAddress => ErrorKind::Configuration,
            SkippyError::UnsupportedProtocol => ErrorKind::Configuration,
            SkippyError::ConnectFailed => ErrorKind::Connection,
            SkippyError::RegistryFull => ErrorKind::Connection,
            SkippyError::DeviceDisconnected => ErrorKind::StaleHandle,
            SkippyError::TransportFailed => ErrorKind::Transport,
        }
    }

    /// The text that describes this failure.
    pub open spec fn spec_message(self) -> Seq<char> {
        match self {
            SkippyError::UnsupportedAddress => "Unsupported address"@,
            SkippyError::UnsupportedProtocol => "Unsupported protocol"@,
            SkippyError::ConnectFailed => "Connect failed"@,
            SkippyError::RegistryFull => "Too many devices"@,
            SkippyError::DeviceDisconnected => "Device disconnected"@,
            SkippyError::TransportFailed => "Transport failed"@,
        }
    }

    /// Returns the family that this failure belongs to.
    #[verifier::when_used_as_spec(spec_kind)]
    pub fn kind(self) -> (kind: ErrorKind)
        ensures
            kind == self.spec_kind(),
    {
        match self {
            SkippyError::UnsupportedAddress => ErrorKind::Configuration,
            SkippyError::UnsupportedProtocol => ErrorKind::Configuration,
            SkippyError::ConnectFailed => ErrorKind::Connection,
            SkippyError::RegistryFull => ErrorKind::Connection,
            SkippyError::DeviceDisconnected => ErrorKind::StaleHandle,
            SkippyError::TransportFailed => ErrorKind::Transport,
        }
    }

    /// Returns the text that describes this failure.
    pub fn message(self) -> (text: &'static str)
        ensures
            text@ == self.spec_message(),
    {
        match self {
            SkippyError::UnsupportedAddress => "Unsupported address",
            SkippyError::UnsupportedProtocol => "Unsupported protocol",
            SkippyError::ConnectFailed => "Connect failed",
            SkippyError::RegistryFull => "Too many devices",
            SkippyError::DeviceDisconnected => "Device disconnected",
            SkippyError::TransportFailed => "Transport failed",
        }
    }
}

} // verus!
