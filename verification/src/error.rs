//! Error taxonomy of the coordination core.

use vstd::prelude::*;

verus! {

/// Failure kinds the coordination core and its surroundings report.
#[derive(Clone, Copy, Debug, PartialEq, Eq, Structural)]
pub enum Error {
    /// Modem initialization failed
    ModemInit,
    /// AT command failed or returned ERROR
    AtCommand,
    /// Network registration failed
    Registration,
    /// PDP context activation failed
    PdpActivation,
    /// Network stack initialization failed
    NetworkInit,
    /// TCP/IP socket error
    Socket,
    /// Timeout waiting for operation
    Timeout,
    /// Invalid response from modem
    InvalidResponse,
    /// Task spawn failed
    TaskSpawn,
    /// Configuration error
    Config,
}

impl Error {
    /// The description `as_str` returns.
    pub open spec fn spec_as_str(self) -> Seq<char> {
        match self {
            Error::ModemInit => "Modem initialization failed"@,
            Error::AtCommand => "AT command failed"@,
            Error::Registration => "Network registration failed"@,
            Error::PdpActivation => "PDP context activation failed"@,
            Error::NetworkInit => "Network stack initialization failed"@,
            Error::Socket => "Socket error"@,
            Error::Timeout => "Operation timed out"@,
            Error::InvalidResponse => "Invalid response from modem"@,
            Error::TaskSpawn => "Failed to spawn task"@,
            Error::Config => "Configuration error"@,
        }
    }

    /// A human-readable description of the error.
    pub fn as_str(&self) -> (r: &'static str)
        ensures
            r@ == self.spec_as_str(),
    {
        match self {
            Error::ModemInit => "Modem initialization failed",
            Error::AtCommand => "AT command failed",
            Error::Registration => "Network registration failed",
            Error::PdpActivation => "PDP context activation failed",
            Error::NetworkInit => "Network stack initialization failed",
            Error::Socket => "Socket error",
            Error::Timeout => "Operation timed out",
            Error::InvalidResponse => "Invalid response from modem",
            Error::TaskSpawn => "Failed to spawn task",
            Error::Config => "Configuration error",
        }
    }
}

} // verus!
