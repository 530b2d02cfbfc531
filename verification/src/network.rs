//! The errors that the network stack reports to the client.
use vstd::prelude::*;

verus! {

/// Error type for network
#[derive(Clone, Copy, PartialEq, Eq, Structural, Debug)]
pub enum NetworkError {
    /// The DNS Request failed
    DnsError,
    /// The Host could not be found
    HostNotFound,
    /// The connection could not be created
    ConnectionFailed,
}

impl NetworkError {
    /// The text that describes the error.
    pub fn message(&self) -> (r: &'static str)
        ensures
            *self == NetworkError::DnsError ==> r@ == "The DNS Lookup failed"@,
            *self == NetworkError::HostNotFound ==> r@ == "The host was not found"@,
            *self == NetworkError::ConnectionFailed ==> r@ == "tcp connect failed"@,
    {
        match self {
            NetworkError::DnsError => "The DNS Lookup failed",
            NetworkError::HostNotFound => "The host was not found",
            NetworkError::ConnectionFailed => "tcp connect failed",
        }
    }
}

} // verus!
