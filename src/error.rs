//! The errors that stop the relay from starting.
use vstd::prelude::*;

verus! {

/// Why setting up the tunnel or its peers failed.
#[derive(Clone, Copy, Debug, PartialEq, Eq, Structural)]
pub enum RelayError {
    /// The tunnel's own address is not an IPv4 address.
    Ipv4required,
    /// The tunnel's block has no address left for the next peer.
    OutOfAddresses,
    /// The tunnel's block is not a valid `address/prefix` text.
    InvalidAddressRange,
    /// A peer's public key is neither base64 nor hex of 32 bytes.
    InvalidKey,
    /// The operating system refused to create, configure or remove the tunnel interface.
    Interface,
}

pub open spec fn error_message(e: RelayError) -> Seq<char> {
    match e {
        RelayError::Ipv4required => "Only IP v4 addresses are supported"@,
        RelayError::OutOfAddresses => "No more available addresses in address range"@,
        RelayError::InvalidAddressRange => "Invalid tunnel address range"@,
        RelayError::InvalidKey => "Invalid peer public key"@,
        RelayError::Interface => "WireGuard interface operation failed"@,
    }
}

impl RelayError {
    /// A sentence that describes the error to an operator.
    pub fn message(&self) -> (r: &'static str)
        ensures
            r@ == error_message(*self),
    {
        match self {
            RelayError::Ipv4required => "Only IP v4 addresses are supported",
            RelayError::OutOfAddresses => "No more available addresses in address range",
            RelayError::InvalidAddressRange => "Invalid tunnel address range",
            RelayError::InvalidKey => "Invalid peer public key",
            RelayError::Interface => "WireGuard interface operation failed",
        }
    }
}

} // verus!
