use vstd::prelude::*;

verus! {

/// The closed set of failures reported to the caller of a mapping operation.
#[derive(Clone, Copy, Debug, PartialEq, Eq, Structural)]
pub enum IgdError {
    /// The deadline wrapped around the operation elapsed first.
    TimedOut,
    /// The internal address is an IPv6 address, for which no mapping exists.
    AddressFamilyUnsupported,
    /// The gateway refused to add or remove the mapping.
    MappingRejected,
    /// No gateway could be located, or the discovery exchange failed.
    DiscoveryFailed,
}

/// The human-readable text of each error.
pub open spec fn error_text(e: IgdError) -> Seq<char> {
    match e {
        IgdError::TimedOut => "Timed out waiting for the operation to complete"@,
        IgdError::AddressFamilyUnsupported => "IGD is not supported for IPv6"@,
        IgdError::MappingRejected => "The gateway rejected the port mapping"@,
        IgdError::DiscoveryFailed => "No gateway could be discovered"@,
    }
}

impl IgdError {
    /// The message that describes this error.
    pub fn message(&self) -> (r: String)
        ensures
            r@ == error_text(*self),
    {
        match self {
            IgdError::TimedOut => "Timed out waiting for the operation to complete".to_owned(),
            IgdError::AddressFamilyUnsupported => "IGD is not supported for IPv6".to_owned(),
            IgdError::MappingRejected => "The gateway rejected the port mapping".to_owned(),
            IgdError::DiscoveryFailed => "No gateway could be discovered".to_owned(),
        }
    }
}

} // verus!
