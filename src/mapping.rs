use vstd::prelude::*;

use crate::address::{Ipv4Endpoint, TransportProtocol};
use crate::error::IgdError;

verus! {

/// Why a mapping request is made: the description sent with it tells the two
/// apart on the gateway.
#[derive(Clone, Copy, Debug, PartialEq, Eq, Structural)]
pub enum MappingPurpose {
    Initial,
    Renewal,
}

pub open spec fn purpose_text(p: MappingPurpose) -> Seq<char> {
    match p {
        MappingPurpose::Initial => "ez-p2p"@,
        MappingPurpose::Renewal => "MaidSafe.net"@,
    }
}

impl MappingPurpose {
    /// The description string that goes with the request.
    pub fn description(&self) -> (r: String)
        ensures
            r@ == purpose_text(*self),
    {
        match self {
            MappingPurpose::Initial => "ez-p2p".to_owned(),
            MappingPurpose::Renewal => "MaidSafe.net".to_owned(),
        }
    }
}

/// A request to add, or refresh, a mapping on the gateway.
#[derive(Clone, Copy, Debug, PartialEq, Eq, Structural)]
pub struct MappingRequest {
    pub protocol: TransportProtocol,
    pub external_port: u16,
    pub internal: Ipv4Endpoint,
    pub lease_secs: u32,
    pub purpose: MappingPurpose,
}

/// A request to delete a mapping from the gateway.
#[derive(Clone, Copy, Debug, PartialEq, Eq, Structural)]
pub struct RemovalRequest {
    pub protocol: TransportProtocol,
    pub external_port: u16,
}

/// What one exchange with a gateway asks of it.
#[derive(Clone, Copy, Debug, PartialEq, Eq, Structural)]
pub enum Operation {
    Add(MappingRequest),
    Remove(RemovalRequest),
}

/// Why a gateway refused a request.
#[derive(Clone, Copy, Debug, PartialEq, Eq, Structural)]
pub enum Refusal {
    /// The mapping to delete does not exist.
    NoSuchMapping,
    /// Any other fault: a conflicting port, a refusal, a failed request.
    Other,
}

/// What the caller observed after performing the pending action.
#[derive(Clone, Copy, Debug, PartialEq, Eq, Structural)]
pub enum GatewayReply {
    /// Discovery found a gateway.
    Located,
    /// Discovery found none, or failed.
    LocateFailed,
    /// The gateway carried out the request.
    Completed,
    /// The gateway refused the request.
    Refused(Refusal),
}

/// What the caller is to do next.
#[derive(Clone, Copy, Debug, PartialEq, Eq)]
pub enum GatewayAction {
    /// Search the local network for a gateway.
    Locate,
    /// Ask the located gateway to add the mapping.
    AddMapping(MappingRequest),
    /// Ask the located gateway to delete the mapping.
    RemoveMapping(RemovalRequest),
    /// The exchange is over, with this outcome.
    Finish(Result<(), IgdError>),
}

/// Where an exchange stands.
#[derive(Clone, Copy, Debug, PartialEq, Eq)]
pub enum Phase {
    Locating,
    Requesting,
    Finished(Result<(), IgdError>),
}

/// One exchange with a gateway: a fresh discovery, then one request to the
/// gateway it found. A gateway is never reused from an earlier exchange.
#[derive(Clone, Copy, Debug, PartialEq, Eq)]
pub struct MappingExchange {
    pub operation: Operation,
    pub phase: Phase,
}

pub open spec fn request_action(op: Operation) -> GatewayAction {
    match op {
        Operation::Add(r) => GatewayAction::AddMapping(r),
        Operation::Remove(r) => GatewayAction::RemoveMapping(r),
    }
}

/// The outcome of a refused request. Deleting a mapping that is already gone
/// succeeds; every other refusal is a rejection.
pub open spec fn refusal_outcome(op: Operation, refusal: Refusal) -> Result<(), IgdError> {
    match (op, refusal) {
        (Operation::Remove(_), Refusal::NoSuchMapping) => Ok(()),
        _ => Err(IgdError::MappingRejected),
    }
}

/// The action that a phase waits on.
pub open spec fn pending(op: Operation, phase: Phase) -> GatewayAction {
    match phase {
        Phase::Locating => GatewayAction::Locate,
        Phase::Requesting => request_action(op),
        Phase::Finished(r) => GatewayAction::Finish(r),
    }
}

/// The phase after a reply. A reply that does not answer the pending action
/// changes nothing, and a finished exchange stays finished.
pub open spec fn next_phase(op: Operation, phase: Phase, reply: GatewayReply) -> Phase {
    match phase {
        Phase::Locating => match reply {
            GatewayReply::Located => Phase::Requesting,
            GatewayReply::LocateFailed => Phase::Finished(Err(IgdError::DiscoveryFailed)),
            _ => Phase::Locating,
        },
        Phase::Requesting => match reply {
            GatewayReply::Completed => Phase::Finished(Ok(())),
            GatewayReply::Refused(f) => Phase::Finished(refusal_outcome(op, f)),
            _ => Phase::Requesting,
        },
        Phase::Finished(r) => Phase::Finished(r),
    }
}

/// The phase after the caller's deadline elapsed: an unfinished exchange is
/// abandoned as timed out; a finished one keeps its outcome.
pub open spec fn deadline_phase(phase: Phase) -> Phase {
    match phase {
        Phase::Finished(r) => Phase::Finished(r),
        _ => Phase::Finished(Err(IgdError::TimedOut)),
    }
}

/// Classifies a refusal of `op`.
pub fn classify_refusal(op: Operation, refusal: Refusal) -> (r: Result<(), IgdError>)
    ensures
        r == refusal_outcome(op, refusal),
{
    match (op, refusal) {
        (Operation::Remove(_), Refusal::NoSuchMapping) => Ok(()),
        _ => Err(IgdError::MappingRejected),
    }
}

impl MappingExchange {
    /// A fresh exchange, which starts by locating a gateway.
    pub fn new(operation: Operation) -> (r: MappingExchange)
        ensures
            r == (MappingExchange { operation, phase: Phase::Locating }),
    {
        MappingExchange { operation, phase: Phase::Locating }
    }

    /// The action the exchange waits on.
    pub fn pending_action(&self) -> (r: GatewayAction)
        ensures
            r == pending(self.operation, self.phase),
    {
        match self.phase {
            Phase::Locating => GatewayAction::Locate,
            Phase::Requesting => match self.operation {
                Operation::Add(r) => GatewayAction::AddMapping(r),
                Operation::Remove(r) => GatewayAction::RemoveMapping(r),
            },
            Phase::Finished(r) => GatewayAction::Finish(r),
        }
    }

    /// Takes in what the gateway answered and names the next action.
    pub fn on_reply(&mut self, reply: GatewayReply) -> (r: GatewayAction)
        ensures
            final(self).operation == old(self).operation,
            final(self).phase == next_phase(old(self).operation, old(self).phase, reply),
            r == pending(final(self).operation, final(self).phase),
    {
        let next = match self.phase {
            Phase::Locating => match reply {
                GatewayReply::Located => Phase::Requesting,
                GatewayReply::LocateFailed => Phase::Finished(Err(IgdError::DiscoveryFailed)),
                _ => Phase::Locating,
            },
            Phase::Requesting => match reply {
                GatewayReply::Completed => Phase::Finished(Ok(())),
                GatewayReply::Refused(f) => Phase::Finished(classify_refusal(self.operation, f)),
                _ => Phase::Requesting,
            },
            Phase::Finished(r) => Phase::Finished(r),
        };
        self.phase = next;
        self.pending_action()
    }

    /// Takes in that the caller's deadline elapsed.
    pub fn on_deadline(&mut self) -> (r: GatewayAction)
        ensures
            final(self).operation == old(self).operation,
            final(self).phase == deadline_phase(old(self).phase),
            r == pending(final(self).operation, final(self).phase),
    {
        match self.phase {
            Phase::Finished(_) => {},
            _ => {
                self.phase = Phase::Finished(Err(IgdError::TimedOut));
            },
        }
        self.pending_action()
    }

    /// The outcome, once the exchange is over.
    pub fn outcome(&self) -> (r: Option<Result<(), IgdError>>)
        ensures
            r == (match self.phase {
                Phase::Finished(o) => Some(o),
                _ => None,
            }),
    {
        match self.phase {
            Phase::Finished(o) => Some(o),
            _ => None,
        }
    }
}

} // verus!
