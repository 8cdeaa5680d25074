use vstd::prelude::*;

use crate::address::{endpoint_of, ipv4_endpoint, InternalAddress, Ipv4Endpoint, TransportProtocol};
use crate::error::IgdError;
use crate::lease::{plan_of, LeasePolicy};
use crate::mapping::{
    deadline_phase, next_phase, pending, GatewayAction, GatewayReply, MappingExchange,
    MappingPurpose, MappingRequest, Operation, Phase, RemovalRequest,
};
use crate::renewal::RenewalLoop;

verus! {

/// The seconds that a caller is advised to allow for locating a gateway and
/// adding the first mapping.
pub const DEFAULT_DEADLINE_SECS: u64 = 30;

pub open spec fn add_exchange(
    protocol: TransportProtocol,
    external_port: u16,
    internal: Ipv4Endpoint,
    lease_secs: u32,
    purpose: MappingPurpose,
) -> MappingExchange {
    MappingExchange {
        operation: Operation::Add(
            MappingRequest { protocol, external_port, internal, lease_secs, purpose },
        ),
        phase: Phase::Locating,
    }
}

/// The exchange that adds a mapping, or the error that comes before any
/// gateway is contacted.
pub open spec fn add_outcome(
    protocol: TransportProtocol,
    external_port: u16,
    internal: InternalAddress,
    lease_secs: u32,
    purpose: MappingPurpose,
) -> Result<MappingExchange, IgdError> {
    match endpoint_of(internal) {
        Ok(e) => Ok(add_exchange(protocol, external_port, e, lease_secs, purpose)),
        Err(err) => Err(err),
    }
}

fn start_add(
    protocol: TransportProtocol,
    external_port: u16,
    internal: InternalAddress,
    lease_secs: u32,
    purpose: MappingPurpose,
) -> (r: Result<MappingExchange, IgdError>)
    ensures
        r == add_outcome(protocol, external_port, internal, lease_secs, purpose),
{
    match ipv4_endpoint(internal) {
        Ok(e) => Ok(
            MappingExchange::new(
                Operation::Add(
                    MappingRequest { protocol, external_port, internal: e, lease_secs, purpose },
                ),
            ),
        ),
        Err(err) => Err(err),
    }
}

/// Starts adding a mapping from `external_port` to `internal` with a lease of
/// `lease_secs` seconds (zero: indefinite where the gateway allows it). An
/// IPv6 address is refused at once, before any discovery. Under a policy that
/// forces indefinite leases, zero seconds are requested instead.
pub fn add_port(
    protocol: TransportProtocol,
    external_port: u16,
    internal: InternalAddress,
    lease_secs: u32,
    policy: LeasePolicy,
) -> (r: Result<MappingExchange, IgdError>)
    ensures
        r == add_outcome(
            protocol,
            external_port,
            internal,
            if policy.force_indefinite {
                0
            } else {
                lease_secs
            },
            MappingPurpose::Initial,
        ),
{
    let lease = if policy.force_indefinite {
        0
    } else {
        lease_secs
    };
    start_add(protocol, external_port, internal, lease, MappingPurpose::Initial)
}

/// Starts renewing a mapping: the same request as an addition, made against a
/// freshly located gateway, with the renewal's description.
pub fn renew_port(
    protocol: TransportProtocol,
    external_port: u16,
    internal: InternalAddress,
    lease_secs: u32,
) -> (r: Result<MappingExchange, IgdError>)
    ensures
        r == add_outcome(protocol, external_port, internal, lease_secs, MappingPurpose::Renewal),
{
    start_add(protocol, external_port, internal, lease_secs, MappingPurpose::Renewal)
}

/// Starts removing the mapping of `external_port`. An IPv6 address is refused
/// at once. The exchange succeeds if the mapping is already gone.
pub fn remove_port(
    protocol: TransportProtocol,
    external_port: u16,
    internal: InternalAddress,
) -> (r: Result<MappingExchange, IgdError>)
    ensures
        r == (match endpoint_of(internal) {
            Ok(_) => Ok(
                MappingExchange {
                    operation: Operation::Remove(RemovalRequest { protocol, external_port }),
                    phase: Phase::Locating,
                },
            ),
            Err(err) => Err(err),
        }),
{
    match ipv4_endpoint(internal) {
        Ok(_) => Ok(
            MappingExchange::new(Operation::Remove(RemovalRequest { protocol, external_port })),
        ),
        Err(err) => Err(err),
    }
}

/// The first mapping of a forwarded port, and the renewal that follows it.
#[derive(Clone, Copy, Debug, PartialEq, Eq)]
pub struct ForwardSession {
    pub exchange: MappingExchange,
    pub period_secs: u32,
}

/// The renewal loop that a session starts: only once its first mapping was
/// added, and only for a lease of one second or more. A lease of zero
/// seconds is indefinite: it needs no renewal.
pub open spec fn renewal_of(s: ForwardSession) -> Option<RenewalLoop> {
    match (s.exchange.operation, s.exchange.phase) {
        (Operation::Add(r), Phase::Finished(Ok(()))) if s.period_secs > 0 => Some(
            RenewalLoop {
                request: MappingRequest { purpose: MappingPurpose::Renewal, ..r },
                period_secs: s.period_secs,
                stop_requested: false,
            },
        ),
        _ => None,
    }
}

/// Starts forwarding `external_port` to `internal` for a lease of
/// `lease_secs` seconds. The lease is capped at the longest the protocol can
/// carry; that capped lease is also the renewal period. An IPv6 address is
/// refused at once, before any discovery.
pub fn forward_port(
    protocol: TransportProtocol,
    external_port: u16,
    internal: InternalAddress,
    lease_secs: u64,
    policy: LeasePolicy,
) -> (r: Result<ForwardSession, IgdError>)
    ensures
        r == (match add_outcome(
            protocol,
            external_port,
            internal,
            plan_of(lease_secs, policy).requested_secs,
            MappingPurpose::Initial,
        ) {
            Ok(x) => Ok(ForwardSession { exchange: x, period_secs: plan_of(lease_secs, policy).period_secs }),
            Err(err) => Err(err),
        }),
{
    let plan = policy.plan(lease_secs);
    match start_add(protocol, external_port, internal, plan.requested_secs, MappingPurpose::Initial) {
        Ok(x) => Ok(ForwardSession { exchange: x, period_secs: plan.period_secs }),
        Err(err) => Err(err),
    }
}

impl ForwardSession {
    /// The action the session waits on.
    pub fn pending_action(&self) -> (r: GatewayAction)
        ensures
            r == pending(self.exchange.operation, self.exchange.phase),
    {
        self.exchange.pending_action()
    }

    /// Takes in what the gateway answered and names the next action.
    pub fn on_reply(&mut self, reply: GatewayReply) -> (r: GatewayAction)
        ensures
            final(self).period_secs == old(self).period_secs,
            final(self).exchange.operation == old(self).exchange.operation,
            final(self).exchange.phase == next_phase(
                old(self).exchange.operation,
                old(self).exchange.phase,
                reply,
            ),
            r == pending(final(self).exchange.operation, final(self).exchange.phase),
    {
        self.exchange.on_reply(reply)
    }

    /// Takes in that the caller's deadline elapsed: an unfinished session
    /// ends as timed out, and starts no renewal.
    pub fn on_deadline(&mut self) -> (r: GatewayAction)
        ensures
            final(self).period_secs == old(self).period_secs,
            final(self).exchange.operation == old(self).exchange.operation,
            final(self).exchange.phase == deadline_phase(old(self).exchange.phase),
            r == pending(final(self).exchange.operation, final(self).exchange.phase),
    {
        self.exchange.on_deadline()
    }

    /// The renewal loop to start, once the first mapping was added with a
    /// lease of one second or more; `None` otherwise.
    pub fn renewal(&self) -> (r: Option<RenewalLoop>)
        ensures
            r == renewal_of(*self),
    {
        match (self.exchange.operation, self.exchange.phase) {
            (Operation::Add(r), Phase::Finished(Ok(()))) if self.period_secs > 0 => Some(
                RenewalLoop::new(
                    MappingRequest { purpose: MappingPurpose::Renewal, ..r },
                    self.period_secs,
                ),
            ),
            _ => None,
        }
    }
}

} // verus!
