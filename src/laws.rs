use vstd::prelude::*;

use crate::address::{InternalAddress, TransportProtocol};
use crate::error::IgdError;
use crate::forward::{add_outcome, renewal_of, ForwardSession};
use crate::lease::{plan_of, LeasePolicy, MAX_LEASE_SECS};
use crate::renewal::{lemma_renewal_persists, schedule, time_of_renewal, RenewalAction};
use crate::mapping::{
    deadline_phase, next_phase, GatewayReply, MappingExchange, MappingPurpose, Operation, Phase,
    Refusal, RemovalRequest,
};

verus! {

/// An event that a session is told of.
#[derive(Clone, Copy, Debug, PartialEq, Eq, Structural)]
pub enum ExchangeEvent {
    Reply(GatewayReply),
    DeadlineElapsed,
}

/// The phase of an exchange after a run of events.
pub open spec fn phase_after(op: Operation, phase: Phase, events: Seq<ExchangeEvent>) -> Phase
    decreases events.len(),
{
    if events.len() == 0 {
        phase
    } else {
        let before = phase_after(op, phase, events.drop_last());
        match events.last() {
            ExchangeEvent::Reply(r) => next_phase(op, before, r),
            ExchangeEvent::DeadlineElapsed => deadline_phase(before),
        }
    }
}

/// An IPv6 internal address is refused with `AddressFamilyUnsupported`
/// whatever else is asked, so no exchange, and no discovery, ever begins.
pub proof fn lemma_ipv6_refused_before_discovery(
    protocol: TransportProtocol,
    external_port: u16,
    ip: u128,
    port: u16,
    lease_secs: u32,
    purpose: MappingPurpose,
)
    ensures
        add_outcome(protocol, external_port, InternalAddress::V6 { ip, port }, lease_secs, purpose)
            == Err::<MappingExchange, IgdError>(IgdError::AddressFamilyUnsupported),
{
}

/// A lease longer than the protocol can carry is capped at the longest one
/// it can carry, both as the renewal period and, unless an indefinite lease
/// is forced, as the lease requested.
pub proof fn lemma_long_lease_capped(requested_secs: u64, policy: LeasePolicy)
    requires
        requested_secs > MAX_LEASE_SECS as u64,
    ensures
        plan_of(requested_secs, policy).period_secs == MAX_LEASE_SECS,
        plan_of(requested_secs, policy).requested_secs == if policy.force_indefinite {
            0
        } else {
            MAX_LEASE_SECS
        },
{
}

/// A session whose deadline elapses before it finishes ends as timed out and
/// starts no renewal.
pub proof fn lemma_deadline_times_out(s: ForwardSession)
    requires
        !(s.exchange.phase is Finished),
    ensures
        deadline_phase(s.exchange.phase) == Phase::Finished(Err(IgdError::TimedOut)),
        renewal_of(
            ForwardSession {
                exchange: MappingExchange {
                    phase: deadline_phase(s.exchange.phase),
                    ..s.exchange
                },
                ..s
            },
        ) is None,
{
}

/// Once an exchange has finished, no later reply and no deadline changes its
/// outcome.
pub proof fn lemma_outcome_is_final(
    op: Operation,
    outcome: Result<(), IgdError>,
    events: Seq<ExchangeEvent>,
)
    ensures
        phase_after(op, Phase::Finished(outcome), events) == Phase::Finished(outcome),
    decreases events.len(),
{
    if events.len() > 0 {
        lemma_outcome_is_final(op, outcome, events.drop_last());
    }
}

/// A port forwarded for `lease_secs` seconds, from one second up to the
/// longest lease the protocol carries, whose first mapping was added, is
/// renewed for as long as the process runs, whatever the renewals return:
/// every action of its loop is a wait of `lease_secs` seconds, so the `k`-th
/// renewal, counting from zero, comes `(k + 1) * lease_secs` seconds after
/// the mapping was added.
pub proof fn lemma_renewals_follow_lease(
    s: ForwardSession,
    lease_secs: u64,
    policy: LeasePolicy,
    outcomes: Seq<Result<(), IgdError>>,
)
    requires
        1 <= lease_secs <= MAX_LEASE_SECS as u64,
        s.period_secs == plan_of(lease_secs, policy).period_secs,
        s.exchange.operation is Add,
        s.exchange.phase == Phase::Finished(Ok::<(), IgdError>(())),
    ensures
        renewal_of(s) is Some,
        schedule(renewal_of(s)->0, outcomes).len() == outcomes.len() + 1,
        forall|i: int|
            0 <= i < schedule(renewal_of(s)->0, outcomes).len() ==> #[trigger] schedule(
                renewal_of(s)->0,
                outcomes,
            )[i] == RenewalAction::Wait(lease_secs as u32),
        forall|k: nat|
            k <= outcomes.len() ==> #[trigger] time_of_renewal(
                schedule(renewal_of(s)->0, outcomes),
                k,
            ) == (k + 1) * lease_secs,
{
    lemma_renewal_persists(renewal_of(s)->0, outcomes);
}

/// Removing a mapping that the gateway does not hold succeeds.
pub proof fn lemma_remove_missing_mapping_succeeds(request: RemovalRequest)
    ensures
        next_phase(
            Operation::Remove(request),
            Phase::Requesting,
            GatewayReply::Refused(Refusal::NoSuchMapping),
        ) == Phase::Finished(Ok::<(), IgdError>(())),
{
}

} // verus!
