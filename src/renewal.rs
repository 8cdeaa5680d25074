use vstd::prelude::*;

use crate::error::IgdError;
use crate::mapping::{MappingExchange, MappingRequest, Operation, Phase};

verus! {

/// What the renewal loop does next.
#[derive(Clone, Copy, Debug, PartialEq, Eq, Structural)]
pub enum RenewalAction {
    /// Sleep this many seconds, then renew the mapping.
    Wait(u32),
    /// Stop renewing: the mapping is left to expire on the gateway.
    Stop,
}

/// The background renewal of a mapping. It renews the mapping once every
/// period, starting one period after the mapping was added, until it is asked
/// to stop; a failed renewal is only reported, and the next one follows a
/// period later. Without a stop request it runs for as long as its host does.
#[derive(Clone, Copy, Debug, PartialEq, Eq, Structural)]
pub struct RenewalLoop {
    pub request: MappingRequest,
    pub period_secs: u32,
    pub stop_requested: bool,
}

pub open spec fn renewal_next(l: RenewalLoop) -> RenewalAction {
    if l.stop_requested {
        RenewalAction::Stop
    } else {
        RenewalAction::Wait(l.period_secs)
    }
}

/// The actions of a loop that is told the outcomes of its renewals one by
/// one: the first wait, then the action after each outcome.
pub open spec fn schedule(l: RenewalLoop, outcomes: Seq<Result<(), IgdError>>) -> Seq<RenewalAction>
    decreases outcomes.len(),
{
    if outcomes.len() == 0 {
        seq![renewal_next(l)]
    } else {
        schedule(l, outcomes.drop_last()).push(renewal_next(l))
    }
}

/// The seconds that elapse from the start of a schedule until the end of its
/// `k`-th wait: the moment of the `k`-th renewal, counting from zero.
pub open spec fn time_of_renewal(actions: Seq<RenewalAction>, k: nat) -> int
    decreases k,
{
    let here: int = match actions[k as int] {
        RenewalAction::Wait(s) => s as int,
        RenewalAction::Stop => 0,
    };
    if k == 0 {
        here
    } else {
        time_of_renewal(actions, (k - 1) as nat) + here
    }
}

impl RenewalLoop {
    /// A running loop for `request`, renewed every `period_secs` seconds.
    pub fn new(request: MappingRequest, period_secs: u32) -> (r: RenewalLoop)
        ensures
            r == (RenewalLoop { request, period_secs, stop_requested: false }),
    {
        RenewalLoop { request, period_secs, stop_requested: false }
    }

    /// What to do next: wait one period, or stop.
    pub fn next_action(&self) -> (r: RenewalAction)
        ensures
            r == renewal_next(*self),
    {
        if self.stop_requested {
            RenewalAction::Stop
        } else {
            RenewalAction::Wait(self.period_secs)
        }
    }

    /// The exchange that renews the mapping: a fresh discovery, then the same
    /// request again.
    pub fn begin_renewal(&self) -> (r: MappingExchange)
        ensures
            r == (MappingExchange { operation: Operation::Add(self.request), phase: Phase::Locating }),
    {
        MappingExchange::new(Operation::Add(self.request))
    }

    /// Takes in the outcome of a renewal. Neither a success nor a failure
    /// changes the loop: the next renewal follows one period later.
    pub fn record_outcome(&mut self, outcome: Result<(), IgdError>) -> (r: RenewalAction)
        ensures
            *final(self) == *old(self),
            r == renewal_next(*old(self)),
    {
        self.next_action()
    }

    /// Asks the loop to stop before its next renewal.
    pub fn request_stop(&mut self)
        ensures
            *final(self) == (RenewalLoop { stop_requested: true, ..*old(self) }),
    {
        self.stop_requested = true;
    }
}

/// A renewal loop that is not asked to stop keeps renewing whatever its
/// renewals return: after any run of outcomes, failures included, every
/// action is a wait of one period, so the `k`-th renewal comes `k + 1`
/// periods after the mapping was added.
pub proof fn lemma_renewal_persists(l: RenewalLoop, outcomes: Seq<Result<(), IgdError>>)
    requires
        !l.stop_requested,
    ensures
        schedule(l, outcomes).len() == outcomes.len() + 1,
        forall|i: int|
            0 <= i < schedule(l, outcomes).len() ==> #[trigger] schedule(l, outcomes)[i]
                == RenewalAction::Wait(l.period_secs),
        forall|k: nat|
            k <= outcomes.len() ==> #[trigger] time_of_renewal(schedule(l, outcomes), k) == (k
                + 1) * l.period_secs,
    decreases outcomes.len(),
{
    if outcomes.len() > 0 {
        lemma_renewal_persists(l, outcomes.drop_last());
    }
    let s = schedule(l, outcomes);
    assert forall|k: nat| k <= outcomes.len() implies #[trigger] time_of_renewal(s, k) == (k + 1)
        * l.period_secs by {
        lemma_time_of_uniform_waits(s, l.period_secs, k);
    }
}

proof fn lemma_time_of_uniform_waits(s: Seq<RenewalAction>, p: u32, k: nat)
    requires
        k < s.len(),
        forall|i: int| 0 <= i < s.len() ==> #[trigger] s[i] == RenewalAction::Wait(p),
    ensures
        time_of_renewal(s, k) == (k + 1) * p,
    decreases k,
{
    if k > 0 {
        let j = (k - 1) as nat;
        lemma_time_of_uniform_waits(s, p, j);
        assert(s[k as int] == RenewalAction::Wait(p));
        assert(time_of_renewal(s, k) == time_of_renewal(s, j) + p);
        assert((j + 1) * p + p == (k + 1) * p) by (nonlinear_arith)
            requires
                j + 1 == k,
        ;
    } else {
        assert(s[0] == RenewalAction::Wait(p));
        assert(time_of_renewal(s, 0) == p as int);
        assert((k + 1) * p == p as int) by (nonlinear_arith)
            requires
                k == 0,
        ;
    }
}

} // verus!
