use vstd::prelude::*;

verus! {

/// The longest lease the mapping protocol can carry: its lease field is a
/// 32-bit count of seconds.
pub const MAX_LEASE_SECS: u32 = 4294967295;

/// A requested lease, capped at the longest one the protocol can carry.
pub open spec fn clamped_secs(requested_secs: u64) -> u32 {
    if requested_secs > MAX_LEASE_SECS as u64 {
        MAX_LEASE_SECS
    } else {
        requested_secs as u32
    }
}

/// Caps a requested lease at the longest one the protocol can carry. A longer
/// request is not an error: it is silently shortened.
pub fn clamp_lease_secs(requested_secs: u64) -> (r: u32)
    ensures
        r == clamped_secs(requested_secs),
        r as u64 <= requested_secs,
        requested_secs <= MAX_LEASE_SECS as u64 ==> r as u64 == requested_secs,
{
    if requested_secs > MAX_LEASE_SECS as u64 {
        MAX_LEASE_SECS
    } else {
        requested_secs as u32
    }
}

/// How leases are requested. Where lease negotiation is unreliable, a caller
/// may always ask for an indefinite lease (a lease of zero seconds) instead.
#[derive(Clone, Copy, Debug, PartialEq, Eq, Structural)]
pub struct LeasePolicy {
    pub force_indefinite: bool,
}

/// The lease of a mapping: how often it is renewed, and the lease that each
/// request asks the gateway for.
#[derive(Clone, Copy, Debug, PartialEq, Eq, Structural)]
pub struct LeasePlan {
    pub period_secs: u32,
    pub requested_secs: u32,
}

pub open spec fn plan_of(requested_secs: u64, policy: LeasePolicy) -> LeasePlan {
    LeasePlan {
        period_secs: clamped_secs(requested_secs),
        requested_secs: if policy.force_indefinite {
            0
        } else {
            clamped_secs(requested_secs)
        },
    }
}

impl LeasePolicy {
    /// Requests the lease that the caller asked for, capped.
    pub fn finite() -> (r: LeasePolicy)
        ensures
            !r.force_indefinite,
    {
        LeasePolicy { force_indefinite: false }
    }

    /// Requests an indefinite lease, whatever the caller asked for.
    pub fn indefinite() -> (r: LeasePolicy)
        ensures
            r.force_indefinite,
    {
        LeasePolicy { force_indefinite: true }
    }

    /// The renewal period and the requested lease for a lease of
    /// `requested_secs` seconds.
    pub fn plan(&self, requested_secs: u64) -> (r: LeasePlan)
        ensures
            r == plan_of(requested_secs, *self),
    {
        let period = clamp_lease_secs(requested_secs);
        let requested = if self.force_indefinite {
            0
        } else {
            period
        };
        LeasePlan { period_secs: period, requested_secs: requested }
    }
}

} // verus!
