use ez_p2p::address::{InternalAddress, Ipv4Endpoint, TransportProtocol};
use ez_p2p::error::IgdError;
use ez_p2p::forward::{add_port, forward_port, remove_port, renew_port, ForwardSession};
use ez_p2p::lease::{clamp_lease_secs, LeasePolicy, MAX_LEASE_SECS};
use ez_p2p::mapping::{
    GatewayAction, GatewayReply, MappingExchange, MappingPurpose, MappingRequest, Operation,
    Phase, Refusal, RemovalRequest,
};
use ez_p2p::renewal::{RenewalAction, RenewalLoop};

/// A stand-in for the network: it answers each action with a scripted reply
/// and counts what it was asked.
struct FakeGateway {
    found: bool,
    request_reply: GatewayReply,
    locates: u32,
    adds: Vec<MappingRequest>,
    removals: Vec<RemovalRequest>,
}

impl FakeGateway {
    fn new(found: bool, request_reply: GatewayReply) -> FakeGateway {
        FakeGateway { found, request_reply, locates: 0, adds: vec![], removals: vec![] }
    }

    fn answer(&mut self, action: GatewayAction) -> Option<GatewayReply> {
        match action {
            GatewayAction::Locate => {
                self.locates += 1;
                Some(if self.found { GatewayReply::Located } else { GatewayReply::LocateFailed })
            }
            GatewayAction::AddMapping(r) => {
                self.adds.push(r);
                Some(self.request_reply)
            }
            GatewayAction::RemoveMapping(r) => {
                self.removals.push(r);
                Some(self.request_reply)
            }
            GatewayAction::Finish(_) => None,
        }
    }

    fn run(&mut self, exchange: &mut MappingExchange) -> Result<(), IgdError> {
        let mut action = exchange.pending_action();
        while let Some(reply) = self.answer(action) {
            action = exchange.on_reply(reply);
        }
        match action {
            GatewayAction::Finish(r) => r,
            _ => unreachable!(),
        }
    }

    fn run_session(&mut self, session: &mut ForwardSession) -> Result<(), IgdError> {
        let mut action = session.pending_action();
        while let Some(reply) = self.answer(action) {
            action = session.on_reply(reply);
        }
        match action {
            GatewayAction::Finish(r) => r,
            _ => unreachable!(),
        }
    }
}

fn lan_host() -> InternalAddress {
    InternalAddress::V4(Ipv4Endpoint { ip: 0xC0A8_0105, port: 9000 })
}

fn ipv6_host() -> InternalAddress {
    InternalAddress::V6 { ip: 1, port: 9000 }
}

#[test]
fn ipv6_forward_is_refused_without_discovery() {
    let mut gateway = FakeGateway::new(true, GatewayReply::Completed);
    let r = forward_port(TransportProtocol::Tcp, 9000, ipv6_host(), 3600, LeasePolicy::finite());
    assert_eq!(r, Err(IgdError::AddressFamilyUnsupported));
    if let Ok(mut s) = r {
        let _ = gateway.run_session(&mut s);
    }
    assert_eq!(gateway.locates, 0);
}

#[test]
fn ipv6_add_renew_remove_are_refused() {
    assert_eq!(
        add_port(TransportProtocol::Udp, 1, ipv6_host(), 60, LeasePolicy::finite()),
        Err(IgdError::AddressFamilyUnsupported)
    );
    assert_eq!(
        renew_port(TransportProtocol::Udp, 1, ipv6_host(), 60),
        Err(IgdError::AddressFamilyUnsupported)
    );
    assert_eq!(
        remove_port(TransportProtocol::Udp, 1, ipv6_host()),
        Err(IgdError::AddressFamilyUnsupported)
    );
}

#[test]
fn long_leases_are_capped() {
    assert_eq!(clamp_lease_secs(u64::MAX), u32::MAX);
    assert_eq!(clamp_lease_secs(5_000_000_000), MAX_LEASE_SECS);
    assert_eq!(clamp_lease_secs(4_294_967_296), 4_294_967_295);
    assert_eq!(clamp_lease_secs(4_294_967_295), 4_294_967_295);
    assert_eq!(clamp_lease_secs(3600), 3600);
    assert_eq!(clamp_lease_secs(0), 0);
}

#[test]
fn long_lease_forward_succeeds_with_capped_request() {
    let mut gateway = FakeGateway::new(true, GatewayReply::Completed);
    let mut s =
        forward_port(TransportProtocol::Tcp, 9000, lan_host(), u64::MAX, LeasePolicy::finite())
            .unwrap();
    assert_eq!(gateway.run_session(&mut s), Ok(()));
    assert_eq!(gateway.adds[0].lease_secs, u32::MAX);
    assert_eq!(s.period_secs, u32::MAX);
}

#[test]
fn indefinite_policy_requests_zero_but_renews_on_period() {
    let plan = LeasePolicy::indefinite().plan(7200);
    assert_eq!(plan.period_secs, 7200);
    assert_eq!(plan.requested_secs, 0);
    let plan = LeasePolicy::finite().plan(7200);
    assert_eq!(plan.requested_secs, 7200);
    let x = add_port(TransportProtocol::Tcp, 80, lan_host(), 7200, LeasePolicy::indefinite())
        .unwrap();
    match x.operation {
        Operation::Add(r) => assert_eq!(r.lease_secs, 0),
        _ => panic!("not an addition"),
    }
}

#[test]
fn silent_discovery_times_out_without_renewal() {
    let mut s = forward_port(TransportProtocol::Tcp, 9000, lan_host(), 3600, LeasePolicy::finite())
        .unwrap();
    assert_eq!(s.pending_action(), GatewayAction::Locate);
    // The gateway never answers; the caller's deadline elapses.
    assert_eq!(s.on_deadline(), GatewayAction::Finish(Err(IgdError::TimedOut)));
    assert_eq!(s.renewal(), None);
    // A late answer changes nothing.
    assert_eq!(s.on_reply(GatewayReply::Located), GatewayAction::Finish(Err(IgdError::TimedOut)));
    assert_eq!(s.renewal(), None);
}

#[test]
fn deadline_after_success_keeps_success() {
    let mut gateway = FakeGateway::new(true, GatewayReply::Completed);
    let mut s = forward_port(TransportProtocol::Tcp, 9000, lan_host(), 3600, LeasePolicy::finite())
        .unwrap();
    assert_eq!(gateway.run_session(&mut s), Ok(()));
    assert_eq!(s.on_deadline(), GatewayAction::Finish(Ok(())));
    assert!(s.renewal().is_some());
}

#[test]
fn failing_renewals_never_stop_the_loop() {
    let mut gateway = FakeGateway::new(true, GatewayReply::Completed);
    let mut s = forward_port(TransportProtocol::Udp, 9000, lan_host(), 1, LeasePolicy::finite())
        .unwrap();
    assert_eq!(gateway.run_session(&mut s), Ok(()));
    let mut renewal = s.renewal().unwrap();
    // From now on every discovery fails.
    gateway.found = false;
    let mut elapsed: u64 = 0;
    let mut attempts = 0;
    let mut action = renewal.next_action();
    while elapsed < 3 {
        match action {
            RenewalAction::Wait(secs) => elapsed += secs as u64,
            RenewalAction::Stop => panic!("the loop stopped"),
        }
        let mut x = renewal.begin_renewal();
        let outcome = gateway.run(&mut x);
        assert_eq!(outcome, Err(IgdError::DiscoveryFailed));
        attempts += 1;
        action = renewal.record_outcome(outcome);
    }
    assert_eq!(attempts, 3);
    assert_eq!(elapsed, 3);
    assert_eq!(action, RenewalAction::Wait(1));
    assert_eq!(gateway.locates, 4);
    // The first result is untouched by the failures.
    assert_eq!(s.pending_action(), GatewayAction::Finish(Ok(())));
}

#[test]
fn stopped_renewal_loop_stops() {
    let request = MappingRequest {
        protocol: TransportProtocol::Tcp,
        external_port: 9000,
        internal: Ipv4Endpoint { ip: 0xC0A8_0105, port: 9000 },
        lease_secs: 60,
        purpose: MappingPurpose::Renewal,
    };
    let mut l = RenewalLoop::new(request, 60);
    assert_eq!(l.next_action(), RenewalAction::Wait(60));
    l.request_stop();
    assert!(l.stop_requested);
    assert_eq!(l.next_action(), RenewalAction::Stop);
    assert_eq!(l.record_outcome(Ok(())), RenewalAction::Stop);
}

#[test]
fn removing_a_missing_mapping_succeeds() {
    let mut gateway = FakeGateway::new(true, GatewayReply::Refused(Refusal::NoSuchMapping));
    let mut x = remove_port(TransportProtocol::Tcp, 9000, lan_host()).unwrap();
    assert_eq!(gateway.run(&mut x), Ok(()));
    assert_eq!(
        gateway.removals,
        vec![RemovalRequest { protocol: TransportProtocol::Tcp, external_port: 9000 }]
    );
}

#[test]
fn removal_refused_otherwise_is_rejected() {
    let mut gateway = FakeGateway::new(true, GatewayReply::Refused(Refusal::Other));
    let mut x = remove_port(TransportProtocol::Tcp, 9000, lan_host()).unwrap();
    assert_eq!(gateway.run(&mut x), Err(IgdError::MappingRejected));
    let mut gateway = FakeGateway::new(true, GatewayReply::Completed);
    let mut x = remove_port(TransportProtocol::Tcp, 9000, lan_host()).unwrap();
    assert_eq!(gateway.run(&mut x), Ok(()));
}

#[test]
fn add_refusals_are_rejections() {
    for refusal in [Refusal::NoSuchMapping, Refusal::Other] {
        let mut gateway = FakeGateway::new(true, GatewayReply::Refused(refusal));
        let mut s =
            forward_port(TransportProtocol::Tcp, 9000, lan_host(), 3600, LeasePolicy::finite())
                .unwrap();
        assert_eq!(gateway.run_session(&mut s), Err(IgdError::MappingRejected));
        assert_eq!(s.renewal(), None);
    }
}

#[test]
fn missing_gateway_is_a_discovery_failure() {
    let mut gateway = FakeGateway::new(false, GatewayReply::Completed);
    let mut s = forward_port(TransportProtocol::Tcp, 9000, lan_host(), 3600, LeasePolicy::finite())
        .unwrap();
    assert_eq!(gateway.run_session(&mut s), Err(IgdError::DiscoveryFailed));
    assert!(gateway.adds.is_empty());
    assert_eq!(s.renewal(), None);
}

#[test]
fn out_of_order_replies_are_ignored() {
    let mut x = remove_port(TransportProtocol::Udp, 5, lan_host()).unwrap();
    assert_eq!(x.on_reply(GatewayReply::Completed), GatewayAction::Locate);
    assert_eq!(x.phase, Phase::Locating);
    let req = RemovalRequest { protocol: TransportProtocol::Udp, external_port: 5 };
    assert_eq!(x.on_reply(GatewayReply::Located), GatewayAction::RemoveMapping(req));
    assert_eq!(x.on_reply(GatewayReply::LocateFailed), GatewayAction::RemoveMapping(req));
    assert_eq!(x.outcome(), None);
    assert_eq!(x.on_reply(GatewayReply::Completed), GatewayAction::Finish(Ok(())));
    assert_eq!(x.outcome(), Some(Ok(())));
}

#[test]
fn forward_then_one_renewal_with_the_same_tuple() {
    let mut gateway = FakeGateway::new(true, GatewayReply::Completed);
    let mut s = forward_port(TransportProtocol::Tcp, 9000, lan_host(), 3600, LeasePolicy::finite())
        .unwrap();
    assert_eq!(gateway.run_session(&mut s), Ok(()));
    let initial = gateway.adds[0];
    assert_eq!(initial.external_port, 9000);
    assert_eq!(initial.internal, Ipv4Endpoint { ip: 0xC0A8_0105, port: 9000 });
    assert_eq!(initial.lease_secs, 3600);
    assert_eq!(initial.purpose, MappingPurpose::Initial);

    let mut renewal = s.renewal().unwrap();
    assert_eq!(renewal.next_action(), RenewalAction::Wait(3600));
    let mut x = renewal.begin_renewal();
    assert_eq!(gateway.run(&mut x), Ok(()));
    assert_eq!(gateway.adds.len(), 2);
    assert_eq!(gateway.locates, 2);
    let renewed = gateway.adds[1];
    assert_eq!(renewed.protocol, initial.protocol);
    assert_eq!(renewed.external_port, initial.external_port);
    assert_eq!(renewed.internal, initial.internal);
    assert_eq!(renewed.lease_secs, initial.lease_secs);
    assert_eq!(renewed.purpose, MappingPurpose::Renewal);
    assert_eq!(renewal.record_outcome(Ok(())), RenewalAction::Wait(3600));
}

#[test]
fn renew_port_builds_a_renewal_request() {
    let x = renew_port(TransportProtocol::Udp, 4000, lan_host(), 90).unwrap();
    assert_eq!(x.phase, Phase::Locating);
    assert_eq!(
        x.operation,
        Operation::Add(MappingRequest {
            protocol: TransportProtocol::Udp,
            external_port: 4000,
            internal: Ipv4Endpoint { ip: 0xC0A8_0105, port: 9000 },
            lease_secs: 90,
            purpose: MappingPurpose::Renewal,
        })
    );
}

#[test]
fn descriptions_and_messages() {
    assert_eq!(MappingPurpose::Initial.description(), "ez-p2p");
    assert_eq!(MappingPurpose::Renewal.description(), "MaidSafe.net");
    assert_eq!(
        IgdError::TimedOut.message(),
        "Timed out waiting for the operation to complete"
    );
    assert_eq!(IgdError::AddressFamilyUnsupported.message(), "IGD is not supported for IPv6");
    assert_eq!(IgdError::MappingRejected.message(), "The gateway rejected the port mapping");
    assert_eq!(IgdError::DiscoveryFailed.message(), "No gateway could be discovered");
}

#[test]
fn zero_lease_is_indefinite_and_never_renewed() {
    let mut gateway = FakeGateway::new(true, GatewayReply::Completed);
    let mut s = forward_port(TransportProtocol::Tcp, 9000, lan_host(), 0, LeasePolicy::finite())
        .unwrap();
    assert_eq!(gateway.run_session(&mut s), Ok(()));
    assert_eq!(gateway.adds[0].lease_secs, 0);
    assert_eq!(s.renewal(), None);
    let mut s = forward_port(TransportProtocol::Tcp, 9000, lan_host(), 1, LeasePolicy::finite())
        .unwrap();
    assert_eq!(gateway.run_session(&mut s), Ok(()));
    assert_eq!(s.renewal().map(|l| l.period_secs), Some(1));
}
