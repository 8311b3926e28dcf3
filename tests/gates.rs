use std::cell::Cell;

use bridge_hub_helpers::inbound::VerificationError;
use bridge_hub_helpers::lane::{LaneId, SenderAndLane};
use bridge_hub_helpers::refund::{BridgeCall, TransactionValidityError};
use bridge_hub_helpers::registry::{LaneRegistry, RegistryError};
use bridge_hub_helpers::status::{NeverCongested, XcmChannelStatusProvider, XcmChannelStatusProviderAdapter};

fn provider(queued: u64) -> XcmChannelStatusProviderAdapter {
    XcmChannelStatusProviderAdapter { suspended: false, queued_messages: queued, max_queued_messages: 10 }
}

/// Lane 1 is live, lane 2 is congested; lane 99 is not registered.
fn registry() -> LaneRegistry<XcmChannelStatusProviderAdapter> {
    let mut r = LaneRegistry::new();
    r.register(SenderAndLane::new(1000, LaneId::new(1)), provider(3)).unwrap();
    r.register(SenderAndLane::new(2000, LaneId::new(2)), provider(11)).unwrap();
    r
}

#[test]
fn provider_reports_queue_depth_and_suspension() {
    assert!(!XcmChannelStatusProviderAdapter::new(10).is_congested());
    assert!(!provider(10).is_congested());
    assert!(provider(11).is_congested());
    let suspended = XcmChannelStatusProviderAdapter { suspended: true, queued_messages: 0, max_queued_messages: 10 };
    assert!(suspended.is_congested());
    assert!(!NeverCongested.is_congested());
}

#[test]
fn duplicate_lane_is_refused() {
    let mut r = registry();
    let e = r.register(SenderAndLane::new(3000, LaneId::new(1)), provider(0));
    assert_eq!(e, Err(RegistryError::DuplicateLane));
    assert_eq!(r.len(), 2);
    assert_eq!(r.resolve(LaneId::new(1)).unwrap().route.sender, 1000);
}

#[test]
fn resolving_twice_gives_the_same_entry() {
    let r = registry();
    let a = r.resolve(LaneId::new(2)).map(|e| (e.route, e.status));
    let b = r.resolve(LaneId::new(2)).map(|e| (e.route, e.status));
    assert_eq!(a, b);
    assert_eq!(a, Some((SenderAndLane::new(2000, LaneId::new(2)), provider(11))));
    assert!(r.resolve(LaneId::new(99)).is_none());
}

#[test]
fn channel_activity_per_lane() {
    let r = registry();
    assert!(r.is_outbound_xcmp_channel_active(LaneId::new(1)));
    assert!(!r.is_outbound_xcmp_channel_active(LaneId::new(2)));
    assert!(r.is_outbound_xcmp_channel_active(LaneId::new(99)));
}

#[test]
fn inactive_lane_batch_is_refused_without_calling_the_engine() {
    let r = registry();
    let calls = Cell::new(0u32);
    let res = r.on_inbound_batch(LaneId::new(2), vec![1u8, 2, 3], 3, |_, _| {
        calls.set(calls.get() + 1);
        Ok::<Vec<u32>, String>(vec![1, 2, 3])
    });
    assert_eq!(res, Err(VerificationError::ChannelInactive));
    assert_eq!(calls.get(), 0);
}

#[test]
fn active_lane_batch_returns_the_engine_result() {
    let r = registry();
    let calls = Cell::new(0u32);
    let res = r.on_inbound_batch(LaneId::new(1), vec![9u8], 2, |p, n| {
        calls.set(calls.get() + 1);
        assert_eq!(p, vec![9u8]);
        assert_eq!(n, 2);
        Ok::<Vec<u32>, String>(vec![10, 11])
    });
    assert_eq!(res, Ok(vec![10, 11]));
    assert_eq!(calls.get(), 1);
}

#[test]
fn engine_error_is_surfaced_unchanged() {
    let r = registry();
    let res = r.on_inbound_batch(LaneId::new(1), (), 1, |_, _| Err::<Vec<u32>, String>("bad proof".to_string()));
    assert_eq!(res, Err(VerificationError::Proof("bad proof".to_string())));
}

#[test]
fn scenario_unknown_lane_goes_to_the_engine() {
    let r = registry();
    let calls = Cell::new(0u32);
    let res = r.on_inbound_batch(LaneId::new(99), (), 1, |_, _| {
        calls.set(calls.get() + 1);
        Err::<Vec<u32>, String>("engine says no".to_string())
    });
    assert_eq!(calls.get(), 1);
    assert_eq!(res, Err(VerificationError::Proof("engine says no".to_string())));
    let ok = r.on_inbound_batch(LaneId::new(99), (), 1, |_, _| Ok::<Vec<u32>, String>(vec![4]));
    assert_eq!(ok, Ok(vec![4]));
}

#[test]
fn transaction_with_one_inactive_lane_is_stale() {
    let r = registry();
    let calls = vec![
        BridgeCall::ReceiveMessagesProof { lane: LaneId::new(1), messages_count: 1 },
        BridgeCall::ReceiveMessagesProof { lane: LaneId::new(2), messages_count: 1 },
    ];
    let inner = Cell::new(0u32);
    let res = r.validate_delivery_tx(&calls, || {
        inner.set(inner.get() + 1);
        Ok::<u64, String>(100)
    });
    assert_eq!(res, Err(TransactionValidityError::Stale));
    assert_eq!(inner.get(), 0);
}

#[test]
fn transaction_on_active_lanes_is_left_to_the_inner_computation() {
    let r = registry();
    let calls = vec![
        BridgeCall::ReceiveMessagesProof { lane: LaneId::new(1), messages_count: 4 },
        BridgeCall::ReceiveMessagesProof { lane: LaneId::new(99), messages_count: 1 },
        BridgeCall::ReceiveMessagesDeliveryProof { lane: LaneId::new(2) },
        BridgeCall::Other,
    ];
    assert_eq!(r.validate_delivery_tx(&calls, || Ok::<u64, String>(100)), Ok(100));
    assert_eq!(
        r.validate_delivery_tx(&calls, || Err::<u64, String>("no refund".to_string())),
        Err(TransactionValidityError::Inner("no refund".to_string()))
    );
    assert_eq!(r.validate_delivery_tx(&vec![], || Ok::<u64, String>(1)), Ok(1));
}

#[test]
fn pre_dispatch_checks_again_then_delegates() {
    let r = registry();
    let good = vec![BridgeCall::ReceiveMessagesProof { lane: LaneId::new(1), messages_count: 1 }];
    let bad = vec![BridgeCall::ReceiveMessagesProof { lane: LaneId::new(2), messages_count: 1 }];
    let res = r.pre_dispatch(&good, || Ok::<u64, String>(1), || Ok::<&str, String>("pre"));
    assert_eq!(res, Ok("pre"));
    let res = r.pre_dispatch(&bad, || Ok::<u64, String>(1), || Ok::<&str, String>("pre"));
    assert_eq!(res, Err(TransactionValidityError::Stale));
    let res = r.pre_dispatch(&good, || Err::<u64, String>("v".to_string()), || Ok::<&str, String>("pre"));
    assert_eq!(res, Err(TransactionValidityError::Inner("v".to_string())));
    let res = r.pre_dispatch(&good, || Ok::<u64, String>(1), || Err::<&str, String>("p".to_string()));
    assert_eq!(res, Err(TransactionValidityError::Inner("p".to_string())));
}

#[test]
fn never_congested_lanes_accept_everything() {
    let mut r = LaneRegistry::new();
    r.register(SenderAndLane::new(1000, LaneId::new(7)), NeverCongested).unwrap();
    assert!(r.is_outbound_xcmp_channel_active(LaneId::new(7)));
    let res = r.on_inbound_batch(LaneId::new(7), (), 1, |_, _| Ok::<u8, String>(1));
    assert_eq!(res, Ok(1));
}
