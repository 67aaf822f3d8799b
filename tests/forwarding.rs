use dummy_proxy::call_type::{CallType, FailureHandling};
use dummy_proxy::forwarder::{plan_dispatch, Dispatch, DummyProxy, DummyProxyModule};
use dummy_proxy::payment::{resolve_payments, Payment, PaymentStrategy};

const GAS: u64 = 5_000_000;

fn b(s: &str) -> Vec<u8> {
    s.as_bytes().to_vec()
}

fn pay(token: &str, nonce: u64, amount: u8) -> Payment {
    Payment::new(b(token), nonce, vec![amount])
}

fn args(list: &[&str]) -> Vec<Vec<u8>> {
    list.iter().map(|a| b(a)).collect()
}

const MODES: [CallType; 4] = [
    CallType::Sync,
    CallType::Async,
    CallType::Promise,
    CallType::TransferExecute,
];

fn check_common(d: &Dispatch, mode: CallType, target: &str, function: &str, a: &[&str]) {
    assert_eq!(d.mode, mode);
    assert_eq!(d.request.target, b(target));
    assert_eq!(d.request.function, b(function));
    assert_eq!(d.request.arguments, args(a));
    if mode == CallType::Async {
        assert_eq!(d.gas_limit, None);
    } else {
        assert_eq!(d.gas_limit, Some(GAS));
    }
}

#[test]
fn sync_forward_to_failing_target_aborts() {
    let d = DummyProxy::init().call_endpoint(CallType::Sync, b("targetA"), b("f"), vec![], GAS);
    check_common(&d, CallType::Sync, "targetA", "f", &[]);
    assert!(d.request.payments.is_empty());
    assert!(d.mode.blocks_caller());
    assert_eq!(d.mode.on_target_failure(), FailureHandling::AbortAndRollback);
}

#[test]
fn sync_external_payment_goes_to_target() {
    let d = DummyProxy.call_int_transfer_endpoint(
        CallType::Sync,
        b("tokenX"),
        0,
        vec![100],
        b("targetA"),
        b("f"),
        vec![],
        GAS,
    );
    check_common(&d, CallType::Sync, "targetA", "f", &[]);
    assert_eq!(d.request.payments, vec![pay("tokenX", 0, 100)]);
    assert!(d.mode.blocks_caller());
}

#[test]
fn transfer_execute_held_payments_verbatim() {
    let received = vec![pay("tokenY", 0, 5), pay("tokenZ", 0, 7)];
    let d = DummyProxy.call_transfer_endpoint(
        CallType::TransferExecute,
        b("targetA"),
        b("f"),
        args(&["arg1"]),
        GAS,
        received,
    );
    check_common(&d, CallType::TransferExecute, "targetA", "f", &["arg1"]);
    assert_eq!(d.request.payments, vec![pay("tokenY", 0, 5), pay("tokenZ", 0, 7)]);
    assert!(!d.mode.blocks_caller());
    assert!(!d.mode.registers_continuation());
    assert_eq!(d.mode.on_target_failure(), FailureHandling::ReportedByHost);
}

#[test]
fn argument_order_kept_by_every_operation() {
    let a = ["third", "first", "second", "first"];
    for mode in MODES {
        let p = DummyProxy;
        let d = p.call_endpoint(mode, b("t"), b("g"), args(&a), GAS);
        check_common(&d, mode, "t", "g", &a);
        let d = p.call_int_transfer_endpoint(mode, b("X"), 3, vec![1, 0], b("t"), b("g"), args(&a), GAS);
        check_common(&d, mode, "t", "g", &a);
        let d = p.call_transfer_endpoint(mode, b("t"), b("g"), args(&a), GAS, vec![pay("Y", 1, 2)]);
        check_common(&d, mode, "t", "g", &a);
        let d = p.call_hybrid_transfer_endpoint(
            mode,
            b("X"),
            3,
            vec![1, 0],
            b("t"),
            b("g"),
            args(&a),
            GAS,
            vec![pay("Y", 1, 2)],
        );
        check_common(&d, mode, "t", "g", &a);
    }
}

#[test]
fn hybrid_appends_external_after_received() {
    let received = vec![pay("A", 0, 1), pay("B", 4, 2)];
    let d = DummyProxy.call_hybrid_transfer_endpoint(
        CallType::Promise,
        b("C"),
        9,
        vec![3],
        b("targetA"),
        b("f"),
        vec![],
        GAS,
        received,
    );
    assert_eq!(
        d.request.payments,
        vec![pay("A", 0, 1), pay("B", 4, 2), pay("C", 9, 3)]
    );
    assert!(d.mode.registers_continuation());
    assert_eq!(d.mode.on_target_failure(), FailureHandling::DeliveredToContinuation);
}

#[test]
fn hybrid_with_empty_snapshot_is_external_only() {
    let d = DummyProxy.call_hybrid_transfer_endpoint(
        CallType::Async,
        b("C"),
        0,
        vec![42],
        b("targetA"),
        b("f"),
        vec![],
        GAS,
        vec![],
    );
    assert_eq!(d.request.payments, vec![pay("C", 0, 42)]);
    assert_eq!(d.gas_limit, None);
}

#[test]
fn held_payment_with_empty_snapshot_is_empty() {
    for mode in MODES {
        let d = DummyProxy.call_transfer_endpoint(mode, b("t"), b("f"), vec![], GAS, vec![]);
        assert!(d.request.payments.is_empty());
    }
}

#[test]
fn repeated_resource_is_not_merged() {
    let received = vec![pay("T", 0, 1), pay("T", 0, 1), pay("T", 0, 2)];
    let d = DummyProxy.call_hybrid_transfer_endpoint(
        CallType::Sync,
        b("T"),
        0,
        vec![1],
        b("t"),
        b("f"),
        vec![],
        GAS,
        received,
    );
    assert_eq!(
        d.request.payments,
        vec![pay("T", 0, 1), pay("T", 0, 1), pay("T", 0, 2), pay("T", 0, 1)]
    );
}

#[test]
fn async_leaves_budget_to_host() {
    let d = DummyProxy.call_endpoint(CallType::Async, b("t"), b("f"), vec![], GAS);
    assert_eq!(d.gas_limit, None);
    assert!(!d.mode.blocks_caller());
    assert_eq!(CallType::Async.budget(7), None);
    assert_eq!(CallType::Promise.budget(7), Some(7));
    assert_eq!(CallType::Sync.budget(0), Some(0));
    assert_eq!(CallType::TransferExecute.budget(u64::MAX), Some(u64::MAX));
}

#[test]
fn resolve_each_strategy() {
    let rec = || vec![pay("A", 1, 1), pay("B", 2, 2)];
    assert!(resolve_payments(PaymentStrategy::NoPayment, rec()).is_empty());
    assert_eq!(
        resolve_payments(PaymentStrategy::ExternalSingleToken(pay("E", 0, 9)), rec()),
        vec![pay("E", 0, 9)]
    );
    assert_eq!(resolve_payments(PaymentStrategy::AllReceivedTransfers, rec()), rec());
    assert_eq!(
        resolve_payments(PaymentStrategy::HybridTransfer(pay("E", 0, 9)), rec()),
        vec![pay("A", 1, 1), pay("B", 2, 2), pay("E", 0, 9)]
    );
}

#[test]
fn plan_ignores_snapshot_without_held_strategy() {
    let d = plan_dispatch(
        CallType::Sync,
        PaymentStrategy::NoPayment,
        b("t"),
        b("f"),
        args(&["x"]),
        10,
        vec![pay("A", 0, 1)],
    );
    assert!(d.request.payments.is_empty());
    assert_eq!(d.gas_limit, Some(10));
    assert_eq!(d.request.arguments, args(&["x"]));
}

#[test]
fn mode_bytes_round_trip() {
    for (i, mode) in MODES.iter().enumerate() {
        assert_eq!(mode.to_byte() as usize, i);
        assert_eq!(CallType::from_byte(mode.to_byte()), Some(*mode));
    }
}

#[test]
fn unknown_mode_byte_is_rejected() {
    assert_eq!(CallType::from_byte(4), None);
    assert_eq!(CallType::from_byte(255), None);
}
