//! Value transfers attached to a forwarded call, and how a payment strategy
//! turns the transfers received by the current invocation into the set that
//! goes out with the call.
use vstd::prelude::*;

verus! {

/// One quantity of a fungible or semi-fungible resource.
#[derive(Clone, Debug, PartialEq, Eq)]
pub struct Payment {
    /// Identifier of the resource.
    pub token_id: Vec<u8>,
    /// Index of the sub-unit (zero for a fungible resource).
    pub nonce: u64,
    /// The quantity, as the big-endian magnitude the host hands over; the
    /// forwarder never computes with it.
    pub amount: Vec<u8>,
}

impl Payment {
    pub fn new(token_id: Vec<u8>, nonce: u64, amount: Vec<u8>) -> (r: Payment)
        ensures
            r == (Payment { token_id, nonce, amount }),
    {
        Payment { token_id, nonce, amount }
    }
}

/// How the outgoing payment set is populated.
pub enum PaymentStrategy {
    /// No payment goes with the call.
    NoPayment,
    /// The one entry the caller supplied.
    ExternalSingleToken(Payment),
    /// Every transfer received by the current invocation, in receipt order.
    AllReceivedTransfers,
    /// Every received transfer, then the caller-supplied entry at the end.
    HybridTransfer(Payment),
}

/// The payment set dispatched under strategy `s`, given the snapshot
/// `received` of the transfers attached to the current invocation.
pub open spec fn resolved_payments(s: PaymentStrategy, received: Seq<Payment>) -> Seq<Payment> {
    match s {
        PaymentStrategy::NoPayment => Seq::empty(),
        PaymentStrategy::ExternalSingleToken(p) => seq![p],
        PaymentStrategy::AllReceivedTransfers => received,
        PaymentStrategy::HybridTransfer(p) => received.push(p),
    }
}

/// Builds the outgoing payment set. Entries are moved, never reordered, merged
/// or deduplicated, even where one resource repeats.
pub fn resolve_payments(strategy: PaymentStrategy, received: Vec<Payment>) -> (r: Vec<Payment>)
    ensures
        r@ == resolved_payments(strategy, received@),
{
    match strategy {
        PaymentStrategy::NoPayment => Vec::new(),
        PaymentStrategy::ExternalSingleToken(p) => {
            let mut v: Vec<Payment> = Vec::new();
            v.push(p);
            proof {
                assert(v@ =~= seq![p]);
            }
            v
        },
        PaymentStrategy::AllReceivedTransfers => received,
        PaymentStrategy::HybridTransfer(p) => {
            let mut v = received;
            v.push(p);
            v
        },
    }
}

/// The hybrid set is the received snapshot followed by the external entry, in
/// that order, whether the snapshot is empty or not.
pub proof fn lemma_hybrid_appends_external(p: Payment, received: Seq<Payment>)
    ensures
        resolved_payments(PaymentStrategy::HybridTransfer(p), received) == received + seq![p],
        resolved_payments(PaymentStrategy::HybridTransfer(p), received).len() == received.len() + 1,
        resolved_payments(PaymentStrategy::HybridTransfer(p), received).last() == p,
{
    assert(received.push(p) =~= received + seq![p]);
}

/// Forwarding the held transfers of an invocation that received none
/// dispatches no payment at all.
pub proof fn lemma_held_empty_snapshot(received: Seq<Payment>)
    requires
        received.len() == 0,
    ensures
        resolved_payments(PaymentStrategy::AllReceivedTransfers, received) == Seq::<Payment>::empty(),
{
    assert(received =~= Seq::<Payment>::empty());
}

/// The held-transfer set is the snapshot itself: same entries, same order.
pub proof fn lemma_held_is_snapshot(received: Seq<Payment>)
    ensures
        resolved_payments(PaymentStrategy::AllReceivedTransfers, received) == received,
{
}

} // verus!
