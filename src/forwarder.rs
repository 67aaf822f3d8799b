//! The forwarder: assembles a call request and pairs it with the execution
//! mode and budget under which the host is to issue it.
use vstd::prelude::*;

use crate::call_type::{budget_spec, CallType};
use crate::payment::{resolve_payments, resolved_payments, Payment, PaymentStrategy};

verus! {

/// An immutable request to invoke `function` on `target`.
#[derive(Clone, Debug, PartialEq, Eq)]
pub struct CallRequest {
    /// Opaque address of the callee.
    pub target: Vec<u8>,
    /// Identifier of the remote operation.
    pub function: Vec<u8>,
    /// Argument buffers, in the order the target sees them.
    pub arguments: Vec<Vec<u8>>,
    /// Value transfers that go with the call, in dispatch order.
    pub payments: Vec<Payment>,
}

/// The single action the host performs for one forwarding operation.
#[derive(Clone, Debug, PartialEq, Eq)]
pub struct Dispatch {
    pub mode: CallType,
    /// Explicit budget for the call; `None` leaves it to the host default.
    pub gas_limit: Option<u64>,
    pub request: CallRequest,
}

/// `d` issues `function` on `target` with exactly `args` and `payments`,
/// under `mode`, with the budget that `mode` takes from `gas_left`.
pub open spec fn dispatches(
    d: Dispatch,
    mode: CallType,
    target: Seq<u8>,
    function: Seq<u8>,
    args: Seq<Vec<u8>>,
    payments: Seq<Payment>,
    gas_left: u64,
) -> bool {
    &&& d.mode == mode
    &&& d.gas_limit == budget_spec(mode, gas_left)
    &&& d.request.target@ == target
    &&& d.request.function@ == function
    &&& d.request.arguments@ == args
    &&& d.request.payments@ == payments
}

/// Assembles the request and selects the dispatch for one invocation.
/// `gas_left` and `received` are what the host reported when the context was
/// gathered: the remaining budget and the snapshot of attached transfers.
pub fn plan_dispatch(
    mode: CallType,
    strategy: PaymentStrategy,
    target: Vec<u8>,
    function: Vec<u8>,
    args: Vec<Vec<u8>>,
    gas_left: u64,
    received: Vec<Payment>,
) -> (r: Dispatch)
    ensures
        dispatches(
            r,
            mode,
            target@,
            function@,
            args@,
            resolved_payments(strategy, received@),
            gas_left,
        ),
{
    let payments = resolve_payments(strategy, received);
    let gas_limit = mode.budget(gas_left);
    Dispatch {
        mode,
        gas_limit,
        request: CallRequest { target, function, arguments: args, payments },
    }
}

/// The four forwarding operations. Each one's dispatch differs from the
/// others' only in its payment set; the mode alone decides how it is issued.
pub trait DummyProxyModule {
    /// Forwards the call with no payment.
    fn call_endpoint(
        &self,
        call_type: CallType,
        contract_address: Vec<u8>,
        function_name: Vec<u8>,
        args: Vec<Vec<u8>>,
        gas_left: u64,
    ) -> (r: Dispatch)
        ensures
            dispatches(
                r,
                call_type,
                contract_address@,
                function_name@,
                args@,
                Seq::empty(),
                gas_left,
            ),
    ;

    /// Forwards the call with the one payment the caller names.
    fn call_int_transfer_endpoint(
        &self,
        call_type: CallType,
        token_id: Vec<u8>,
        nonce: u64,
        amount: Vec<u8>,
        contract_address: Vec<u8>,
        function_name: Vec<u8>,
        args: Vec<Vec<u8>>,
        gas_left: u64,
    ) -> (r: Dispatch)
        ensures
            dispatches(
                r,
                call_type,
                contract_address@,
                function_name@,
                args@,
                seq![(Payment { token_id, nonce, amount })],
                gas_left,
            ),
    ;

    /// Forwards the call with every transfer the invocation received.
    fn call_transfer_endpoint(
        &self,
        call_type: CallType,
        contract_address: Vec<u8>,
        function_name: Vec<u8>,
        args: Vec<Vec<u8>>,
        gas_left: u64,
        received: Vec<Payment>,
    ) -> (r: Dispatch)
        ensures
            dispatches(
                r,
                call_type,
                contract_address@,
                function_name@,
                args@,
                received@,
                gas_left,
            ),
    ;

    /// Forwards the call with every received transfer and then the payment
    /// the caller names.
    fn call_hybrid_transfer_endpoint(
        &self,
        call_type: CallType,
        token_id: Vec<u8>,
        nonce: u64,
        amount: Vec<u8>,
        contract_address: Vec<u8>,
        function_name: Vec<u8>,
        args: Vec<Vec<u8>>,
        gas_left: u64,
        received: Vec<Payment>,
    ) -> (r: Dispatch)
        ensures
            dispatches(
                r,
                call_type,
                contract_address@,
                function_name@,
                args@,
                received@.push((Payment { token_id, nonce, amount })),
                gas_left,
            ),
    ;
}

/// The stateless forwarder. Deployment and upgrade initialise nothing.
#[derive(Clone, Copy, Debug)]
pub struct DummyProxy;

impl DummyProxy {
    pub fn init() -> (r: DummyProxy) {
        DummyProxy
    }

    /// Code replacement migrates no state.
    pub fn upgrade(&self) {
    }
}

impl DummyProxyModule for DummyProxy {
    fn call_endpoint(
        &self,
        call_type: CallType,
        contract_address: Vec<u8>,
        function_name: Vec<u8>,
        args: Vec<Vec<u8>>,
        gas_left: u64,
    ) -> (r: Dispatch) {
        plan_dispatch(
            call_type,
            PaymentStrategy::NoPayment,
            contract_address,
            function_name,
            args,
            gas_left,
            Vec::new(),
        )
    }

    fn call_int_transfer_endpoint(
        &self,
        call_type: CallType,
        token_id: Vec<u8>,
        nonce: u64,
        amount: Vec<u8>,
        contract_address: Vec<u8>,
        function_name: Vec<u8>,
        args: Vec<Vec<u8>>,
        gas_left: u64,
    ) -> (r: Dispatch) {
        let payment = Payment::new(token_id, nonce, amount);
        plan_dispatch(
            call_type,
            PaymentStrategy::ExternalSingleToken(payment),
            contract_address,
            function_name,
            args,
            gas_left,
            Vec::new(),
        )
    }

    fn call_transfer_endpoint(
        &self,
        call_type: CallType,
        contract_address: Vec<u8>,
        function_name: Vec<u8>,
        args: Vec<Vec<u8>>,
        gas_left: u64,
        received: Vec<Payment>,
    ) -> (r: Dispatch) {
        plan_dispatch(
            call_type,
            PaymentStrategy::AllReceivedTransfers,
            contract_address,
            function_name,
            args,
            gas_left,
            received,
        )
    }

    fn call_hybrid_transfer_endpoint(
        &self,
        call_type: CallType,
        token_id: Vec<u8>,
        nonce: u64,
        amount: Vec<u8>,
        contract_address: Vec<u8>,
        function_name: Vec<u8>,
        args: Vec<Vec<u8>>,
        gas_left: u64,
        received: Vec<Payment>,
    ) -> (r: Dispatch) {
        let payment = Payment::new(token_id, nonce, amount);
        plan_dispatch(
            call_type,
            PaymentStrategy::HybridTransfer(payment),
            contract_address,
            function_name,
            args,
            gas_left,
            received,
        )
    }
}

} // verus!
