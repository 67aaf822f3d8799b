//! The closed set of execution modes a forwarded call can be dispatched under.
use vstd::prelude::*;

verus! {

/// How a forwarded call is issued and how its outcome is handled.
#[derive(PartialEq, Eq, Structural, Clone, Copy, Debug)]
pub enum CallType {
    /// The caller blocks until the target completes; a failure aborts everything.
    Sync,
    /// Fire the call once the current invocation ends; the host picks the budget.
    Async,
    /// Issue the call and register a continuation that receives its result.
    Promise,
    /// Transfer value and execute without ever observing a result.
    TransferExecute,
}

/// What becomes of a failure of the target, as seen from the forwarder.
#[derive(PartialEq, Eq, Structural, Clone, Copy, Debug)]
pub enum FailureHandling {
    /// The whole enclosing invocation aborts and every change it made, payments
    /// included, is rolled back.
    AbortAndRollback,
    /// A later continuation invocation observes the failure; nothing is retried.
    DeliveredToContinuation,
    /// Reported, if at all, by the host outside the forwarder's call stack.
    ReportedByHost,
}

/// Whether the issuing invocation waits for the target to complete.
pub open spec fn blocks_caller_spec(m: CallType) -> bool {
    m is Sync
}

/// Whether a continuation is registered to receive the result.
pub open spec fn registers_continuation_spec(m: CallType) -> bool {
    m is Promise
}

/// Whether the remaining budget is forwarded explicitly (otherwise the host
/// applies its own default).
pub open spec fn forwards_budget_spec(m: CallType) -> bool {
    !(m is Async)
}

/// The explicit budget that goes with a call issued under `m` when `gas_left`
/// remains: all of it, or `None` for the host default.
pub open spec fn budget_spec(m: CallType, gas_left: u64) -> Option<u64> {
    if forwards_budget_spec(m) {
        Some(gas_left)
    } else {
        None
    }
}

pub open spec fn failure_handling_spec(m: CallType) -> FailureHandling {
    match m {
        CallType::Sync => FailureHandling::AbortAndRollback,
        CallType::Promise => FailureHandling::DeliveredToContinuation,
        _ => FailureHandling::ReportedByHost,
    }
}

/// Wire form of a mode: its position in the declaration, as a single byte.
pub open spec fn encode_spec(m: CallType) -> u8 {
    match m {
        CallType::Sync => 0,
        CallType::Async => 1,
        CallType::Promise => 2,
        CallType::TransferExecute => 3,
    }
}

/// Decoding is closed: any byte other than the four declared positions is rejected.
pub open spec fn decode_spec(b: u8) -> Option<CallType> {
    if b == 0 {
        Some(CallType::Sync)
    } else if b == 1 {
        Some(CallType::Async)
    } else if b == 2 {
        Some(CallType::Promise)
    } else if b == 3 {
        Some(CallType::TransferExecute)
    } else {
        None
    }
}

impl CallType {
    /// The byte this mode travels as.
    pub fn to_byte(self) -> (r: u8)
        ensures
            r == encode_spec(self),
    {
        match self {
            CallType::Sync => 0,
            CallType::Async => 1,
            CallType::Promise => 2,
            CallType::TransferExecute => 3,
        }
    }

    /// Whether the issuing invocation waits for the target to complete.
    pub fn blocks_caller(self) -> (r: bool)
        ensures
            r == blocks_caller_spec(self),
    {
        match self {
            CallType::Sync => true,
            _ => false,
        }
    }

    /// Whether a continuation is registered to receive the result.
    pub fn registers_continuation(self) -> (r: bool)
        ensures
            r == registers_continuation_spec(self),
    {
        match self {
            CallType::Promise => true,
            _ => false,
        }
    }

    /// The explicit budget to attach to the call when `gas_left` remains.
    pub fn budget(self, gas_left: u64) -> (r: Option<u64>)
        ensures
            r == budget_spec(self, gas_left),
            r is None <==> self is Async,
    {
        match self {
            CallType::Async => None,
            _ => Some(gas_left),
        }
    }

    /// What becomes of a failure of the target.
    pub fn on_target_failure(self) -> (r: FailureHandling)
        ensures
            r == failure_handling_spec(self),
            r == FailureHandling::AbortAndRollback <==> self is Sync,
    {
        match self {
            CallType::Sync => FailureHandling::AbortAndRollback,
            CallType::Promise => FailureHandling::DeliveredToContinuation,
            _ => FailureHandling::ReportedByHost,
        }
    }

    /// Reads a mode from its byte; an unrecognised byte yields `None`
    /// rather than reaching dispatch as a silent no-op.
    pub fn from_byte(b: u8) -> (r: Option<CallType>)
        ensures
            r == decode_spec(b),
            r is Some <==> b <= 3,
    {
        match b {
            0 => Some(CallType::Sync),
            1 => Some(CallType::Async),
            2 => Some(CallType::Promise),
            3 => Some(CallType::TransferExecute),
            _ => None,
        }
    }
}

/// A synchronous call is the only one whose failure reaches the forwarder, and
/// it reaches it as an abort that rolls back all state, balances included.
pub proof fn lemma_sync_failure_rolls_back(m: CallType)
    ensures
        m is Sync <==> failure_handling_spec(m) == FailureHandling::AbortAndRollback,
        m is Sync ==> blocks_caller_spec(m),
{
}

/// Calls issued asynchronously or as transfer-and-execute never hold up the
/// issuing invocation, however long the target takes.
pub proof fn lemma_fire_and_forget_does_not_block(m: CallType)
    requires
        m is Async || m is TransferExecute,
    ensures
        !blocks_caller_spec(m),
        !registers_continuation_spec(m),
        failure_handling_spec(m) == FailureHandling::ReportedByHost,
{
}

/// Every mode survives a trip through its wire form.
pub proof fn lemma_mode_round_trip(m: CallType)
    ensures
        decode_spec(encode_spec(m)) == Some(m),
{
}

/// Every byte that decodes encodes back to itself, so no two bytes name one mode.
pub proof fn lemma_decode_injective(b: u8)
    requires
        decode_spec(b) is Some,
    ensures
        encode_spec(decode_spec(b)->0) == b,
{
}

} // verus!
