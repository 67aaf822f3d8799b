//! Call-forwarding relay: turns a forwarding request (execution mode, payment
//! strategy, target, function and arguments) together with what the host
//! reported at context-gathering time into one exact dispatch plan.
pub mod call_type;
pub mod payment;
pub mod forwarder;
