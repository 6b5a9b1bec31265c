//! Best-effort notification of the requesting subsystem.
//!
//! The outbound channel must never block and never backpressure: if the
//! receiving side has been torn down, the send fails softly. This is a
//! deliberate fire-and-forget contract.

use crate::messages::SyncMessage;
use vstd::prelude::*;

verus! {

/// Declares tokio's unbounded sender handle so it can stand in signatures;
/// its contents stay opaque to the verifier.
#[verifier::external_type_specification]
#[verifier::external_body]
#[verifier::reject_recursive_types(T)]
pub struct ExUnboundedSender<T>(tokio::sync::mpsc::UnboundedSender<T>);

/// Relies on `tokio::sync::mpsc::UnboundedSender::send`: the channel is
/// unbounded, so the call appends the message without any form of waiting,
/// and when the receiver has been dropped it returns an error rather than
/// blocking or panicking. Whether the message is delivered depends on the
/// receiver's state, so nothing is promised of the result.
#[verifier::external_body]
pub(crate) fn send_sync_message(
    sync_send: &tokio::sync::mpsc::UnboundedSender<SyncMessage>,
    msg: SyncMessage,
) -> (delivered: bool) {
    sync_send.send(msg).is_ok()
}

} // verus!
