//! The one-shot hand-off between a background release check and the
//! updater.
//!
//! A worker sends exactly one message per check: the release it found
//! (or none, or the error it ran into). The channel delivers a value at
//! most once, so the updater caches the first message it receives;
//! nothing is assumed here about what a receive returns — the updater
//! states what it does with every possible message.

use vstd::prelude::*;

use crate::error::UpdaterError;
use crate::state::UpdateInfo;

verus! {

/// What a background release check reports: the newest release (if the
/// check found one worth reporting) or the error it failed with.
pub type ReleasePayload = Result<Option<UpdateInfo>, UpdaterError>;

#[verifier::external_type_specification]
#[verifier::external_body]
#[verifier::reject_recursive_types(T)]
pub struct ExSender<T>(std::sync::mpsc::Sender<T>);

#[verifier::external_type_specification]
#[verifier::external_body]
#[verifier::reject_recursive_types(T)]
pub struct ExReceiver<T>(std::sync::mpsc::Receiver<T>);

/// What a non-blocking poll of the channel can find.
pub enum PollOutcome {
    /// A message arrived.
    Delivered(ReleasePayload),
    /// No message yet, but the sending side is still alive.
    NothingYet,
    /// No message, and no sender is left to produce one.
    Closed,
}

/// Relies on `std::sync::mpsc::channel`: it creates a connected
/// sender/receiver pair.
#[verifier::external_body]
pub fn payload_channel() -> (std::sync::mpsc::Sender<ReleasePayload>, std::sync::mpsc::Receiver<
    ReleasePayload,
>) {
    std::sync::mpsc::channel()
}

/// Relies on `std::sync::mpsc::Sender::send`: it delivers the message
/// unless the receiving side is gone; the result tells which.
#[verifier::external_body]
pub fn send_payload(
    tx: &std::sync::mpsc::Sender<ReleasePayload>,
    msg: ReleasePayload,
) -> (delivered: bool) {
    tx.send(msg).is_ok()
}

/// Relies on `std::sync::mpsc::Receiver::recv`: it blocks until a
/// message arrives, and returns no message only when every sender is
/// gone and the channel is drained.
#[verifier::external_body]
pub fn recv_payload(rx: &std::sync::mpsc::Receiver<ReleasePayload>) -> (r: Option<ReleasePayload>) {
    rx.recv().ok()
}

/// Relies on `std::sync::mpsc::Receiver::try_recv`: it never blocks and
/// tells a not-yet-sent message apart from a channel whose senders are
/// gone.
#[verifier::external_body]
pub fn try_recv_payload(rx: &std::sync::mpsc::Receiver<ReleasePayload>) -> (r: PollOutcome) {
    match rx.try_recv() {
        Ok(msg) => PollOutcome::Delivered(msg),
        Err(std::sync::mpsc::TryRecvError::Empty) => PollOutcome::NothingYet,
        Err(std::sync::mpsc::TryRecvError::Disconnected) => PollOutcome::Closed,
    }
}

} // verus!
