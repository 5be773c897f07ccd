//! The event bus: a single bounded multi-producer channel of [`Event`]
//! values connecting the peripheral tasks.
//!
//! Each consumer task holds its own handle obtained by duplicating the
//! receiving end.  That does not create broadcast fan-out: an event on the
//! channel is delivered to exactly one waiting consumer, chosen arbitrarily
//! among those blocked on receive.  The contracts below therefore promise
//! nothing about which event a receive returns or whether a send is seen by
//! any particular consumer; callers must state what holds for every
//! outcome.

use crate::event::Event;
use vstd::prelude::*;

verus! {

/// Relies on crossbeam_channel::Sender, the producing end of the channel:
/// declared so handles can appear in verified signatures; opaque inside.
#[verifier::external_type_specification]
#[verifier::external_body]
#[verifier::reject_recursive_types(T)]
pub struct ExSender<T>(crossbeam_channel::Sender<T>);

/// Relies on crossbeam_channel::Receiver, the consuming end of the channel:
/// declared so handles can appear in verified signatures; opaque inside.
#[verifier::external_type_specification]
#[verifier::external_body]
#[verifier::reject_recursive_types(T)]
pub struct ExReceiver<T>(crossbeam_channel::Receiver<T>);

/// Relies on crossbeam_channel::Sender::send: blocks until the channel has
/// room; `false` only when every receiver is gone and the event was
/// dropped.
#[verifier::external_body]
pub(crate) fn send_event(tx: &crossbeam_channel::Sender<Event>, event: Event) -> (delivered:
    bool) {
    match tx.send(event) {
        Ok(()) => true,
        Err(_) => false,
    }
}

/// Relies on crossbeam_channel::Sender::try_send: never blocks; `false`
/// when the channel was full or every receiver is gone, and the event was
/// dropped.
#[verifier::external_body]
pub(crate) fn try_send_event(tx: &crossbeam_channel::Sender<Event>, event: Event) -> (delivered:
    bool) {
    match tx.try_send(event) {
        Ok(()) => true,
        Err(_) => false,
    }
}

/// Relies on crossbeam_channel::Receiver::recv: blocks until one event
/// arrives; `None` only when the channel is empty and every sender is
/// gone.  Which event arrives is arbitrary.
#[verifier::external_body]
pub(crate) fn recv_event(rx: &crossbeam_channel::Receiver<Event>) -> (received: Option<Event>) {
    match rx.recv() {
        Ok(event) => Some(event),
        Err(_) => None,
    }
}

/// Relies on crossbeam_channel::Receiver::try_recv: never blocks; `None`
/// when no event was waiting.  Which event arrives is arbitrary.
#[verifier::external_body]
pub(crate) fn try_recv_event(rx: &crossbeam_channel::Receiver<Event>) -> (received: Option<
    Event,
>) {
    match rx.try_recv() {
        Ok(event) => Some(event),
        Err(_) => None,
    }
}

} // verus!
