//! The unbounded channels on which routed events leave the dispatch loop.

use vstd::prelude::*;
use futures::channel::mpsc::{UnboundedReceiver, UnboundedSender};
use crate::error::{Error, InnerError};

verus! {

/// The sending half of an unbounded channel of the futures crate.
#[verifier::external_type_specification]
#[verifier::external_body]
#[verifier::reject_recursive_types(T)]
pub struct ExUnboundedSender<T>(UnboundedSender<T>);

/// The receiving half of an unbounded channel of the futures crate.
#[verifier::external_type_specification]
#[verifier::external_body]
#[verifier::reject_recursive_types(T)]
pub struct ExUnboundedReceiver<T>(UnboundedReceiver<T>);

/// Which channel of a router an event is routed to.
#[derive(Debug, Clone, Copy, PartialEq, Eq, Structural)]
pub enum Target {
    /// The channel registered under the event's command word or type.
    Registered,
    /// The channel for what matches nothing registered.
    Fallback,
}

/// What became of an event that was handed to a router.
#[derive(Debug, Clone, Copy, PartialEq, Eq, Structural)]
pub enum Delivery {
    /// It was enqueued on the channel that it was routed to.
    Delivered(Target),
    /// It was routed to a channel whose receiving end is gone, and is lost.
    Lost(Target),
    /// It was routed nowhere.
    Dropped,
}

impl Delivery {
    /// What became of an event that the channel `target` was asked to take,
    /// where `accepted` tells whether it did.
    pub fn of_send(target: Target, accepted: bool) -> (delivery: Delivery)
        ensures
            delivery == (if accepted {
                Delivery::Delivered(target)
            } else {
                Delivery::Lost(target)
            }),
    {
        if accepted {
            Delivery::Delivered(target)
        } else {
            Delivery::Lost(target)
        }
    }

    /// The condition to report for this delivery: a lost event is a failure
    /// of its channel, and nothing else is a failure.
    pub open spec fn condition_of(self) -> Option<Error> {
        if self is Lost {
            Some(Error(InnerError::Channel))
        } else {
            None
        }
    }

    /// The condition to report for this delivery.
    pub fn condition(self) -> (raised: Option<Error>)
        ensures
            raised == self.condition_of(),
    {
        match self {
            Delivery::Lost(_) => Some(Error(InnerError::Channel)),
            _ => None,
        }
    }

    /// Whether this is what may become of an event that is routed to
    /// `target`, or to no channel where `target` is `None`: routed nowhere
    /// it is dropped, and routed to a channel it is delivered there or lost
    /// there.
    pub open spec fn follows(self, target: Option<Target>) -> bool {
        match target {
            Some(target) => self == Delivery::Delivered(target) || self == Delivery::Lost(target),
            None => self == Delivery::Dropped,
        }
    }
}

/// Calls `futures::channel::mpsc::unbounded`, which makes a new channel and
/// returns its two halves. Nothing is claimed of them.
#[verifier::external_body]
pub(crate) fn open<T>() -> (halves: (UnboundedSender<T>, UnboundedReceiver<T>)) {
    futures::channel::mpsc::unbounded()
}

/// Calls `UnboundedSender::unbounded_send`, which enqueues `msg` without
/// blocking, and tells whether the channel took it. Nothing is claimed of the
/// answer: it is `false` when the receiving half is gone. The call panics
/// only on a queue that already holds as many messages as its counter can
/// count, which is more than memory holds.
#[verifier::external_body]
pub(crate) fn send<T>(sender: &UnboundedSender<T>, msg: T) -> (accepted: bool) {
    sender.unbounded_send(msg).is_ok()
}

/// Enqueues `msg` without blocking on the sender of the channel that it is
/// routed to, if there is one. Whether the channel took it is for the
/// channel to say.
pub fn forward<T>(route: Option<(&UnboundedSender<T>, Target)>, msg: T) -> (delivery: Delivery)
    ensures
        delivery.follows(
            match route {
                Some(to) => Some(to.1),
                None => None,
            },
        ),
{
    match route {
        Some((sender, target)) => Delivery::of_send(target, send(sender, msg)),
        None => Delivery::Dropped,
    }
}

} // verus!
