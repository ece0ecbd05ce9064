//! The router of the membership events that invites carry.

use vstd::prelude::*;
use futures::channel::mpsc::{UnboundedReceiver, UnboundedSender};
use crate::channel::{forward, open, Delivery, Target};
use crate::error::{Error, InnerError};
use crate::event::{EventType, RoomId, StrippedRoomMember, StrippedState};
use crate::event_handler::{Context, StrippedHandler};
use crate::table::Table;

verus! {

/// What travels on the channel of an event type.
pub type RoutedMember = Result<(Context, RoomId, StrippedRoomMember), Error>;

/// What is enqueued for `event`: the event with its context and its room.
pub fn routed_member(ctx: &Context, room_id: RoomId, event: &StrippedRoomMember) -> (routed:
    RoutedMember)
    ensures
        routed == Ok::<(Context, RoomId, StrippedRoomMember), Error>((*ctx, room_id, *event)),
{
    Ok((ctx.clone(), room_id, event.clone()))
}

/// Routes the membership events of invites by their event type.
#[derive(Debug)]
pub struct RoomMemberEventHandler {
    /// The channel of each event type.
    pub handlers: Table<UnboundedSender<RoutedMember>>,
}

impl RoomMemberEventHandler {
    /// The kind of channel that `event` is routed to: the one registered
    /// for its type, if there is one.
    pub open spec fn target(&self, event: &StrippedRoomMember) -> Option<Target> {
        if self.handlers@.contains_key(event.event_type@) {
            Some(Target::Registered)
        } else {
            None
        }
    }

    /// Whether `answer` is one that `handle_input` may give for `event`: the
    /// event is never refused, and what became of it follows from where it
    /// is routed.
    pub open spec fn answers_member(&self, event: &StrippedRoomMember, answer: Result<
        Delivery,
        Error,
    >) -> bool {
        match answer {
            Ok(delivery) => delivery.follows(self.target(event)),
            Err(_) => false,
        }
    }

    /// A router without channels.
    pub fn new() -> (router: Self)
        ensures
            router.handlers@ == Map::<Seq<char>, UnboundedSender<RoutedMember>>::empty(),
    {
        Self { handlers: Table::new() }
    }

    /// Puts `sender` under the event type `cmd`, in place of a sender that
    /// stood there before.
    pub fn register(&mut self, cmd: EventType, sender: UnboundedSender<RoutedMember>)
        ensures
            final(self).handlers@ == old(self).handlers@.insert(cmd@, sender),
    {
        self.handlers.insert(cmd.0, sender);
    }

    /// Registers the event type `cmd` with the sender of a new channel and
    /// returns the channel's receiving end, which yields the events of that
    /// type. A channel registered for `cmd` before is replaced.
    pub fn add(&mut self, cmd: EventType) -> (receiver: UnboundedReceiver<RoutedMember>)
        ensures
            final(self).handlers@.contains_key(cmd@),
            final(self).handlers@ == old(self).handlers@.insert(cmd@, final(self).handlers@[cmd@]),
    {
        let (sender, receiver) = open();
        self.register(cmd, sender);
        receiver
    }

    /// The sender of the channel registered for the type of `event`.
    pub fn select(&self, event: &StrippedRoomMember) -> (found: Option<
        (&UnboundedSender<RoutedMember>, Target),
    >)
        ensures
            found == (if self.handlers@.contains_key(event.event_type@) {
                Some((&self.handlers@[event.event_type@], Target::Registered))
            } else {
                None
            }),
    {
        match self.handlers.get(&event.event_type.0) {
            Some(sender) => Some((sender, Target::Registered)),
            None => None,
        }
    }

    /// Forwards `event` with its context and room on the channel registered
    /// for its type, without blocking. A channel that does not take it loses
    /// it.
    pub fn handle_input(&self, ctx: &Context, room_id: RoomId, event: &StrippedRoomMember) -> (answer:
        Result<Delivery, Error>)
        ensures
            self.answers_member(event, answer),
    {
        let route = self.select(event);
        Ok(forward(route, routed_member(ctx, room_id, event)))
    }
}

impl StrippedHandler for RoomMemberEventHandler {
    /// A membership event is answered as `handle_input` answers it; any
    /// other event is refused as no match.
    open spec fn answers(
        &self,
        ctx: &Context,
        room_id: RoomId,
        input: &StrippedState,
        answer: Result<Delivery, Error>,
    ) -> bool {
        match input {
            StrippedState::RoomMember(member) => self.answers_member(member, answer),
            StrippedState::Other(_) => answer == Err::<Delivery, Error>(Error(InnerError::Match)),
        }
    }

    fn handle(&self, ctx: &Context, room_id: RoomId, input: &StrippedState) -> (answer: Result<
        Delivery,
        Error,
    >) {
        match input {
            StrippedState::RoomMember(member) => self.handle_input(ctx, room_id, member),
            StrippedState::Other(_) => Err(Error(InnerError::Match)),
        }
    }
}

} // verus!
