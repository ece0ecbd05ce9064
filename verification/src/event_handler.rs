//! The handlers that the dispatch loop calls, and the router of text commands.

use vstd::prelude::*;
use std::sync::Arc;
use futures::channel::mpsc::{UnboundedReceiver, UnboundedSender};
use ruma_client::HttpsClient;
use crate::channel::{forward, open, Delivery, Target};
use crate::client::share;
use crate::command::{first_token, spec_first_token};
use crate::error::{Error, InnerError};
use crate::event::{Event, MessageEvent, MessageEventContent, RoomId, StrippedState};
use crate::table::Table;

pub mod state;

verus! {

/// What a handler is given beside the event: the shared protocol client.
#[derive(Debug)]
pub struct Context {
    /// The protocol client, for a handler that has to ask the homeserver.
    pub client: Arc<HttpsClient>,
}

impl Clone for Context {
    /// A context that shares this one's client.
    fn clone(&self) -> (copy: Context)
        ensures
            copy == *self,
    {
        Context { client: share(&self.client) }
    }
}

/// A handler of the events of a joined room.
pub trait EventHandler: Send + core::fmt::Debug {
    /// Whether `answer` is one that `handle` may give when it is called
    /// with `ctx`, `room_id` and `input`.
    spec fn answers(
        &self,
        ctx: &Context,
        room_id: Option<RoomId>,
        input: &Event,
        answer: Result<Delivery, Error>,
    ) -> bool;

    /// Handles `input`, which came from the room `room_id` where that is given.
    fn handle(&self, ctx: &Context, room_id: Option<RoomId>, input: &Event) -> (answer: Result<
        Delivery,
        Error,
    >)
        ensures
            self.answers(ctx, room_id, input, answer),
    ;
}

/// A handler of the stripped state events of an invite.
pub trait StrippedHandler: Send + core::fmt::Debug {
    /// Whether `answer` is one that `handle` may give when it is called
    /// with `ctx`, `room_id` and `input`.
    spec fn answers(
        &self,
        ctx: &Context,
        room_id: RoomId,
        input: &StrippedState,
        answer: Result<Delivery, Error>,
    ) -> bool;

    /// Handles `input`, which came with the invite to the room `room_id`.
    fn handle(&self, ctx: &Context, room_id: RoomId, input: &StrippedState) -> (answer: Result<
        Delivery,
        Error,
    >)
        ensures
            self.answers(ctx, room_id, input, answer),
    ;
}

/// What travels on the channel of a command.
pub type RoutedMessage = Result<(Context, Option<RoomId>, MessageEvent), Error>;

/// What is enqueued for `event`: the event with its context and its room.
pub fn routed_message(ctx: &Context, room_id: Option<RoomId>, event: &MessageEvent) -> (routed:
    RoutedMessage)
    ensures
        routed == Ok::<(Context, Option<RoomId>, MessageEvent), Error>((*ctx, room_id, *event)),
{
    Ok((ctx.clone(), room_id, event.clone()))
}

/// Where the command router sends a message.
pub enum Route {
    /// To the channel of this command.
    Command(Seq<char>),
    /// To the channel for messages that match no command.
    Fallback,
    /// To no channel.
    Nowhere,
}

impl Route {
    /// The kind of channel that the route leads to.
    pub open spec fn target(self) -> Option<Target> {
        match self {
            Route::Command(_) => Some(Target::Registered),
            Route::Fallback => Some(Target::Fallback),
            Route::Nowhere => None,
        }
    }
}

/// Where a message with `content` goes, given the registered `commands` and
/// whether a fallback is registered. Only plain text is routed: to the
/// command that is its first word, else to the fallback.
pub open spec fn route_of(commands: Set<Seq<char>>, fallback: bool, content: MessageEventContent)
    -> Route {
    match content {
        MessageEventContent::Text(text) => {
            let word = spec_first_token(text.body@);
            if word is Some && commands.contains(word->Some_0) {
                Route::Command(word->Some_0)
            } else if fallback {
                Route::Fallback
            } else {
                Route::Nowhere
            }
        },
        MessageEventContent::Other(_) => Route::Nowhere,
    }
}

/// A text message whose first word is a registered command goes to that
/// command's channel, and so neither to another command's nor to the
/// fallback.
pub proof fn lemma_command_is_exclusive(
    commands: Set<Seq<char>>,
    fallback: bool,
    content: MessageEventContent,
    matched: Seq<char>,
    other: Seq<char>,
)
    requires
        commands.contains(matched),
        commands.contains(other),
        matched != other,
        content matches MessageEventContent::Text(text) && spec_first_token(text.body@) == Some(
            matched,
        ),
    ensures
        route_of(commands, fallback, content) == Route::Command(matched),
        route_of(commands, fallback, content) != Route::Command(other),
        route_of(commands, fallback, content) != Route::Fallback,
        route_of(commands, fallback, content).target() == Some(Target::Registered),
{
}

/// A text message that matches no registered command goes to the fallback
/// if and only if one is registered, and to no channel otherwise.
pub proof fn lemma_unmatched_goes_to_fallback(
    commands: Set<Seq<char>>,
    fallback: bool,
    content: MessageEventContent,
)
    requires
        content matches MessageEventContent::Text(text) && (spec_first_token(text.body@) matches Some(
            word,
        ) ==> !commands.contains(word)),
    ensures
        route_of(commands, fallback, content) == Route::Fallback <==> fallback,
        !fallback ==> route_of(commands, fallback, content) == Route::Nowhere,
        !(route_of(commands, fallback, content) is Command),
        route_of(commands, fallback, content).target() == (if fallback {
            Some(Target::Fallback)
        } else {
            None
        }),
{
}

/// Routes the text messages of a room by their command word.
#[derive(Debug, Clone)]
pub struct RoomMessageEventHandler {
    /// The channel of each command.
    pub handlers: Table<UnboundedSender<RoutedMessage>>,
    /// The channel for messages that match no command.
    pub unknown_handler: Option<UnboundedSender<RoutedMessage>>,
}

impl RoomMessageEventHandler {
    /// Where this router sends `event`.
    pub open spec fn route(&self, event: &MessageEvent) -> Route {
        route_of(self.handlers@.dom(), self.unknown_handler is Some, event.content)
    }

    /// Whether `answer` is one that `handle_input` may give for `event`: the
    /// event is never refused, and what became of it follows from where it
    /// is routed.
    pub open spec fn answers_message(&self, event: &MessageEvent, answer: Result<Delivery, Error>)
        -> bool {
        match answer {
            Ok(delivery) => delivery.follows(self.route(event).target()),
            Err(_) => false,
        }
    }

    /// A router without commands and without a fallback.
    pub fn new() -> (router: Self)
        ensures
            router.handlers@ == Map::<Seq<char>, UnboundedSender<RoutedMessage>>::empty(),
            router.unknown_handler is None,
    {
        Self { handlers: Table::new(), unknown_handler: None }
    }

    /// Puts `sender` under the command `cmd`, in place of a sender that
    /// stood there before.
    pub fn register(&mut self, cmd: &str, sender: UnboundedSender<RoutedMessage>)
        ensures
            final(self).handlers@ == old(self).handlers@.insert(cmd@, sender),
            final(self).unknown_handler == old(self).unknown_handler,
    {
        self.handlers.insert(cmd.to_string(), sender);
    }

    /// Makes `sender` the fallback, in place of an earlier one.
    pub fn register_unknown(&mut self, sender: UnboundedSender<RoutedMessage>)
        ensures
            final(self).unknown_handler == Some(sender),
            final(self).handlers == old(self).handlers,
    {
        self.unknown_handler = Some(sender);
    }

    /// Registers the command `cmd` with the sender of a new channel and
    /// returns the channel's receiving end, which yields the messages whose
    /// first word is `cmd`. A channel registered for `cmd` before is
    /// replaced.
    pub fn new_cmd(&mut self, cmd: &str) -> (receiver: UnboundedReceiver<RoutedMessage>)
        ensures
            final(self).handlers@.contains_key(cmd@),
            final(self).handlers@ == old(self).handlers@.insert(cmd@, final(self).handlers@[cmd@]),
            final(self).unknown_handler == old(self).unknown_handler,
    {
        let (sender, receiver) = open();
        self.register(cmd, sender);
        receiver
    }

    /// Registers the sender of a new channel as the fallback and returns the
    /// channel's receiving end, which yields the text messages that match no
    /// command. A fallback registered before is replaced.
    pub fn unknown_cmd(&mut self) -> (receiver: UnboundedReceiver<RoutedMessage>)
        ensures
            final(self).unknown_handler is Some,
            final(self).handlers == old(self).handlers,
    {
        let (sender, receiver) = open();
        self.register_unknown(sender);
        receiver
    }

    /// The sender of the channel that `event` is routed to, with the kind of
    /// that channel.
    pub fn select(&self, event: &MessageEvent) -> (found: Option<
        (&UnboundedSender<RoutedMessage>, Target),
    >)
        ensures
            match self.route(event) {
                Route::Command(word) => found == Some((&self.handlers@[word], Target::Registered)),
                Route::Fallback => self.unknown_handler is Some && found == Some(
                    (&self.unknown_handler->Some_0, Target::Fallback),
                ),
                Route::Nowhere => found is None,
            },
    {
        match &event.content {
            MessageEventContent::Text(text) => {
                let word = first_token(text.body.as_str());
                let registered = match &word {
                    Some(word) => self.handlers.get(word),
                    None => None,
                };
                match registered {
                    Some(sender) => Some((sender, Target::Registered)),
                    None => match &self.unknown_handler {
                        Some(sender) => Some((sender, Target::Fallback)),
                        None => None,
                    },
                }
            },
            MessageEventContent::Other(_) => None,
        }
    }

    /// Forwards `event`, with its context and room, on the channel that it
    /// is routed to, without blocking. A channel that does not take it loses
    /// it.
    pub fn handle_input(&self, ctx: &Context, room_id: Option<RoomId>, event: &MessageEvent) -> (answer:
        Result<Delivery, Error>)
        ensures
            self.answers_message(event, answer),
    {
        let route = self.select(event);
        Ok(forward(route, routed_message(ctx, room_id, event)))
    }
}

impl EventHandler for RoomMessageEventHandler {
    /// A room message is answered as `handle_input` answers it; any other
    /// event is refused as no match.
    open spec fn answers(
        &self,
        ctx: &Context,
        room_id: Option<RoomId>,
        input: &Event,
        answer: Result<Delivery, Error>,
    ) -> bool {
        match input {
            Event::RoomMessage(message) => self.answers_message(message, answer),
            Event::Other(_) => answer == Err::<Delivery, Error>(Error(InnerError::Match)),
        }
    }

    fn handle(&self, ctx: &Context, room_id: Option<RoomId>, input: &Event) -> (answer: Result<
        Delivery,
        Error,
    >) {
        match input {
            Event::RoomMessage(message) => self.handle_input(ctx, room_id, message),
            Event::Other(_) => Err(Error(InnerError::Match)),
        }
    }
}

} // verus!
