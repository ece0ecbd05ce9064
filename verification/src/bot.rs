//! The dispatch loop's registries, and the dispatch of one sync response.

use vstd::prelude::*;
use std::sync::Arc;
use ruma_client::HttpsClient;
use crate::channel::{Delivery, Target};
use crate::client::{share, Session};
use crate::error::{Error, InnerError};
use crate::event::{Event, EventType, RoomId, StrippedState};
use crate::event_handler::{Context, EventHandler, StrippedHandler};
use crate::table::Table;

verus! {

/// What a bot is made from.
pub struct BotConfig<'a> {
    /// The address of the homeserver.
    pub homeserver_url: &'a str,
    /// The session to go on with, if there is one.
    pub session: Option<Session>,
    /// The batch token of the last sync response, once there was one.
    pub batch_id: Option<String>,
}

impl<'a> BotConfig<'a> {
    /// The configuration of a bot that has not synced yet.
    pub fn new(homeserver_url: &'a str, session: Option<Session>) -> (config: Self)
        ensures
            config.homeserver_url == homeserver_url,
            config.session == session,
            config.batch_id is None,
    {
        BotConfig { homeserver_url, session, batch_id: None }
    }
}

/// The events that came with the invite to one room. An event that could
/// not be decoded is `None`.
#[derive(Debug, PartialEq, Eq)]
pub struct InvitedRoom {
    pub room_id: RoomId,
    pub events: Vec<Option<StrippedState>>,
}

/// The events of one room that the account has joined or has left. An event
/// that could not be decoded is `None`.
#[derive(Debug, PartialEq, Eq)]
pub struct Room {
    pub room_id: RoomId,
    pub state: Vec<Option<Event>>,
    pub timeline: Vec<Option<Event>>,
}

/// One sync response: the rooms with news, by the account's membership.
#[derive(Debug, PartialEq, Eq)]
pub struct SyncResponse {
    /// The batch token to ask the next response with.
    pub next_batch: String,
    pub invite: Vec<InvitedRoom>,
    pub join: Vec<Room>,
    pub leave: Vec<Room>,
}

/// What the dispatch loop did with one event.
#[derive(Debug, PartialEq, Eq)]
pub enum Outcome {
    /// The event could not be decoded and was passed over.
    Skipped,
    /// No handler is registered for the event's type.
    Unhandled,
    /// The handler registered for the event's type was called and gave this answer.
    Handled(Result<Delivery, Error>),
}

/// What the dispatch loop did with one sync response: for each invite its
/// events' outcomes, and for each joined room those of its timeline. The
/// state of joined rooms and the events of left rooms are passed over.
#[derive(Debug, PartialEq, Eq)]
pub struct Report {
    pub invite: Vec<Vec<Outcome>>,
    pub join: Vec<Vec<Outcome>>,
}

/// Whether `outcome` is a possible outcome of a timeline event under the
/// registry `handlers`: an undecoded event is skipped, one without a handler
/// for its type is unhandled, and any other is answered by that handler,
/// called with `ctx`, no room and the event.
pub open spec fn timeline_outcome<H: EventHandler>(
    handlers: Map<Seq<char>, H>,
    ctx: Context,
    event: Option<Event>,
    outcome: Outcome,
) -> bool {
    match event {
        None => outcome is Skipped,
        Some(event) => if handlers.contains_key(event.kind()) {
            outcome matches Outcome::Handled(answer) && handlers[event.kind()].answers(
                &ctx,
                None,
                &event,
                answer,
            )
        } else {
            outcome is Unhandled
        },
    }
}

/// Whether `outcome` is a possible outcome of an event of the invite to
/// `room_id` under the registry `handlers`: an undecoded event is skipped,
/// one without a handler for its type is unhandled, and any other is
/// answered by that handler, called with `ctx`, the room and the event.
pub open spec fn invite_outcome<S: StrippedHandler>(
    handlers: Map<Seq<char>, S>,
    ctx: Context,
    room_id: RoomId,
    event: Option<StrippedState>,
    outcome: Outcome,
) -> bool {
    match event {
        None => outcome is Skipped,
        Some(event) => if handlers.contains_key(event.kind()) {
            outcome matches Outcome::Handled(answer) && handlers[event.kind()].answers(
                &ctx,
                room_id,
                &event,
                answer,
            )
        } else {
            outcome is Unhandled
        },
    }
}

/// Whether `outcomes` holds, in order, a possible outcome of each event of
/// `events`.
pub open spec fn timeline_outcomes<H: EventHandler>(
    handlers: Map<Seq<char>, H>,
    ctx: Context,
    events: Seq<Option<Event>>,
    outcomes: Seq<Outcome>,
) -> bool {
    &&& outcomes.len() == events.len()
    &&& forall|i: int|
        0 <= i < events.len() ==> timeline_outcome(handlers, ctx, events[i], #[trigger] outcomes[i])
}

/// Whether `outcomes` holds, in order, a possible outcome of each event of
/// `events`.
pub open spec fn invite_outcomes<S: StrippedHandler>(
    handlers: Map<Seq<char>, S>,
    ctx: Context,
    room_id: RoomId,
    events: Seq<Option<StrippedState>>,
    outcomes: Seq<Outcome>,
) -> bool {
    &&& outcomes.len() == events.len()
    &&& forall|i: int|
        0 <= i < events.len() ==> invite_outcome(
            handlers,
            ctx,
            room_id,
            events[i],
            #[trigger] outcomes[i],
        )
}

/// Whether `report` is a possible report of the dispatch of `response`
/// under the two registries, with handlers called with `ctx`: every event of
/// every invite and of every joined room's timeline has its outcome,
/// whatever became of the others.
pub open spec fn reports<H: EventHandler, S: StrippedHandler>(
    event_handlers: Map<Seq<char>, H>,
    stripped_handlers: Map<Seq<char>, S>,
    ctx: Context,
    response: SyncResponse,
    report: Report,
) -> bool {
    &&& report.invite@.len() == response.invite@.len()
    &&& forall|r: int|
        0 <= r < response.invite@.len() ==> invite_outcomes(
            stripped_handlers,
            ctx,
            response.invite@[r].room_id,
            response.invite@[r].events@,
            (#[trigger] report.invite@[r])@,
        )
    &&& report.join@.len() == response.join@.len()
    &&& forall|r: int|
        0 <= r < response.join@.len() ==> timeline_outcomes(
            event_handlers,
            ctx,
            response.join@[r].timeline@,
            (#[trigger] report.join@[r])@,
        )
}

/// A handler registered under a type that has one takes its place: the
/// registry is as if the earlier handler had never been registered, and an
/// event of that type is answered by the later handler.
pub proof fn lemma_registration_replaces<H: EventHandler>(
    handlers: Map<Seq<char>, H>,
    ty: Seq<char>,
    earlier: H,
    later: H,
    ctx: Context,
    event: Event,
    outcome: Outcome,
)
    requires
        event.kind() == ty,
    ensures
        handlers.insert(ty, earlier).insert(ty, later) == handlers.insert(ty, later),
        timeline_outcome(handlers.insert(ty, earlier).insert(ty, later), ctx, Some(event), outcome)
            <==> (outcome matches Outcome::Handled(answer) && later.answers(
            &ctx,
            None,
            &event,
            answer,
        )),
{
    assert(handlers.insert(ty, earlier).insert(ty, later) =~= handlers.insert(ty, later));
}

/// Handlers registered under two different types make the same registry in
/// either order, so every event has the same possible outcomes.
pub proof fn lemma_registration_order<H: EventHandler>(
    handlers: Map<Seq<char>, H>,
    a: Seq<char>,
    for_a: H,
    b: Seq<char>,
    for_b: H,
    ctx: Context,
    event: Option<Event>,
    outcome: Outcome,
)
    requires
        a != b,
    ensures
        handlers.insert(a, for_a).insert(b, for_b) == handlers.insert(b, for_b).insert(a, for_a),
        timeline_outcome(handlers.insert(a, for_a).insert(b, for_b), ctx, event, outcome)
            == timeline_outcome(handlers.insert(b, for_b).insert(a, for_a), ctx, event, outcome),
{
    assert(handlers.insert(a, for_a).insert(b, for_b) =~= handlers.insert(b, for_b).insert(
        a,
        for_a,
    ));
}

/// A stripped handler registered under a type that has one takes its place,
/// as `lemma_registration_replaces` says it of the handlers of timeline
/// events.
pub proof fn lemma_stripped_registration_replaces<S: StrippedHandler>(
    handlers: Map<Seq<char>, S>,
    ty: Seq<char>,
    earlier: S,
    later: S,
    ctx: Context,
    room_id: RoomId,
    event: StrippedState,
    outcome: Outcome,
)
    requires
        event.kind() == ty,
    ensures
        handlers.insert(ty, earlier).insert(ty, later) == handlers.insert(ty, later),
        invite_outcome(
            handlers.insert(ty, earlier).insert(ty, later),
            ctx,
            room_id,
            Some(event),
            outcome,
        ) <==> (outcome matches Outcome::Handled(answer) && later.answers(
            &ctx,
            room_id,
            &event,
            answer,
        )),
{
    assert(handlers.insert(ty, earlier).insert(ty, later) =~= handlers.insert(ty, later));
}

/// Stripped handlers registered under two different types make the same
/// registry in either order, so every event of an invite has the same
/// possible outcomes.
pub proof fn lemma_stripped_registration_order<S: StrippedHandler>(
    handlers: Map<Seq<char>, S>,
    a: Seq<char>,
    for_a: S,
    b: Seq<char>,
    for_b: S,
    ctx: Context,
    room_id: RoomId,
    event: Option<StrippedState>,
    outcome: Outcome,
)
    requires
        a != b,
    ensures
        handlers.insert(a, for_a).insert(b, for_b) == handlers.insert(b, for_b).insert(a, for_a),
        invite_outcome(handlers.insert(a, for_a).insert(b, for_b), ctx, room_id, event, outcome)
            == invite_outcome(
            handlers.insert(b, for_b).insert(a, for_a),
            ctx,
            room_id,
            event,
            outcome,
        ),
{
    assert(handlers.insert(a, for_a).insert(b, for_b) =~= handlers.insert(b, for_b).insert(
        a,
        for_a,
    ));
}

/// An event that is lost because its channel's receiver is gone was handed
/// to the handler registered for its type, and every other event of the
/// batch still has the outcome that it has by itself.
pub proof fn lemma_lost_event_is_contained<H: EventHandler>(
    handlers: Map<Seq<char>, H>,
    ctx: Context,
    events: Seq<Option<Event>>,
    outcomes: Seq<Outcome>,
    lost: int,
    target: Target,
)
    requires
        timeline_outcomes(handlers, ctx, events, outcomes),
        0 <= lost < events.len(),
        outcomes[lost] == Outcome::Handled(Ok(Delivery::Lost(target))),
    ensures
        outcomes.len() == events.len(),
        events[lost] matches Some(event) && handlers.contains_key(event.kind())
            && handlers[event.kind()].answers(&ctx, None, &event, Ok(Delivery::Lost(target))),
        Delivery::Lost(target).condition_of() == Some(Error(InnerError::Channel)),
        forall|i: int|
            0 <= i < events.len() && i != lost ==> timeline_outcome(
                handlers,
                ctx,
                events[i],
                #[trigger] outcomes[i],
            ),
{
    assert(timeline_outcome(handlers, ctx, events[lost], outcomes[lost]));
}

/// The dispatch loop: the protocol client and the handlers registered for
/// the events of joined rooms (`H`) and of invites (`S`).
pub struct Bot<'a, H, S> {
    /// The protocol client, shared with every handler.
    pub client: Arc<HttpsClient>,
    pub config: BotConfig<'a>,
    /// The handler of each type of timeline event.
    pub event_handlers: Table<H>,
    /// The handler of each type of stripped state event.
    pub stripped_handlers: Table<S>,
}

impl<'a, H: EventHandler, S: StrippedHandler> Bot<'a, H, S> {
    /// A bot without handlers, which talks to the homeserver of `config`
    /// through `client`.
    pub fn new(config: BotConfig<'a>, client: Arc<HttpsClient>) -> (bot: Self)
        ensures
            bot.client == client,
            bot.config == config,
            bot.event_handlers@ == Map::<Seq<char>, H>::empty(),
            bot.stripped_handlers@ == Map::<Seq<char>, S>::empty(),
    {
        Bot { client, config, event_handlers: Table::new(), stripped_handlers: Table::new() }
    }

    /// Registers `handler` for the timeline events of type `event_type`, in
    /// place of a handler registered for that type before.
    pub fn with_handler(&mut self, event_type: EventType, handler: H)
        ensures
            final(self).event_handlers@ == old(self).event_handlers@.insert(event_type@, handler),
            final(self).stripped_handlers == old(self).stripped_handlers,
            final(self).client == old(self).client,
            final(self).config == old(self).config,
    {
        self.event_handlers.insert(event_type.0, handler);
    }

    /// Registers `handler` for the stripped state events whose type is named
    /// `state_type`, in place of a handler registered for that type before.
    pub fn with_stripped_handler(&mut self, state_type: String, handler: S)
        ensures
            final(self).stripped_handlers@ == old(self).stripped_handlers@.insert(
                state_type@,
                handler,
            ),
            final(self).event_handlers == old(self).event_handlers,
            final(self).client == old(self).client,
            final(self).config == old(self).config,
    {
        self.stripped_handlers.insert(state_type, handler);
    }

    /// The context that handlers are called with: it shares the bot's client.
    pub open spec fn spec_context(&self) -> Context {
        Context { client: self.client }
    }

    /// The context that handlers are called with.
    pub fn context(&self) -> (ctx: Context)
        ensures
            ctx == self.spec_context(),
    {
        Context { client: share(&self.client) }
    }

    /// Hands one event of the invite to `room_id` to the handler registered
    /// for its type.
    pub fn dispatch_stripped(&self, ctx: &Context, room_id: &RoomId, event: &Option<StrippedState>)
        -> (outcome: Outcome)
        ensures
            invite_outcome(self.stripped_handlers@, *ctx, *room_id, *event, outcome),
    {
        match event {
            None => Outcome::Skipped,
            Some(state) => {
                let ty = state.event_type();
                match self.stripped_handlers.get(&ty.0) {
                    Some(handler) => Outcome::Handled(handler.handle(ctx, room_id.clone(), state)),
                    None => Outcome::Unhandled,
                }
            },
        }
    }

    /// Hands one timeline event of a joined room to the handler registered
    /// for its type.
    pub fn dispatch_event(&self, ctx: &Context, event: &Option<Event>) -> (outcome: Outcome)
        ensures
            timeline_outcome(self.event_handlers@, *ctx, *event, outcome),
    {
        match event {
            None => Outcome::Skipped,
            Some(event) => {
                let ty = event.event_type();
                match self.event_handlers.get(&ty.0) {
                    Some(handler) => Outcome::Handled(handler.handle(ctx, None, event)),
                    None => Outcome::Unhandled,
                }
            },
        }
    }

    /// Dispatches the events of one invite, in order. No outcome stops the
    /// events after it from being dispatched.
    pub fn dispatch_invite(&self, ctx: &Context, room_id: &RoomId, events: &Vec<
        Option<StrippedState>,
    >) -> (outcomes: Vec<Outcome>)
        ensures
            invite_outcomes(self.stripped_handlers@, *ctx, *room_id, events@, outcomes@),
    {
        let mut outcomes: Vec<Outcome> = Vec::new();
        let mut i: usize = 0;
        while i < events.len()
            invariant
                i <= events@.len(),
                outcomes@.len() == i,
                forall|j: int|
                    0 <= j < i ==> invite_outcome(
                        self.stripped_handlers@,
                        *ctx,
                        *room_id,
                        events@[j],
                        #[trigger] outcomes@[j],
                    ),
            decreases events@.len() - i,
        {
            let outcome = self.dispatch_stripped(ctx, room_id, &events[i]);
            outcomes.push(outcome);
            i += 1;
        }
        outcomes
    }

    /// Dispatches the timeline of one joined room, in order. No outcome
    /// stops the events after it from being dispatched.
    pub fn dispatch_timeline(&self, ctx: &Context, events: &Vec<Option<Event>>) -> (outcomes: Vec<
        Outcome,
    >)
        ensures
            timeline_outcomes(self.event_handlers@, *ctx, events@, outcomes@),
    {
        let mut outcomes: Vec<Outcome> = Vec::new();
        let mut i: usize = 0;
        while i < events.len()
            invariant
                i <= events@.len(),
                outcomes@.len() == i,
                forall|j: int|
                    0 <= j < i ==> timeline_outcome(
                        self.event_handlers@,
                        *ctx,
                        events@[j],
                        #[trigger] outcomes@[j],
                    ),
            decreases events@.len() - i,
        {
            let outcome = self.dispatch_event(ctx, &events[i]);
            outcomes.push(outcome);
            i += 1;
        }
        outcomes
    }

    /// Dispatches one sync response: the events of each invite, then the
    /// timeline of each joined room. The state of joined rooms and the
    /// events of left rooms reach no handler.
    pub fn dispatch(&self, response: &SyncResponse) -> (report: Report)
        ensures
            reports(
                self.event_handlers@,
                self.stripped_handlers@,
                self.spec_context(),
                *response,
                report,
            ),
    {
        let ctx = self.context();
        let mut invite: Vec<Vec<Outcome>> = Vec::new();
        let mut r: usize = 0;
        while r < response.invite.len()
            invariant
                r <= response.invite@.len(),
                invite@.len() == r,
                forall|k: int|
                    0 <= k < r ==> invite_outcomes(
                        self.stripped_handlers@,
                        ctx,
                        response.invite@[k].room_id,
                        response.invite@[k].events@,
                        (#[trigger] invite@[k])@,
                    ),
            decreases response.invite@.len() - r,
        {
            let room = &response.invite[r];
            let outcomes = self.dispatch_invite(&ctx, &room.room_id, &room.events);
            invite.push(outcomes);
            r += 1;
        }
        let mut join: Vec<Vec<Outcome>> = Vec::new();
        let mut q: usize = 0;
        while q < response.join.len()
            invariant
                q <= response.join@.len(),
                join@.len() == q,
                forall|k: int|
                    0 <= k < q ==> timeline_outcomes(
                        self.event_handlers@,
                        ctx,
                        response.join@[k].timeline@,
                        (#[trigger] join@[k])@,
                    ),
            decreases response.join@.len() - q,
        {
            let outcomes = self.dispatch_timeline(&ctx, &response.join[q].timeline);
            join.push(outcomes);
            q += 1;
        }
        Report { invite, join }
    }

    /// One cycle of the loop on a sync response that the protocol client
    /// returned: dispatches its events and moves the cursor to its batch
    /// token. The registries stay as they are.
    pub fn process_updates(&mut self, response: &SyncResponse) -> (report: Report)
        ensures
            reports(
                old(self).event_handlers@,
                old(self).stripped_handlers@,
                old(self).spec_context(),
                *response,
                report,
            ),
            final(self).config.batch_id == Some(response.next_batch),
            final(self).config.homeserver_url == old(self).config.homeserver_url,
            final(self).config.session == old(self).config.session,
            final(self).event_handlers == old(self).event_handlers,
            final(self).stripped_handlers == old(self).stripped_handlers,
            final(self).client == old(self).client,
    {
        let report = self.dispatch(response);
        self.config.batch_id = Some(response.next_batch.clone());
        report
    }
}

} // verus!
