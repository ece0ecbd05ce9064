use std::sync::Arc;

use futures::channel::mpsc::UnboundedReceiver;
use matrix_bot::bot::{InvitedRoom, Outcome, Report, Room, SyncResponse};
use matrix_bot::channel::{Delivery, Target};
use matrix_bot::client::Session;
use matrix_bot::error::{Error, InnerError};
use matrix_bot::event::{
    Event, EventType, MessageEvent, MessageEventContent, RoomId, StrippedRoomMember,
    StrippedState, TextMessageEventContent,
};
use matrix_bot::event_handler::state::{RoomMemberEventHandler, RoutedMember};
use matrix_bot::event_handler::{RoomMessageEventHandler, RoutedMessage};
use matrix_bot::{Bot, BotConfig};

type TestBot<'a> = Bot<'a, RoomMessageEventHandler, RoomMemberEventHandler>;

fn client() -> Arc<ruma_client::HttpsClient> {
    let homeserver = url::Url::parse("https://matrix.org/").unwrap();
    Arc::new(ruma_client::Client::https(homeserver, None))
}

fn bot<'a>() -> TestBot<'a> {
    Bot::new(BotConfig::new("https://matrix.org/", None), client())
}

fn message(body: &str) -> Option<Event> {
    Some(Event::RoomMessage(MessageEvent {
        content: MessageEventContent::Text(TextMessageEventContent { body: body.to_string() }),
        event_id: "$1:matrix.org".to_string(),
        sender: "@alice:matrix.org".to_string(),
    }))
}

fn member(user: &str) -> StrippedRoomMember {
    StrippedRoomMember {
        event_type: EventType::room_member(),
        sender: "@alice:matrix.org".to_string(),
        state_key: user.to_string(),
    }
}

fn joined(room: &str, timeline: Vec<Option<Event>>) -> Room {
    Room { room_id: RoomId(room.to_string()), state: Vec::new(), timeline }
}

fn response(invite: Vec<InvitedRoom>, join: Vec<Room>, leave: Vec<Room>) -> SyncResponse {
    SyncResponse { next_batch: "s72595_4483_1934".to_string(), invite, join, leave }
}

fn bodies(rx: &mut UnboundedReceiver<RoutedMessage>) -> Vec<String> {
    let mut found = Vec::new();
    while let Ok(routed) = rx.try_recv() {
        match routed {
            Ok((_, _, MessageEvent { content: MessageEventContent::Text(t), .. })) => {
                found.push(t.body)
            }
            _ => panic!("not a text message"),
        }
    }
    found
}

fn members(rx: &mut UnboundedReceiver<RoutedMember>) -> Vec<(RoomId, StrippedRoomMember)> {
    let mut found = Vec::new();
    while let Ok(routed) = rx.try_recv() {
        match routed {
            Ok((_, room, event)) => found.push((room, event)),
            Err(e) => panic!("{}", e.message()),
        }
    }
    found
}

#[test]
fn new_bot_takes_over_its_configuration() {
    let session = Session {
        access_token: "token".to_string(),
        user_id: "@bot:matrix.org".to_string(),
        device_id: "DEVICE".to_string(),
    };
    let config = BotConfig::new("https://matrix.org/", Some(session.clone()));
    assert_eq!(config.homeserver_url, "https://matrix.org/");
    assert_eq!(config.batch_id, None);
    let shared = client();
    let bot: TestBot = Bot::new(config, shared.clone());
    assert!(Arc::ptr_eq(&bot.client, &shared));
    assert_eq!(bot.config.homeserver_url, "https://matrix.org/");
    assert_eq!(bot.config.session, Some(session));
    assert_eq!(bot.config.batch_id, None);
    let ctx = bot.context();
    assert!(Arc::ptr_eq(&ctx.client, &shared));
}

#[test]
fn timeline_message_reaches_its_command() {
    let mut router = RoomMessageEventHandler::new();
    let mut cal = router.new_cmd("!cal");
    let mut bot = bot();
    bot.with_handler(EventType::room_message(), router);

    let batch = response(
        Vec::new(),
        vec![joined("!a:matrix.org", vec![message("!cal new event"), message("!other hi")])],
        Vec::new(),
    );
    let report = bot.dispatch(&batch);
    assert_eq!(
        report,
        Report {
            invite: Vec::new(),
            join: vec![vec![
                Outcome::Handled(Ok(Delivery::Delivered(Target::Registered))),
                Outcome::Handled(Ok(Delivery::Dropped)),
            ]],
        }
    );
    assert_eq!(bodies(&mut cal), vec!["!cal new event".to_string()]);
}

#[test]
fn invite_with_membership_and_other_event_delivers_once() {
    let mut router = RoomMemberEventHandler::new();
    let mut invites = router.add(EventType::room_member());
    let mut bot = bot();
    bot.with_stripped_handler("m.room.member".to_string(), router);

    let batch = response(
        vec![InvitedRoom {
            room_id: RoomId("!inv:matrix.org".to_string()),
            events: vec![
                Some(StrippedState::RoomMember(member("@bot:matrix.org"))),
                Some(StrippedState::Other(EventType("m.room.name".to_string()))),
            ],
        }],
        Vec::new(),
        Vec::new(),
    );
    let report = bot.dispatch(&batch);
    assert_eq!(
        report.invite,
        vec![vec![Outcome::Handled(Ok(Delivery::Delivered(Target::Registered))), Outcome::Unhandled]]
    );
    assert_eq!(
        members(&mut invites),
        vec![(RoomId("!inv:matrix.org".to_string()), member("@bot:matrix.org"))]
    );
}

#[test]
fn stripped_router_refuses_what_is_no_membership_event() {
    let mut router = RoomMemberEventHandler::new();
    let mut invites = router.add(EventType::room_member());
    let mut bot = bot();
    bot.with_stripped_handler("m.room.name".to_string(), router);

    let batch = response(
        vec![InvitedRoom {
            room_id: RoomId("!inv:matrix.org".to_string()),
            events: vec![
                Some(StrippedState::Other(EventType("m.room.name".to_string()))),
                Some(StrippedState::RoomMember(member("@bot:matrix.org"))),
                None,
            ],
        }],
        Vec::new(),
        Vec::new(),
    );
    let report = bot.dispatch(&batch);
    assert_eq!(
        report.invite,
        vec![vec![
            Outcome::Handled(Err(Error(InnerError::Match))),
            Outcome::Unhandled,
            Outcome::Skipped,
        ]]
    );
    assert!(members(&mut invites).is_empty());
}

#[test]
fn stripped_router_without_channel_for_the_type_drops() {
    let router = RoomMemberEventHandler::new();
    let mut bot = bot();
    bot.with_stripped_handler("m.room.member".to_string(), router);
    let ctx = bot.context();
    let outcome = bot.dispatch_stripped(
        &ctx,
        &RoomId("!inv:matrix.org".to_string()),
        &Some(StrippedState::RoomMember(member("@bot:matrix.org"))),
    );
    assert_eq!(outcome, Outcome::Handled(Ok(Delivery::Dropped)));
}

#[test]
fn later_handler_replaces_the_earlier() {
    let mut earlier = RoomMessageEventHandler::new();
    let mut to_earlier = earlier.unknown_cmd();
    let mut later = RoomMessageEventHandler::new();
    let mut to_later = later.unknown_cmd();
    let mut bot = bot();
    bot.with_handler(EventType::room_message(), earlier);
    bot.with_handler(EventType::room_message(), later);

    let batch = response(Vec::new(), vec![joined("!a:matrix.org", vec![message("hi")])], Vec::new());
    let report = bot.dispatch(&batch);
    assert_eq!(report.join, vec![vec![Outcome::Handled(Ok(Delivery::Delivered(Target::Fallback)))]]);
    assert_eq!(bodies(&mut to_later), vec!["hi".to_string()]);
    assert!(bodies(&mut to_earlier).is_empty());
}

#[test]
fn dropped_receiver_does_not_stop_the_batch() {
    let mut router = RoomMessageEventHandler::new();
    let mut one = router.new_cmd("!one");
    let two = router.new_cmd("!two");
    let mut three = router.new_cmd("!three");
    drop(two);
    let mut bot = bot();
    bot.with_handler(EventType::room_message(), router);

    let batch = response(
        Vec::new(),
        vec![
            joined("!a:matrix.org", vec![message("!one 1"), message("!two 2")]),
            joined("!b:matrix.org", vec![message("!three 3"), message("!one 4")]),
        ],
        Vec::new(),
    );
    let report = bot.dispatch(&batch);
    assert_eq!(
        report.join,
        vec![
            vec![Outcome::Handled(Ok(Delivery::Delivered(Target::Registered))), Outcome::Handled(Ok(Delivery::Lost(Target::Registered)))],
            vec![
                Outcome::Handled(Ok(Delivery::Delivered(Target::Registered))),
                Outcome::Handled(Ok(Delivery::Delivered(Target::Registered))),
            ],
        ]
    );
    assert_eq!(bodies(&mut one), vec!["!one 1".to_string(), "!one 4".to_string()]);
    assert_eq!(bodies(&mut three), vec!["!three 3".to_string()]);
}

fn run_both_types(message_first: bool) -> (Report, Vec<String>, Vec<String>) {
    let mut for_messages = RoomMessageEventHandler::new();
    let mut messages = for_messages.unknown_cmd();
    let mut for_topics = RoomMessageEventHandler::new();
    let mut topics = for_topics.unknown_cmd();
    let mut bot = bot();
    let topic = EventType("m.room.topic".to_string());
    if message_first {
        bot.with_handler(EventType::room_message(), for_messages);
        bot.with_handler(topic.clone(), for_topics);
    } else {
        bot.with_handler(topic.clone(), for_topics);
        bot.with_handler(EventType::room_message(), for_messages);
    }
    let batch = response(
        Vec::new(),
        vec![joined("!a:matrix.org", vec![message("hello"), Some(Event::Other(topic))])],
        Vec::new(),
    );
    let report = bot.dispatch(&batch);
    (report, bodies(&mut messages), bodies(&mut topics))
}

#[test]
fn registration_order_does_not_change_delivery() {
    let one_way = run_both_types(true);
    let other_way = run_both_types(false);
    assert_eq!(one_way, other_way);
    assert_eq!(
        one_way.0.join,
        vec![vec![
            Outcome::Handled(Ok(Delivery::Delivered(Target::Fallback))),
            Outcome::Handled(Err(Error(InnerError::Match))),
        ]]
    );
    assert_eq!(one_way.1, vec!["hello".to_string()]);
    assert!(one_way.2.is_empty());
}

#[test]
fn event_without_handler_is_unhandled_and_undecoded_is_skipped() {
    let mut router = RoomMessageEventHandler::new();
    let mut all = router.unknown_cmd();
    let mut bot = bot();
    bot.with_handler(EventType::room_message(), router);
    let batch = response(
        Vec::new(),
        vec![joined(
            "!a:matrix.org",
            vec![
                None,
                Some(Event::Other(EventType("m.room.topic".to_string()))),
                message("after"),
            ],
        )],
        Vec::new(),
    );
    let report = bot.dispatch(&batch);
    assert_eq!(
        report.join,
        vec![vec![Outcome::Skipped, Outcome::Unhandled, Outcome::Handled(Ok(Delivery::Delivered(Target::Fallback)))]]
    );
    assert_eq!(bodies(&mut all), vec!["after".to_string()]);
}

#[test]
fn state_and_left_rooms_reach_no_handler() {
    let mut router = RoomMessageEventHandler::new();
    let mut all = router.unknown_cmd();
    let mut bot = bot();
    bot.with_handler(EventType::room_message(), router);
    let batch = response(
        Vec::new(),
        vec![Room {
            room_id: RoomId("!a:matrix.org".to_string()),
            state: vec![message("state")],
            timeline: Vec::new(),
        }],
        vec![Room {
            room_id: RoomId("!b:matrix.org".to_string()),
            state: vec![message("left state")],
            timeline: vec![message("left timeline")],
        }],
    );
    let report = bot.dispatch(&batch);
    assert_eq!(report, Report { invite: Vec::new(), join: vec![Vec::new()] });
    assert!(bodies(&mut all).is_empty());
}

#[test]
fn process_updates_moves_the_cursor() {
    let mut router = RoomMessageEventHandler::new();
    let mut all = router.unknown_cmd();
    let mut bot = bot();
    bot.with_handler(EventType::room_message(), router);
    let batch = response(Vec::new(), vec![joined("!a:matrix.org", vec![message("x")])], Vec::new());
    let report = bot.process_updates(&batch);
    assert_eq!(report.join, vec![vec![Outcome::Handled(Ok(Delivery::Delivered(Target::Fallback)))]]);
    assert_eq!(bot.config.batch_id, Some("s72595_4483_1934".to_string()));
    assert_eq!(bot.config.homeserver_url, "https://matrix.org/");
    let report = bot.process_updates(&batch);
    assert_eq!(report.join, vec![vec![Outcome::Handled(Ok(Delivery::Delivered(Target::Fallback)))]]);
    assert_eq!(bodies(&mut all), vec!["x".to_string(), "x".to_string()]);
}

#[test]
fn event_types_by_name() {
    assert_eq!(EventType::room_message(), EventType("m.room.message".to_string()));
    assert_eq!(EventType::room_member(), EventType("m.room.member".to_string()));
    assert_eq!(message("x").unwrap().event_type(), EventType::room_message());
    let topic = EventType("m.room.topic".to_string());
    assert_eq!(Event::Other(topic.clone()).event_type(), topic);
    assert_eq!(StrippedState::Other(topic.clone()).event_type(), topic);
    assert_eq!(
        StrippedState::RoomMember(member("@bot:matrix.org")).event_type(),
        EventType::room_member()
    );
}

#[test]
fn member_router_routes_by_the_events_type() {
    let mut router = RoomMemberEventHandler::new();
    let mut first = router.add(EventType::room_member());
    let mut second = router.add(EventType::room_member());
    let bot = bot();
    let ctx = bot.context();
    let room = RoomId("!inv:matrix.org".to_string());
    let answer = router.handle_input(&ctx, room.clone(), &member("@bot:matrix.org"));
    assert_eq!(answer, Ok(Delivery::Delivered(Target::Registered)));
    assert!(members(&mut first).is_empty());
    assert_eq!(members(&mut second), vec![(room.clone(), member("@bot:matrix.org"))]);
    drop(second);
    let answer = router.handle_input(&ctx, room.clone(), &member("@bot:matrix.org"));
    assert_eq!(answer, Ok(Delivery::Lost(Target::Registered)));
    let mut odd = member("@bot:matrix.org");
    odd.event_type = EventType("m.room.other".to_string());
    assert!(router.select(&odd).is_none());
    assert_eq!(router.handle_input(&ctx, room, &odd), Ok(Delivery::Dropped));
}
