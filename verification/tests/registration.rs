use std::sync::Arc;

use futures::channel::mpsc::unbounded;
use matrix_bot::channel::{Delivery, Target};
use matrix_bot::event::{
    EventType, MessageEvent, MessageEventContent, RoomId, StrippedRoomMember,
    TextMessageEventContent,
};
use matrix_bot::event_handler::state::{routed_member, RoomMemberEventHandler};
use matrix_bot::event_handler::{routed_message, Context, RoomMessageEventHandler};

fn a_context() -> Context {
    let homeserver = url::Url::parse("https://example.org/").unwrap();
    Context { client: Arc::new(ruma_client::Client::https(homeserver, None)) }
}

fn a_message(body: &str) -> MessageEvent {
    MessageEvent {
        content: MessageEventContent::Text(TextMessageEventContent { body: body.to_string() }),
        event_id: "$7:example.org".to_string(),
        sender: "@bob:example.org".to_string(),
    }
}

fn a_member() -> StrippedRoomMember {
    StrippedRoomMember {
        event_type: EventType::room_member(),
        sender: "@bob:example.org".to_string(),
        state_key: "@bot:example.org".to_string(),
    }
}

#[test]
fn registered_sender_gets_the_command() {
    let (sender, mut receiver) = unbounded();
    let mut router = RoomMessageEventHandler::new();
    router.register("!roll", sender);
    let ctx = a_context();
    let answer = router.handle_input(&ctx, None, &a_message("!roll 2d6"));
    assert_eq!(answer, Ok(Delivery::Delivered(Target::Registered)));
    let (_, room, event) = receiver.try_recv().unwrap().unwrap();
    assert_eq!(room, None);
    assert_eq!(event, a_message("!roll 2d6"));
    assert!(receiver.try_recv().is_err());
}

#[test]
fn registered_fallback_gets_the_rest() {
    let (sender, mut receiver) = unbounded();
    let mut router = RoomMessageEventHandler::new();
    router.register_unknown(sender);
    let ctx = a_context();
    let answer = router.handle_input(&ctx, None, &a_message("anything"));
    assert_eq!(answer, Ok(Delivery::Delivered(Target::Fallback)));
    let (_, _, event) = receiver.try_recv().unwrap().unwrap();
    assert_eq!(event, a_message("anything"));
}

#[test]
fn registered_sender_gets_the_membership_event() {
    let (sender, mut receiver) = unbounded();
    let mut router = RoomMemberEventHandler::new();
    router.register(EventType::room_member(), sender);
    let ctx = a_context();
    let room = RoomId("!inv:example.org".to_string());
    let answer = router.handle_input(&ctx, room.clone(), &a_member());
    assert_eq!(answer, Ok(Delivery::Delivered(Target::Registered)));
    let (got_ctx, got_room, event) = receiver.try_recv().unwrap().unwrap();
    assert!(Arc::ptr_eq(&got_ctx.client, &ctx.client));
    assert_eq!(got_room, room);
    assert_eq!(event, a_member());
}

#[test]
fn routed_message_holds_what_it_was_made_from() {
    let ctx = a_context();
    let room = RoomId("!a:example.org".to_string());
    let (got_ctx, got_room, event) =
        routed_message(&ctx, Some(room.clone()), &a_message("!roll")).unwrap();
    assert!(Arc::ptr_eq(&got_ctx.client, &ctx.client));
    assert_eq!(got_room, Some(room.clone()));
    assert_eq!(event, a_message("!roll"));

    let (got_ctx, got_room, event) = routed_member(&ctx, room.clone(), &a_member()).unwrap();
    assert!(Arc::ptr_eq(&got_ctx.client, &ctx.client));
    assert_eq!(got_room, room);
    assert_eq!(event, a_member());
}

#[test]
fn clones_are_equal() {
    let message = a_message("x y");
    assert_eq!(message.clone(), message);
    let member = a_member();
    assert_eq!(member.clone(), member);
    let room = RoomId("!a:example.org".to_string());
    assert_eq!(room.clone(), room);
    let image = MessageEventContent::Other("m.image".to_string());
    assert_eq!(image.clone(), image);
    let ctx = a_context();
    assert!(Arc::ptr_eq(&ctx.clone().client, &ctx.client));
}
