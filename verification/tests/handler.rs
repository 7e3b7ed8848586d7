use matrix_sed::diff::{ChangeTag, DiffSegment};
use matrix_sed::error::Error;
use matrix_sed::event::{
    IncomingMessage, MessageKind, Relation, RoomState, Timeline, TimelineContent, TimelineEvent,
};
use matrix_sed::handler::{apply_command, compose_reply, on_room_message, OutgoingReply};

fn message_event(id: &str, body: &str) -> TimelineEvent {
    TimelineEvent {
        event_id: id.to_string(),
        content: TimelineContent::Message {
            sender: "@alice:example.org".to_string(),
            body: body.to_string(),
        },
    }
}

fn incoming(id: &str, body: &str, relation: Relation) -> IncomingMessage {
    IncomingMessage {
        event_id: id.to_string(),
        room_id: "!room:example.org".to_string(),
        sender: "@bob:example.org".to_string(),
        kind: MessageKind::Text,
        body: body.to_string(),
        relation,
    }
}

fn room() -> Timeline {
    Timeline {
        events: vec![
            message_event("$1", "the cat sat"),
            message_event("$2", "a foo and a foo"),
            message_event("$3", "s/foo/bar/"),
        ],
    }
}

#[test]
fn command_in_reply_is_answered_with_the_corrected_text() {
    let event = incoming("$3", "s/cat/dog/", Relation::Reply { event_id: "$1".to_string() });
    let reply = on_room_message(&event, RoomState::Joined, &room());
    assert_eq!(
        reply,
        Ok(Some(OutgoingReply {
            plain: "the dog sat".to_string(),
            html: "the <u>dog</u> sat".to_string(),
            reply_to: "$1".to_string(),
            in_thread: false,
        }))
    );
}

#[test]
fn command_without_reply_corrects_the_previous_message() {
    let event = incoming("$3", "s/foo/bar/", Relation::Unrelated);
    let reply = on_room_message(&event, RoomState::Joined, &room()).unwrap().unwrap();
    assert_eq!(reply.plain, "a bar and a foo");
    assert_eq!(reply.html, "a <u>bar</u> and a foo");
    assert_eq!(reply.reply_to, "$2");
    assert!(!reply.in_thread);
}

#[test]
fn command_after_mention_is_applied() {
    let event = incoming("$3", "bot: sed s/foo/bar/g", Relation::Unrelated);
    let reply = on_room_message(&event, RoomState::Joined, &room()).unwrap().unwrap();
    assert_eq!(reply.plain, "a bar and a bar");
    assert_eq!(reply.html, "a <u>bar</u> and a <u>bar</u>");
}

#[test]
fn command_in_thread_is_answered_in_the_thread() {
    let relation = Relation::Thread {
        root: "$1".to_string(),
        in_reply_to: Some("$2".to_string()),
        is_falling_back: true,
    };
    let event = incoming("$3", "s/foo/bar/", relation);
    let reply = on_room_message(&event, RoomState::Joined, &room()).unwrap().unwrap();
    assert_eq!(reply.reply_to, "$2");
    assert!(reply.in_thread);
}

#[test]
fn quotation_in_command_and_target_is_left_out() {
    let timeline = Timeline {
        events: vec![
            message_event("$1", "> <@carol:example.org> cats?\n\nI like cats"),
            message_event("$2", "unrelated"),
        ],
    };
    let body = "> <@alice:example.org> I like cats\n\ns/cats/dogs/";
    let event = incoming("$2", body, Relation::Reply { event_id: "$1".to_string() });
    let reply = on_room_message(&event, RoomState::Joined, &timeline).unwrap().unwrap();
    assert_eq!(reply.plain, "I like dogs");
    assert_eq!(reply.html, "I like <u>dogs</u>");
}

#[test]
fn message_in_a_room_not_joined_is_ignored() {
    let event = incoming("$3", "s/foo/bar/", Relation::Unrelated);
    assert_eq!(on_room_message(&event, RoomState::Invited, &room()), Ok(None));
    assert_eq!(on_room_message(&event, RoomState::Left, &room()), Ok(None));
    assert_eq!(on_room_message(&event, RoomState::Knocked, &room()), Ok(None));
    assert_eq!(on_room_message(&event, RoomState::Banned, &room()), Ok(None));
}

#[test]
fn message_that_is_no_text_is_ignored() {
    let mut event = incoming("$3", "s/foo/bar/", Relation::Unrelated);
    event.kind = MessageKind::Other;
    assert_eq!(on_room_message(&event, RoomState::Joined, &room()), Ok(None));
}

#[test]
fn message_without_command_is_ignored() {
    let event = incoming("$3", "hello there", Relation::Unrelated);
    assert_eq!(on_room_message(&event, RoomState::Joined, &room()), Ok(None));
}

#[test]
fn command_without_target_is_dropped() {
    let event = incoming("$3", "s/foo/bar/", Relation::Reply { event_id: "$gone".to_string() });
    assert_eq!(
        on_room_message(&event, RoomState::Joined, &room()),
        Err(Error::TargetUnresolvable)
    );
    let first = incoming("$1", "s/foo/bar/", Relation::Unrelated);
    assert_eq!(
        on_room_message(&first, RoomState::Joined, &room()),
        Err(Error::TargetUnresolvable)
    );
}

#[test]
fn missing_target_is_reported_before_a_malformed_command() {
    let event = incoming("$3", "s/foo/bar/u", Relation::Reply { event_id: "$gone".to_string() });
    assert_eq!(
        on_room_message(&event, RoomState::Joined, &room()),
        Err(Error::TargetUnresolvable)
    );
}

#[test]
fn malformed_command_is_dropped() {
    let event = incoming("$3", "s/foo/bar/u", Relation::Unrelated);
    assert_eq!(on_room_message(&event, RoomState::Joined, &room()), Err(Error::MalformedCommand));
    let other_delimiter = incoming("$3", "s#foo#bar#", Relation::Unrelated);
    assert_eq!(
        on_room_message(&other_delimiter, RoomState::Joined, &room()),
        Err(Error::MalformedCommand)
    );
}

#[test]
fn apply_command_to_a_message() {
    let target = message_event("$1", "the cat sat");
    let reply = apply_command("s/cat/dog/", &target, true).unwrap();
    assert_eq!(reply.plain, "the dog sat");
    assert_eq!(reply.html, "the <u>dog</u> sat");
    assert_eq!(reply.reply_to, "$1");
    assert!(reply.in_thread);
    assert_eq!(apply_command("s/cat/", &target, false), Err(Error::MalformedCommand));
}

#[test]
fn compose_reply_marks_what_is_new() {
    let target = message_event("$9", "ignored here");
    let segments = vec![
        DiffSegment { tag: ChangeTag::Equal, text: "one ".to_string() },
        DiffSegment { tag: ChangeTag::Deleted, text: "two".to_string() },
        DiffSegment { tag: ChangeTag::Inserted, text: "three".to_string() },
    ];
    let reply = compose_reply(&target, false, "one three".to_string(), &segments);
    assert_eq!(
        reply,
        OutgoingReply {
            plain: "one three".to_string(),
            html: "one <u>three</u>".to_string(),
            reply_to: "$9".to_string(),
            in_thread: false,
        }
    );
    let threaded = compose_reply(&target, true, "x".to_string(), &Vec::new());
    assert_eq!(threaded.html, "");
    assert_eq!(threaded.plain, "x");
    assert!(threaded.in_thread);
}
