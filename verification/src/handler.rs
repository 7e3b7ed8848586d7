//! From a message that holds a command to the answer of the bot.
//!
//! The command is looked for in the text of the message, the message it
//! applies to is looked for in the timeline, the command is applied to the
//! text of that message, and the answer shows the corrected text with what
//! is new in it marked.

use vstd::prelude::*;
use crate::command::{parse, parse_spec, strip_reply_fallback, without_reply_fallback};
use crate::diff::{
    diff_words, markup, render_segments, segment_views, word_diff, ChangeTag, DiffSegment,
};
use crate::error::Error;
use crate::event::{IncomingMessage, MessageKind, RoomState, Timeline, TimelineEvent};
use crate::substitute::{execute, substituted};
use crate::target::{in_thread, resolve, resolve_spec, thread_root};

verus! {

/// The answer of the bot to a command.
#[derive(Clone, Debug, PartialEq, Eq)]
pub struct OutgoingReply {
    /// The corrected text.
    pub plain: String,
    /// The corrected text with what is new in it marked.
    pub html: String,
    /// The identifier of the message that was corrected, which the answer
    /// replies to.
    pub reply_to: String,
    /// The answer goes into the thread of the command. Otherwise it is an
    /// ordinary reply, which follows the corrected message into its thread
    /// if it has one.
    pub in_thread: bool,
}

/// An answer as a value.
pub struct OutgoingReplyView {
    pub plain: Seq<char>,
    pub html: Seq<char>,
    pub reply_to: Seq<char>,
    pub in_thread: bool,
}

impl View for OutgoingReply {
    type V = OutgoingReplyView;

    open spec fn view(&self) -> OutgoingReplyView {
        OutgoingReplyView {
            plain: self.plain@,
            html: self.html@,
            reply_to: self.reply_to@,
            in_thread: self.in_thread,
        }
    }
}

/// The answer that gives `corrected` as the new text of `target` and
/// shows the pieces of the comparison `segments`.
pub open spec fn reply_spec(
    target: TimelineEvent,
    in_thread: bool,
    corrected: Seq<char>,
    segments: Seq<(ChangeTag, Seq<char>)>,
) -> OutgoingReplyView {
    OutgoingReplyView {
        plain: corrected,
        html: markup(segments),
        reply_to: target.event_id@,
        in_thread,
    }
}

/// What applying `command` to `target` gives: the answer, or the failure
/// where the command is no valid substitution. The quotation that the
/// target may open with is no part of the text that is corrected.
pub open spec fn apply_spec(command: Seq<char>, target: TimelineEvent, in_thread: bool) -> Result<
    OutgoingReplyView,
    Error,
> {
    let old = without_reply_fallback(target.body_view());
    match substituted(old, command) {
        Some(corrected) => Ok(reply_spec(target, in_thread, corrected, word_diff(old, corrected))),
        None => Err(Error::MalformedCommand),
    }
}

/// What the bot does about a message. Nothing, where it is not in the room,
/// the message is no text, or the text holds no command. Otherwise the
/// command needs a target, then it has to be valid, and then there is an
/// answer.
pub open spec fn on_room_message_spec(
    event: IncomingMessage,
    room_state: RoomState,
    events: Seq<TimelineEvent>,
) -> Result<Option<OutgoingReplyView>, Error> {
    if room_state != RoomState::Joined || event.kind != MessageKind::Text {
        Ok(None)
    } else {
        match parse_spec(event.body@) {
            None => Ok(None),
            Some(command) => match resolve_spec(event, events) {
                None => Err(Error::TargetUnresolvable),
                Some(target) => match apply_spec(
                    command,
                    target,
                    thread_root(event.relation).is_some(),
                ) {
                    Ok(reply) => Ok(Some(reply)),
                    Err(error) => Err(error),
                },
            },
        }
    }
}

/// Writes the answer to a command: the corrected text as it is, the
/// pieces of its comparison with the old text as markup, in reply to
/// `target`.
pub fn compose_reply(
    target: &TimelineEvent,
    in_thread: bool,
    corrected: String,
    segments: &Vec<DiffSegment>,
) -> (r: OutgoingReply)
    ensures
        r@ == reply_spec(*target, in_thread, corrected@, segment_views(segments@)),
{
    let html: String = render_segments(segments);
    OutgoingReply { plain: corrected, html, reply_to: target.event_id.clone(), in_thread }
}

/// Applies `command` to the text of `target` and writes the answer.
pub fn apply_command(command: &str, target: &TimelineEvent, in_thread: bool) -> (r: Result<
    OutgoingReply,
    Error,
>)
    ensures
        match r {
            Ok(reply) => apply_spec(command@, *target, in_thread) == Ok::<OutgoingReplyView, Error>(
                reply@,
            ),
            Err(error) => apply_spec(command@, *target, in_thread) == Err::<
                OutgoingReplyView,
                Error,
            >(error),
        },
{
    let old: &str = strip_reply_fallback(target.body());
    match execute(command, old) {
        Ok(corrected) => {
            let segments: Vec<DiffSegment> = diff_words(old, corrected.as_str());
            Ok(compose_reply(target, in_thread, corrected, &segments))
        },
        Err(error) => Err(error),
    }
}

/// Handles a message that arrived in a room whose timeline, as far as it is
/// at hand, is `timeline`.
pub fn on_room_message(event: &IncomingMessage, room_state: RoomState, timeline: &Timeline) -> (r:
    Result<Option<OutgoingReply>, Error>)
    ensures
        match r {
            Ok(Some(reply)) => on_room_message_spec(*event, room_state, timeline.events@) == Ok::<
                Option<OutgoingReplyView>,
                Error,
            >(Some(reply@)),
            Ok(None) => on_room_message_spec(*event, room_state, timeline.events@) == Ok::<
                Option<OutgoingReplyView>,
                Error,
            >(None),
            Err(error) => on_room_message_spec(*event, room_state, timeline.events@) == Err::<
                Option<OutgoingReplyView>,
                Error,
            >(error),
        },
{
    if room_state != RoomState::Joined || event.kind != MessageKind::Text {
        return Ok(None);
    }
    let command: String = match parse(event.body.as_str()) {
        Some(command) => command,
        None => {
            return Ok(None);
        },
    };
    let target: &TimelineEvent = match resolve(event, timeline) {
        Some(target) => target,
        None => {
            return Err(Error::TargetUnresolvable);
        },
    };
    match apply_command(command.as_str(), target, in_thread(&event.relation)) {
        Ok(reply) => Ok(Some(reply)),
        Err(error) => Err(error),
    }
}

/// Whether a message is passed over does not depend on the timeline: what
/// is no command for the bot can be told before anything is fetched.
pub proof fn lemma_ignoring_needs_no_timeline(
    event: IncomingMessage,
    room_state: RoomState,
    events: Seq<TimelineEvent>,
    others: Seq<TimelineEvent>,
)
    ensures
        on_room_message_spec(event, room_state, events) == Ok::<Option<OutgoingReplyView>, Error>(
            None,
        ) <==> on_room_message_spec(event, room_state, others) == Ok::<
            Option<OutgoingReplyView>,
            Error,
        >(None),
        on_room_message_spec(event, room_state, events) == Ok::<Option<OutgoingReplyView>, Error>(
            None,
        ) <==> room_state != RoomState::Joined || event.kind != MessageKind::Text || parse_spec(
            event.body@,
        ) is None,
{
}

/// An answer always carries the corrected text as it is and replies to the
/// target that the command resolved to.
pub proof fn lemma_reply_carries_corrected_text(
    event: IncomingMessage,
    room_state: RoomState,
    events: Seq<TimelineEvent>,
)
    requires
        on_room_message_spec(event, room_state, events) matches Ok(Some(_)),
    ensures
        ({
            let reply = on_room_message_spec(event, room_state, events)->Ok_0->0;
            let target = resolve_spec(event, events)->0;
            let command = parse_spec(event.body@)->0;
            &&& resolve_spec(event, events) is Some
            &&& parse_spec(event.body@) is Some
            &&& Some(reply.plain) == substituted(
                without_reply_fallback(target.body_view()),
                command,
            )
            &&& reply.html == markup(
                word_diff(without_reply_fallback(target.body_view()), reply.plain),
            )
            &&& reply.reply_to == target.event_id@
            &&& reply.in_thread == (event.relation is Thread)
        }),
{
}

} // verus!
