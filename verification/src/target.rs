//! Which earlier event a command is applied to.
//!
//! A reply names its target. A message in a thread names the event it
//! answers, if any, whether its sender chose that event or it is the latest
//! of the thread. What a relation names goes first: the event right before
//! the message is looked at only where the relation names none. Whatever is
//! found has to be a message as its sender wrote it.

use vstd::prelude::*;
use crate::event::{IncomingMessage, Relation, Timeline, TimelineEvent};

verus! {

/// The identifier of the event that the relation names as the one answered.
pub open spec fn reply_target(relation: Relation) -> Option<Seq<char>> {
    match relation {
        Relation::Reply { event_id } => Some(event_id@),
        Relation::Thread { root, in_reply_to, is_falling_back } => match in_reply_to {
            Some(event_id) => Some(event_id@),
            None => None,
        },
        _ => None,
    }
}

/// The root of the thread that the relation places the message in.
pub open spec fn thread_root(relation: Relation) -> Option<Seq<char>> {
    match relation {
        Relation::Thread { root, in_reply_to, is_falling_back } => Some(root@),
        _ => None,
    }
}

/// The index of the first event at or after `from` that has the identifier
/// `id`.
pub open spec fn index_of(events: Seq<TimelineEvent>, id: Seq<char>, from: int) -> Option<int>
    decreases events.len() - from,
{
    if from < 0 || from >= events.len() {
        None
    } else if events[from].event_id@ == id {
        Some(from)
    } else {
        index_of(events, id, from + 1)
    }
}

/// The event with the identifier `id`.
pub open spec fn event_with_id(events: Seq<TimelineEvent>, id: Seq<char>) -> Option<
    TimelineEvent,
> {
    match index_of(events, id, 0) {
        Some(i) => Some(events[i]),
        None => None,
    }
}

/// The event that comes right before the one with the identifier `id`.
pub open spec fn event_before(events: Seq<TimelineEvent>, id: Seq<char>) -> Option<
    TimelineEvent,
> {
    match index_of(events, id, 0) {
        Some(i) => if i > 0 {
            Some(events[i - 1])
        } else {
            None
        },
        None => None,
    }
}

/// The event that the message points at, of whatever kind: the one it
/// names, or else the one before it.
pub open spec fn candidate(message: IncomingMessage, events: Seq<TimelineEvent>) -> Option<
    TimelineEvent,
> {
    match reply_target(message.relation) {
        Some(id) => event_with_id(events, id),
        None => event_before(events, message.event_id@),
    }
}

/// The target of a command: the candidate, if it is a message as its sender
/// wrote it.
pub open spec fn resolve_spec(message: IncomingMessage, events: Seq<TimelineEvent>) -> Option<
    TimelineEvent,
> {
    match candidate(message, events) {
        Some(event) => if event.is_message() {
            Some(event)
        } else {
            None
        },
        None => None,
    }
}

/// `index_of` finds an event with the identifier, and the first such one at
/// or after `from`.
pub proof fn lemma_index_of(events: Seq<TimelineEvent>, id: Seq<char>, from: int)
    requires
        0 <= from,
    ensures
        match index_of(events, id, from) {
            Some(i) => from <= i < events.len() && events[i].event_id@ == id && forall|k: int|
                from <= k < i ==> events[k].event_id@ != id,
            None => forall|k: int| from <= k < events.len() ==> events[k].event_id@ != id,
        },
    decreases events.len() - from,
{
    if from < events.len() && events[from].event_id@ != id {
        lemma_index_of(events, id, from + 1);
    }
}

/// What has to be fetched from the room before a command can be applied.
#[derive(Clone, Debug, PartialEq, Eq)]
pub enum TargetLookup {
    /// The event with this identifier.
    ById(String),
    /// The events right before the message that holds the command.
    Preceding,
}

/// Says what has to be fetched for a message with this relation.
pub fn target_lookup(relation: &Relation) -> (r: TargetLookup)
    ensures
        match r {
            TargetLookup::ById(id) => reply_target(*relation) == Some(id@),
            TargetLookup::Preceding => reply_target(*relation) is None,
        },
{
    match relation {
        Relation::Reply { event_id } => TargetLookup::ById(event_id.clone()),
        Relation::Thread { in_reply_to: Some(event_id), .. } => TargetLookup::ById(
            event_id.clone(),
        ),
        _ => TargetLookup::Preceding,
    }
}

/// Tells whether the message belongs to a thread.
pub fn in_thread(relation: &Relation) -> (r: bool)
    ensures
        r == thread_root(*relation).is_some(),
{
    match relation {
        Relation::Thread { .. } => true,
        _ => false,
    }
}

impl Timeline {
    /// The position of the first event with the identifier `id`.
    pub fn position(&self, id: &String) -> (r: Option<usize>)
        ensures
            match r {
                Some(i) => index_of(self.events@, id@, 0) == Some(i as int) && i
                    < self.events.len(),
                None => index_of(self.events@, id@, 0) is None,
            },
    {
        let n: usize = self.events.len();
        let mut i: usize = 0;
        while i < n
            invariant
                n == self.events.len(),
                i <= n,
                index_of(self.events@, id@, 0) == index_of(self.events@, id@, i as int),
            decreases n - i,
        {
            if self.events[i].event_id == *id {
                return Some(i);
            }
            i += 1;
        }
        None
    }

    /// The event with the identifier `id`.
    pub fn get_event(&self, id: &String) -> (r: Option<&TimelineEvent>)
        ensures
            match r {
                Some(event) => event_with_id(self.events@, id@) == Some(*event),
                None => event_with_id(self.events@, id@) is None,
            },
    {
        match self.position(id) {
            Some(i) => Some(&self.events[i]),
            None => None,
        }
    }

    /// The event right before the one with the identifier `id`.
    pub fn get_event_before(&self, id: &String) -> (r: Option<&TimelineEvent>)
        ensures
            match r {
                Some(event) => event_before(self.events@, id@) == Some(*event),
                None => event_before(self.events@, id@) is None,
            },
    {
        match self.position(id) {
            Some(i) => if i > 0 {
                Some(&self.events[i - 1])
            } else {
                None
            },
            None => None,
        }
    }
}

/// Finds the event that the command of `message` is applied to.
pub fn resolve<'a>(message: &IncomingMessage, timeline: &'a Timeline) -> (r: Option<
    &'a TimelineEvent,
>)
    ensures
        match r {
            Some(event) => resolve_spec(*message, timeline.events@) == Some(*event),
            None => resolve_spec(*message, timeline.events@) is None,
        },
{
    let found: Option<&TimelineEvent> = match &message.relation {
        Relation::Reply { event_id } => timeline.get_event(event_id),
        Relation::Thread { in_reply_to: Some(event_id), .. } => timeline.get_event(event_id),
        _ => timeline.get_event_before(&message.event_id),
    };
    match found {
        Some(event) => if event.holds_message() {
            Some(event)
        } else {
            None
        },
        None => None,
    }
}

/// A reply resolves to the event it names, whatever else the timeline
/// holds, when that event is a message as its sender wrote it.
pub proof fn lemma_direct_reply_resolves(
    message: IncomingMessage,
    events: Seq<TimelineEvent>,
    i: int,
)
    requires
        message.relation is Reply,
        0 <= i < events.len(),
        events[i].event_id@ == message.relation->Reply_event_id@,
        forall|k: int| 0 <= k < i ==> events[k].event_id@ != events[i].event_id@,
        events[i].is_message(),
    ensures
        resolve_spec(message, events) == Some(events[i]),
{
    lemma_index_of(events, events[i].event_id@, 0);
}

/// A message without relation resolves to the event right before it, when
/// that event is a message as its sender wrote it.
pub proof fn lemma_unrelated_resolves_to_previous(
    message: IncomingMessage,
    events: Seq<TimelineEvent>,
    i: int,
)
    requires
        message.relation is Unrelated,
        0 < i < events.len(),
        events[i].event_id@ == message.event_id@,
        forall|k: int| 0 <= k < i ==> events[k].event_id@ != message.event_id@,
        events[i - 1].is_message(),
    ensures
        resolve_spec(message, events) == Some(events[i - 1]),
{
    lemma_index_of(events, message.event_id@, 0);
}

} // verus!
