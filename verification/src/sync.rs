//! The loop that keeps the bot in step with the server.
//!
//! The loop itself performs nothing: it is told what happened and says what
//! to do next. It starts by having invitations handled, catches up with one
//! round whose events are not answered, and then settles into round after
//! round. The cursor moves when a round has completed, and only then.

use vstd::prelude::*;
use crate::error::Error;
use crate::session::{restore_cursor, FullSessionView};

verus! {

/// The stage that the loop is in.
#[derive(Clone, Copy, Debug, PartialEq, Eq, Structural)]
pub enum SyncState {
    /// Nothing has been asked of the server yet.
    Bootstrapping,
    /// The round that skips what happened before the start is under way.
    CatchingUp,
    /// New events are handled as they come.
    SteadyState,
    /// The loop was stopped.
    Terminated,
    /// The loop ended on a failure that it cannot recover from.
    Crashed,
}

/// The outcome that the loop waits for.
#[derive(Clone, Copy, Debug, PartialEq, Eq, Structural)]
pub enum Awaiting {
    /// That a handler has been put in place.
    Registration,
    /// How a round of synchronization ended.
    Round,
    /// Whether the cursor was written down.
    Persist,
    /// Whether the other devices were deleted.
    Purge,
    /// Nothing: the loop has ended.
    Nothing,
}

/// What the loop is told.
#[derive(Clone, Debug, PartialEq, Eq)]
pub enum SyncEvent {
    /// The handler that was asked for is in place.
    Registered,
    /// A round completed, and the server named the place to go on from.
    RoundCompleted { next_batch: String },
    /// A round failed in a way that may pass.
    RoundFailed,
    /// The cursor was written down.
    CursorPersisted,
    /// The cursor could not be written down.
    PersistFailed,
    /// The other devices of the account are deleted.
    DevicesPurged,
    /// The other devices could not be deleted.
    PurgeFailed,
    /// The connection failed for good.
    ConnectionLost,
    /// The process is asked to stop.
    Stopped,
}

/// What the loop asks for.
#[derive(Clone, Debug, PartialEq, Eq)]
pub enum SyncAction {
    /// Have invitations handled, and prepare the filter that leaves out the
    /// members of rooms until they are needed.
    RegisterInviteHandler,
    /// Have messages handled.
    RegisterCommandHandler,
    /// Ask the server once for what is new after `since`.
    SyncOnce { since: Option<String> },
    /// Write `token` down as the cursor of the session.
    PersistCursor { token: String },
    /// Delete the devices of the account other than this one.
    PurgeDevices,
    /// Do nothing more: the loop has ended.
    Halt,
    /// Go on waiting: what was told is not what the loop waits for.
    Wait,
}

/// The loop as a value: its stage, what it waits for, the cursor, and
/// whether other devices are to be deleted after catching up.
pub struct SyncLoopView {
    pub state: SyncState,
    pub awaiting: Awaiting,
    pub cursor: Option<Seq<char>>,
    pub purge_devices: bool,
}

/// An event as a value.
pub enum SyncEventView {
    Registered,
    RoundCompleted { next_batch: Seq<char> },
    RoundFailed,
    CursorPersisted,
    PersistFailed,
    DevicesPurged,
    PurgeFailed,
    ConnectionLost,
    Stopped,
}

/// An action as a value.
pub enum SyncActionView {
    RegisterInviteHandler,
    RegisterCommandHandler,
    SyncOnce { since: Option<Seq<char>> },
    PersistCursor { token: Seq<char> },
    PurgeDevices,
    Halt,
    Wait,
}

impl View for SyncEvent {
    type V = SyncEventView;

    open spec fn view(&self) -> SyncEventView {
        match self {
            SyncEvent::Registered => SyncEventView::Registered,
            SyncEvent::RoundCompleted { next_batch } => SyncEventView::RoundCompleted {
                next_batch: next_batch@,
            },
            SyncEvent::RoundFailed => SyncEventView::RoundFailed,
            SyncEvent::CursorPersisted => SyncEventView::CursorPersisted,
            SyncEvent::PersistFailed => SyncEventView::PersistFailed,
            SyncEvent::DevicesPurged => SyncEventView::DevicesPurged,
            SyncEvent::PurgeFailed => SyncEventView::PurgeFailed,
            SyncEvent::ConnectionLost => SyncEventView::ConnectionLost,
            SyncEvent::Stopped => SyncEventView::Stopped,
        }
    }
}

impl View for SyncAction {
    type V = SyncActionView;

    open spec fn view(&self) -> SyncActionView {
        match self {
            SyncAction::RegisterInviteHandler => SyncActionView::RegisterInviteHandler,
            SyncAction::RegisterCommandHandler => SyncActionView::RegisterCommandHandler,
            SyncAction::SyncOnce { since } => SyncActionView::SyncOnce { since: since.deep_view() },
            SyncAction::PersistCursor { token } => SyncActionView::PersistCursor { token: token@ },
            SyncAction::PurgeDevices => SyncActionView::PurgeDevices,
            SyncAction::Halt => SyncActionView::Halt,
            SyncAction::Wait => SyncActionView::Wait,
        }
    }
}

impl SyncLoopView {
    /// The loop before anything has happened.
    pub open spec fn initial(cursor: Option<Seq<char>>, purge_devices: bool) -> SyncLoopView {
        SyncLoopView {
            state: SyncState::Bootstrapping,
            awaiting: Awaiting::Registration,
            cursor,
            purge_devices,
        }
    }

    /// The loop in another stage, waiting for another outcome.
    pub open spec fn moved(self, state: SyncState, awaiting: Awaiting) -> SyncLoopView {
        SyncLoopView { state, awaiting, cursor: self.cursor, purge_devices: self.purge_devices }
    }

    /// The loop has ended.
    pub open spec fn ended(self) -> bool {
        self.state == SyncState::Terminated || self.state == SyncState::Crashed
    }

    /// What the loop waits for fits its stage: the stages in which nothing
    /// is asked of the server wait for no round, a cursor that is being
    /// written down exists, devices are deleted only where that was asked
    /// for, and the steady state has a cursor to go on from.
    pub open spec fn wf(self) -> bool {
        &&& match self.state {
            SyncState::Bootstrapping => self.awaiting == Awaiting::Registration,
            SyncState::CatchingUp => self.awaiting == Awaiting::Round || self.awaiting
                == Awaiting::Persist,
            SyncState::SteadyState => self.awaiting != Awaiting::Nothing,
            SyncState::Terminated | SyncState::Crashed => self.awaiting == Awaiting::Nothing,
        }
        &&& self.awaiting == Awaiting::Persist ==> self.cursor is Some
        &&& self.awaiting == Awaiting::Purge ==> self.purge_devices
        &&& self.state == SyncState::SteadyState ==> self.cursor is Some
    }

    /// The loop after `event`, and what it asks for.
    pub open spec fn step(self, event: SyncEventView) -> (SyncLoopView, SyncActionView) {
        if self.ended() {
            (self, SyncActionView::Halt)
        } else if event is Stopped {
            (self.moved(SyncState::Terminated, Awaiting::Nothing), SyncActionView::Halt)
        } else if event is ConnectionLost {
            (self.moved(SyncState::Crashed, Awaiting::Nothing), SyncActionView::Halt)
        } else {
            match (self.awaiting, event) {
                (Awaiting::Registration, SyncEventView::Registered) => (
                    self.moved(
                        if self.state == SyncState::Bootstrapping {
                            SyncState::CatchingUp
                        } else {
                            self.state
                        },
                        Awaiting::Round,
                    ),
                    SyncActionView::SyncOnce { since: self.cursor },
                ),
                (Awaiting::Round, SyncEventView::RoundFailed) => (
                    self,
                    SyncActionView::SyncOnce { since: self.cursor },
                ),
                (Awaiting::Round, SyncEventView::RoundCompleted { next_batch }) => (
                    SyncLoopView {
                        state: self.state,
                        awaiting: Awaiting::Persist,
                        cursor: Some(next_batch),
                        purge_devices: self.purge_devices,
                    },
                    SyncActionView::PersistCursor { token: next_batch },
                ),
                (Awaiting::Persist, SyncEventView::CursorPersisted) => if self.state
                    == SyncState::CatchingUp {
                    if self.purge_devices {
                        (
                            self.moved(SyncState::SteadyState, Awaiting::Purge),
                            SyncActionView::PurgeDevices,
                        )
                    } else {
                        (
                            self.moved(SyncState::SteadyState, Awaiting::Registration),
                            SyncActionView::RegisterCommandHandler,
                        )
                    }
                } else {
                    (
                        self.moved(self.state, Awaiting::Round),
                        SyncActionView::SyncOnce { since: self.cursor },
                    )
                },
                (Awaiting::Persist, SyncEventView::PersistFailed) => (
                    self.moved(SyncState::Crashed, Awaiting::Nothing),
                    SyncActionView::Halt,
                ),
                (Awaiting::Purge, SyncEventView::DevicesPurged) => (
                    self.moved(self.state, Awaiting::Registration),
                    SyncActionView::RegisterCommandHandler,
                ),
                (Awaiting::Purge, SyncEventView::PurgeFailed) => (
                    self.moved(SyncState::Crashed, Awaiting::Nothing),
                    SyncActionView::Halt,
                ),
                _ => (self, SyncActionView::Wait),
            }
        }
    }

    /// The loop after the events of `events`, one after the other.
    pub open spec fn run(self, events: Seq<SyncEventView>) -> SyncLoopView
        decreases events.len(),
    {
        if events.len() == 0 {
            self
        } else {
            self.run(events.drop_last()).step(events.last()).0
        }
    }
}

/// The loop that keeps the bot in step with the server.
#[derive(Clone, Debug)]
pub struct SyncLoop {
    state: SyncState,
    awaiting: Awaiting,
    cursor: Option<String>,
    purge_devices: bool,
}

impl View for SyncLoop {
    type V = SyncLoopView;

    closed spec fn view(&self) -> SyncLoopView {
        SyncLoopView {
            state: self.state,
            awaiting: self.awaiting,
            cursor: self.cursor.deep_view(),
            purge_devices: self.purge_devices,
        }
    }
}

fn copy_of(text: &Option<String>) -> (r: Option<String>)
    ensures
        r.deep_view() == text.deep_view(),
{
    match text {
        Some(t) => Some(t.clone()),
        None => None,
    }
}

impl SyncLoop {
    /// A loop that has not started, and the first thing it asks for. The
    /// cursor is the one of an earlier session, if there was one.
    pub fn new(cursor: Option<String>, purge_devices: bool) -> (r: (SyncLoop, SyncAction))
        ensures
            r.0@ == SyncLoopView::initial(cursor.deep_view(), purge_devices),
            r.0@.wf(),
            r.1@ == SyncActionView::RegisterInviteHandler,
    {
        (
            SyncLoop {
                state: SyncState::Bootstrapping,
                awaiting: Awaiting::Registration,
                cursor,
                purge_devices,
            },
            SyncAction::RegisterInviteHandler,
        )
    }

    /// The stage that the loop is in.
    pub fn state(&self) -> (r: SyncState)
        ensures
            r == self@.state,
    {
        self.state
    }

    /// The outcome that the loop waits for.
    pub fn awaiting(&self) -> (r: Awaiting)
        ensures
            r == self@.awaiting,
    {
        self.awaiting
    }

    /// The place after the last round that completed.
    pub fn cursor(&self) -> (r: &Option<String>)
        ensures
            r.deep_view() == self@.cursor,
    {
        &self.cursor
    }

    /// Takes note of what happened and says what to do next.
    pub fn step(&mut self, event: SyncEvent) -> (action: SyncAction)
        ensures
            (final(self)@, action@) == old(self)@.step(event@),
            old(self)@.wf() ==> final(self)@.wf(),
    {
        if self.state == SyncState::Terminated || self.state == SyncState::Crashed {
            return SyncAction::Halt;
        }
        match event {
            SyncEvent::Stopped => {
                self.state = SyncState::Terminated;
                self.awaiting = Awaiting::Nothing;
                SyncAction::Halt
            },
            SyncEvent::ConnectionLost => {
                self.state = SyncState::Crashed;
                self.awaiting = Awaiting::Nothing;
                SyncAction::Halt
            },
            SyncEvent::Registered => {
                if self.awaiting == Awaiting::Registration {
                    if self.state == SyncState::Bootstrapping {
                        self.state = SyncState::CatchingUp;
                    }
                    self.awaiting = Awaiting::Round;
                    SyncAction::SyncOnce { since: copy_of(&self.cursor) }
                } else {
                    SyncAction::Wait
                }
            },
            SyncEvent::RoundFailed => {
                if self.awaiting == Awaiting::Round {
                    SyncAction::SyncOnce { since: copy_of(&self.cursor) }
                } else {
                    SyncAction::Wait
                }
            },
            SyncEvent::RoundCompleted { next_batch } => {
                if self.awaiting == Awaiting::Round {
                    let token: String = next_batch.clone();
                    self.cursor = Some(next_batch);
                    self.awaiting = Awaiting::Persist;
                    SyncAction::PersistCursor { token }
                } else {
                    SyncAction::Wait
                }
            },
            SyncEvent::CursorPersisted => {
                if self.awaiting == Awaiting::Persist {
                    if self.state == SyncState::CatchingUp {
                        self.state = SyncState::SteadyState;
                        if self.purge_devices {
                            self.awaiting = Awaiting::Purge;
                            SyncAction::PurgeDevices
                        } else {
                            self.awaiting = Awaiting::Registration;
                            SyncAction::RegisterCommandHandler
                        }
                    } else {
                        self.awaiting = Awaiting::Round;
                        SyncAction::SyncOnce { since: copy_of(&self.cursor) }
                    }
                } else {
                    SyncAction::Wait
                }
            },
            SyncEvent::PersistFailed => {
                if self.awaiting == Awaiting::Persist {
                    self.state = SyncState::Crashed;
                    self.awaiting = Awaiting::Nothing;
                    SyncAction::Halt
                } else {
                    SyncAction::Wait
                }
            },
            SyncEvent::DevicesPurged => {
                if self.awaiting == Awaiting::Purge {
                    self.awaiting = Awaiting::Registration;
                    SyncAction::RegisterCommandHandler
                } else {
                    SyncAction::Wait
                }
            },
            SyncEvent::PurgeFailed => {
                if self.awaiting == Awaiting::Purge {
                    self.state = SyncState::Crashed;
                    self.awaiting = Awaiting::Nothing;
                    SyncAction::Halt
                } else {
                    SyncAction::Wait
                }
            },
        }
    }
}

/// A failed round changes nothing: the loop stays as it was, cursor
/// included, and where it waited for the round it asks for the same round
/// again.
pub proof fn lemma_failed_round_keeps_cursor(l: SyncLoopView)
    ensures
        l.step(SyncEventView::RoundFailed).0 == l,
        !l.ended() && l.awaiting == Awaiting::Round ==> l.step(SyncEventView::RoundFailed).1
            == (SyncActionView::SyncOnce { since: l.cursor }),
{
}

/// A completed round moves the cursor to the place that the server named,
/// and that place is what the loop asks to have written down.
pub proof fn lemma_completed_round_moves_cursor(l: SyncLoopView, next_batch: Seq<char>)
    requires
        !l.ended(),
        l.awaiting == Awaiting::Round,
    ensures
        l.step(SyncEventView::RoundCompleted { next_batch }).0.cursor == Some(next_batch),
        l.step(SyncEventView::RoundCompleted { next_batch }).1 == (SyncActionView::PersistCursor {
            token: next_batch,
        }),
{
}

/// Whatever happens, what the loop waits for goes on fitting its stage.
pub proof fn lemma_run_keeps_wf(l: SyncLoopView, events: Seq<SyncEventView>)
    requires
        l.wf(),
    ensures
        l.run(events).wf(),
    decreases events.len(),
{
    if events.len() > 0 {
        lemma_run_keeps_wf(l, events.drop_last());
    }
}

/// Messages are handled only once the loop has caught up: the handler for
/// them is asked for in the steady state and in no other.
pub proof fn lemma_commands_follow_catch_up(l: SyncLoopView, event: SyncEventView)
    requires
        l.wf(),
        l.step(event).1 == SyncActionView::RegisterCommandHandler,
    ensures
        l.step(event).0.state == SyncState::SteadyState,
        l.step(event).0.cursor is Some,
        l.state == SyncState::CatchingUp || l.state == SyncState::SteadyState,
{
}

/// Without a completed round the cursor does not move, however many rounds
/// fail and whatever else happens.
pub proof fn lemma_cursor_moves_only_on_completed_round(
    l: SyncLoopView,
    events: Seq<SyncEventView>,
)
    requires
        forall|i: int| 0 <= i < events.len() ==> !(events[i] is RoundCompleted),
    ensures
        l.run(events).cursor == l.cursor,
    decreases events.len(),
{
    if events.len() > 0 {
        lemma_cursor_moves_only_on_completed_round(l, events.drop_last());
    }
}

/// The cursor is the one that the loop started with, or the place that a
/// completed round among the events named.
pub proof fn lemma_cursor_comes_from_completed_round(l: SyncLoopView, events: Seq<SyncEventView>)
    ensures
        l.run(events).cursor == l.cursor || exists|i: int|
            0 <= i < events.len() && #[trigger] events[i] == (SyncEventView::RoundCompleted {
                next_batch: l.run(events).cursor->0,
            }) && l.run(events).cursor is Some,
    decreases events.len(),
{
    if events.len() > 0 {
        let before = events.drop_last();
        lemma_cursor_comes_from_completed_round(l, before);
        let mid = l.run(before);
        let end = l.run(events);
        if end.cursor != mid.cursor {
            assert(events[events.len() - 1] == (SyncEventView::RoundCompleted {
                next_batch: end.cursor->0,
            }));
        } else if mid.cursor != l.cursor {
            let i = choose|i: int|
                0 <= i < before.len() && #[trigger] before[i] == (SyncEventView::RoundCompleted {
                    next_batch: mid.cursor->0,
                });
            assert(events[i] == before[i]);
        }
    }
}

/// A run that ends at any time after a round was written down is followed
/// by a run that goes on from that round: the place that the completed round
/// named is what the loop asks to have written down, what the record then
/// gives back, and what the next loop asks the server to go on from. So the
/// next run sees again the events of no round but those that came after.
pub proof fn lemma_restart_goes_on_from_persisted_round(
    l: SyncLoopView,
    next_batch: Seq<char>,
    session: FullSessionView,
    purge_devices: bool,
)
    requires
        !l.ended(),
        l.awaiting == Awaiting::Round,
    ensures
        l.step(SyncEventView::RoundCompleted { next_batch }).1 == (SyncActionView::PersistCursor {
            token: next_batch,
        }),
        restore_cursor(session.with_sync_token(Some(next_batch)), true) == Ok::<
            Option<Seq<char>>,
            Error,
        >(Some(next_batch)),
        SyncLoopView::initial(Some(next_batch), purge_devices).step(SyncEventView::Registered).1
            == (SyncActionView::SyncOnce { since: Some(next_batch) }),
{
}

/// A loop that starts with the cursor of an earlier session asks first for
/// what is new after that cursor.
pub proof fn lemma_restart_resumes_at_cursor(cursor: Option<Seq<char>>, purge_devices: bool)
    ensures
        SyncLoopView::initial(cursor, purge_devices).step(SyncEventView::Registered).1 == (
        SyncActionView::SyncOnce { since: cursor }),
{
}

/// The event tells how what the action asked for ended. The loss of the
/// connection and the request to stop answer whatever was asked for.
pub open spec fn answers(action: SyncActionView, event: SyncEventView) -> bool {
    match action {
        SyncActionView::RegisterInviteHandler | SyncActionView::RegisterCommandHandler => event
            is Registered || event is ConnectionLost || event is Stopped,
        SyncActionView::SyncOnce { since } => event is RoundCompleted || event is RoundFailed
            || event is ConnectionLost || event is Stopped,
        SyncActionView::PersistCursor { token } => event is CursorPersisted || event
            is PersistFailed || event is ConnectionLost || event is Stopped,
        SyncActionView::PurgeDevices => event is DevicesPurged || event is PurgeFailed || event
            is ConnectionLost || event is Stopped,
        SyncActionView::Halt | SyncActionView::Wait => false,
    }
}

/// The loop is never left waiting: told how what it asked for ended, it
/// asks for the next thing or ends. This holds from the first action on.
pub proof fn lemma_answer_is_taken(l: SyncLoopView, event: SyncEventView, answer: SyncEventView)
    ensures
        answers(l.step(event).1, answer) ==> l.step(event).0.step(answer).1
            != SyncActionView::Wait,
        answers(SyncActionView::RegisterInviteHandler, answer) ==> SyncLoopView::initial(
            l.cursor,
            l.purge_devices,
        ).step(answer).1 != SyncActionView::Wait,
{
}

/// The devices of `devices` other than `current`, in their order. Without a
/// current device every device is another one.
pub open spec fn other_devices_spec(devices: Seq<Seq<char>>, current: Option<Seq<char>>) -> Seq<
    Seq<char>,
> {
    devices.filter(|device: Seq<char>| Some(device) != current)
}

/// The devices of the account that are to be deleted: all but the one that
/// the bot itself runs as.
pub fn other_devices(devices: &Vec<String>, current: &Option<String>) -> (r: Vec<String>)
    ensures
        r.deep_view() == other_devices_spec(devices.deep_view(), current.deep_view()),
{
    let ghost all = devices.deep_view();
    let ghost is_other = |device: Seq<char>| Some(device) != current.deep_view();
    let n: usize = devices.len();
    let mut out: Vec<String> = Vec::new();
    let mut i: usize = 0;
    assert(all.take(0).filter(is_other) =~= Seq::<Seq<char>>::empty());
    assert(out.deep_view() =~= Seq::<Seq<char>>::empty());
    while i < n
        invariant
            n == devices.len(),
            i <= n,
            all == devices.deep_view(),
            is_other == |device: Seq<char>| Some(device) != current.deep_view(),
            out.deep_view() == all.take(i as int).filter(is_other),
        decreases n - i,
    {
        let device: &String = &devices[i];
        let is_current: bool = match current {
            Some(c) => *c == *device,
            None => false,
        };
        proof {
            reveal(Seq::filter);
            assert(all.take(i + 1).drop_last() =~= all.take(i as int));
            assert(all.take(i + 1).last() == device@);
            assert(is_other(device@) == !is_current);
        }
        if !is_current {
            let ghost before = out.deep_view();
            out.push(device.clone());
            assert(out.deep_view() =~= before.push(device@));
        }
        i += 1;
    }
    assert(all.take(n as int) =~= all);
    out
}

} // verus!
