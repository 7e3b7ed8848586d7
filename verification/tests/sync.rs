use matrix_sed::sync::{other_devices, Awaiting, SyncAction, SyncEvent, SyncLoop, SyncState};

fn completed(token: &str) -> SyncEvent {
    SyncEvent::RoundCompleted { next_batch: token.to_string() }
}

fn sync_once(since: Option<&str>) -> SyncAction {
    SyncAction::SyncOnce { since: since.map(|s| s.to_string()) }
}

fn persist(token: &str) -> SyncAction {
    SyncAction::PersistCursor { token: token.to_string() }
}

fn caught_up(cursor: Option<&str>, purge: bool) -> SyncLoop {
    let (mut l, _) = SyncLoop::new(cursor.map(|s| s.to_string()), purge);
    l.step(SyncEvent::Registered);
    l.step(completed("s1"));
    l
}

fn steady(purge: bool) -> SyncLoop {
    let mut l = caught_up(None, purge);
    l.step(SyncEvent::CursorPersisted);
    if purge {
        l.step(SyncEvent::DevicesPurged);
    }
    l.step(SyncEvent::Registered);
    l
}

#[test]
fn loop_starts_by_having_invitations_handled() {
    let (l, action) = SyncLoop::new(None, false);
    assert_eq!(action, SyncAction::RegisterInviteHandler);
    assert_eq!(l.state(), SyncState::Bootstrapping);
    assert_eq!(l.awaiting(), Awaiting::Registration);
    assert_eq!(l.cursor(), &None);
}

#[test]
fn catch_up_starts_from_the_restored_cursor() {
    let (mut l, _) = SyncLoop::new(Some("s0".to_string()), false);
    assert_eq!(l.step(SyncEvent::Registered), sync_once(Some("s0")));
    assert_eq!(l.state(), SyncState::CatchingUp);
    let (mut fresh, _) = SyncLoop::new(None, false);
    assert_eq!(fresh.step(SyncEvent::Registered), sync_once(None));
}

#[test]
fn failed_catch_up_round_is_asked_for_again() {
    let (mut l, _) = SyncLoop::new(Some("s0".to_string()), false);
    l.step(SyncEvent::Registered);
    for _ in 0..5 {
        assert_eq!(l.step(SyncEvent::RoundFailed), sync_once(Some("s0")));
        assert_eq!(l.state(), SyncState::CatchingUp);
        assert_eq!(l.cursor(), &Some("s0".to_string()));
    }
}

#[test]
fn completed_catch_up_round_is_written_down_at_once() {
    let (mut l, _) = SyncLoop::new(None, false);
    l.step(SyncEvent::Registered);
    assert_eq!(l.step(completed("s1")), persist("s1"));
    assert_eq!(l.cursor(), &Some("s1".to_string()));
    assert_eq!(l.state(), SyncState::CatchingUp);
    assert_eq!(l.awaiting(), Awaiting::Persist);
}

#[test]
fn steady_state_follows_catch_up() {
    let mut l = caught_up(None, false);
    assert_eq!(l.step(SyncEvent::CursorPersisted), SyncAction::RegisterCommandHandler);
    assert_eq!(l.state(), SyncState::SteadyState);
    assert_eq!(l.step(SyncEvent::Registered), sync_once(Some("s1")));
    assert_eq!(l.state(), SyncState::SteadyState);
    assert_eq!(l.awaiting(), Awaiting::Round);
}

#[test]
fn devices_are_purged_before_commands_are_handled() {
    let mut l = caught_up(None, true);
    assert_eq!(l.step(SyncEvent::CursorPersisted), SyncAction::PurgeDevices);
    assert_eq!(l.awaiting(), Awaiting::Purge);
    assert_eq!(l.step(SyncEvent::DevicesPurged), SyncAction::RegisterCommandHandler);
    assert_eq!(l.step(SyncEvent::Registered), sync_once(Some("s1")));
}

#[test]
fn failed_purge_ends_the_loop() {
    let mut l = caught_up(None, true);
    l.step(SyncEvent::CursorPersisted);
    assert_eq!(l.step(SyncEvent::PurgeFailed), SyncAction::Halt);
    assert_eq!(l.state(), SyncState::Crashed);
    assert_eq!(l.awaiting(), Awaiting::Nothing);
}

#[test]
fn steady_rounds_move_the_cursor_after_each_completed_round() {
    let mut l = steady(false);
    assert_eq!(l.step(completed("s2")), persist("s2"));
    assert_eq!(l.cursor(), &Some("s2".to_string()));
    assert_eq!(l.step(SyncEvent::CursorPersisted), sync_once(Some("s2")));
    assert_eq!(l.step(completed("s3")), persist("s3"));
    assert_eq!(l.step(SyncEvent::CursorPersisted), sync_once(Some("s3")));
    assert_eq!(l.state(), SyncState::SteadyState);
}

#[test]
fn failed_steady_round_keeps_the_cursor() {
    let mut l = steady(true);
    l.step(completed("s2"));
    l.step(SyncEvent::CursorPersisted);
    assert_eq!(l.step(SyncEvent::RoundFailed), sync_once(Some("s2")));
    assert_eq!(l.step(SyncEvent::RoundFailed), sync_once(Some("s2")));
    assert_eq!(l.cursor(), &Some("s2".to_string()));
    assert_eq!(l.state(), SyncState::SteadyState);
    assert_eq!(l.step(completed("s3")), persist("s3"));
}

#[test]
fn cursor_that_cannot_be_written_ends_the_loop() {
    let mut l = caught_up(None, false);
    assert_eq!(l.step(SyncEvent::PersistFailed), SyncAction::Halt);
    assert_eq!(l.state(), SyncState::Crashed);
    let mut s = steady(false);
    s.step(completed("s2"));
    assert_eq!(s.step(SyncEvent::PersistFailed), SyncAction::Halt);
    assert_eq!(s.state(), SyncState::Crashed);
}

#[test]
fn lost_connection_crashes_and_stop_terminates() {
    let mut l = steady(false);
    assert_eq!(l.step(SyncEvent::ConnectionLost), SyncAction::Halt);
    assert_eq!(l.state(), SyncState::Crashed);
    assert_eq!(l.cursor(), &Some("s1".to_string()));
    let mut s = steady(false);
    assert_eq!(s.step(SyncEvent::Stopped), SyncAction::Halt);
    assert_eq!(s.state(), SyncState::Terminated);
    let (mut b, _) = SyncLoop::new(None, false);
    assert_eq!(b.step(SyncEvent::Stopped), SyncAction::Halt);
    assert_eq!(b.state(), SyncState::Terminated);
}

#[test]
fn ended_loop_stays_ended() {
    let mut l = steady(false);
    l.step(SyncEvent::ConnectionLost);
    for event in [
        SyncEvent::Registered,
        completed("s9"),
        SyncEvent::RoundFailed,
        SyncEvent::CursorPersisted,
        SyncEvent::Stopped,
    ] {
        assert_eq!(l.step(event), SyncAction::Halt);
        assert_eq!(l.state(), SyncState::Crashed);
        assert_eq!(l.cursor(), &Some("s1".to_string()));
    }
}

#[test]
fn what_was_not_waited_for_changes_nothing() {
    let (mut l, _) = SyncLoop::new(Some("s0".to_string()), true);
    for event in [
        completed("s9"),
        SyncEvent::RoundFailed,
        SyncEvent::CursorPersisted,
        SyncEvent::PersistFailed,
        SyncEvent::DevicesPurged,
        SyncEvent::PurgeFailed,
    ] {
        assert_eq!(l.step(event), SyncAction::Wait);
        assert_eq!(l.state(), SyncState::Bootstrapping);
        assert_eq!(l.awaiting(), Awaiting::Registration);
        assert_eq!(l.cursor(), &Some("s0".to_string()));
    }
    let mut s = steady(false);
    assert_eq!(s.step(SyncEvent::CursorPersisted), SyncAction::Wait);
    assert_eq!(s.step(SyncEvent::Registered), SyncAction::Wait);
    assert_eq!(s.step(SyncEvent::DevicesPurged), SyncAction::Wait);
    assert_eq!(s.awaiting(), Awaiting::Round);
}

#[test]
fn other_devices_leaves_out_the_current_one() {
    let devices = vec!["A".to_string(), "B".to_string(), "C".to_string(), "B".to_string()];
    assert_eq!(
        other_devices(&devices, &Some("B".to_string())),
        vec!["A".to_string(), "C".to_string()]
    );
    assert_eq!(other_devices(&devices, &Some("Z".to_string())), devices);
    assert_eq!(other_devices(&devices, &None), devices);
    assert_eq!(other_devices(&Vec::new(), &Some("A".to_string())), Vec::<String>::new());
    assert_eq!(
        other_devices(&vec!["A".to_string()], &Some("A".to_string())),
        Vec::<String>::new()
    );
}
