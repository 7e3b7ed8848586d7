use matrix_sed::membership::{
    on_stripped_state_member, JoinRetry, JoinStep, DELAY_LIMIT, FIRST_DELAY,
};

#[test]
fn invitation_for_the_bot_starts_at_two_seconds() {
    let state = on_stripped_state_member("@bot:example.org", "@bot:example.org");
    assert_eq!(state, Some(JoinRetry { delay: 2 }));
    assert_eq!(JoinRetry::new(), JoinRetry { delay: FIRST_DELAY });
}

#[test]
fn invitation_for_another_member_is_ignored() {
    assert_eq!(on_stripped_state_member("@alice:example.org", "@bot:example.org"), None);
}

#[test]
fn success_ends_the_attempts() {
    assert_eq!(JoinRetry::new().after_attempt(true), JoinStep::Joined);
    assert_eq!(JoinRetry { delay: 2048 }.after_attempt(true), JoinStep::Joined);
}

#[test]
fn failures_double_the_wait_until_it_passes_the_limit() {
    let mut state = JoinRetry::new();
    let mut waits = Vec::new();
    let last = loop {
        match state.after_attempt(false) {
            JoinStep::Retry { wait, next } => {
                waits.push(wait);
                state = next;
            }
            JoinStep::GiveUp { wait } => break wait,
            JoinStep::Joined => unreachable!(),
        }
    };
    assert_eq!(waits, vec![2, 4, 8, 16, 32, 64, 128, 256, 512, 1024]);
    assert_eq!(last, 2048);
    assert!(2 * last > DELAY_LIMIT);
}

#[test]
fn wait_of_exactly_half_the_limit_is_followed_by_another_attempt() {
    assert_eq!(
        JoinRetry { delay: 1800 }.after_attempt(false),
        JoinStep::Retry { wait: 1800, next: JoinRetry { delay: 3600 } }
    );
    assert_eq!(JoinRetry { delay: 1801 }.after_attempt(false), JoinStep::GiveUp { wait: 1801 });
    assert_eq!(JoinRetry { delay: 3600 }.after_attempt(false), JoinStep::GiveUp { wait: 3600 });
}

#[test]
fn huge_wait_does_not_overflow() {
    assert_eq!(
        JoinRetry { delay: u64::MAX }.after_attempt(false),
        JoinStep::GiveUp { wait: u64::MAX }
    );
}
