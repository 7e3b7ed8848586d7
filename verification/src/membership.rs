//! Joining the rooms that the bot is invited to.
//!
//! An invitation can arrive before the server lets the invited user in, so
//! a failed attempt to join is repeated: after 2 seconds, then after 4, and
//! so on, each wait twice the one before. Once the next wait would be longer
//! than an hour the invitation is given up.

use vstd::prelude::*;
use crate::text::same_text;

verus! {

/// The wait after the first failed attempt, in seconds.
pub const FIRST_DELAY: u64 = 2;

/// The longest wait that is still followed by another attempt, in seconds.
pub const DELAY_LIMIT: u64 = 3600;

/// The wait after the failed attempt number `failures + 1`, in seconds.
pub open spec fn delay_of(failures: nat) -> nat
    decreases failures,
{
    if failures == 0 {
        2
    } else {
        2 * delay_of((failures - 1) as nat)
    }
}

/// Where the attempts to answer one invitation stand: how long to wait if
/// the next attempt fails.
#[derive(Clone, Copy, Debug, PartialEq, Eq, Structural)]
pub struct JoinRetry {
    pub delay: u64,
}

/// What to do after an attempt to join.
#[derive(Clone, Copy, Debug, PartialEq, Eq, Structural)]
pub enum JoinStep {
    /// The bot is in the room.
    Joined,
    /// Wait `wait` seconds, then try again in the state `next`.
    Retry { wait: u64, next: JoinRetry },
    /// Wait `wait` seconds, then report that the room cannot be joined.
    GiveUp { wait: u64 },
}

impl JoinRetry {
    /// The state before the first attempt.
    pub open spec fn initial() -> JoinRetry {
        JoinRetry { delay: FIRST_DELAY }
    }

    /// What follows an attempt that ended as `joined` says.
    pub open spec fn step_spec(self, joined: bool) -> JoinStep {
        if joined {
            JoinStep::Joined
        } else if 2 * self.delay > DELAY_LIMIT {
            JoinStep::GiveUp { wait: self.delay }
        } else {
            JoinStep::Retry { wait: self.delay, next: JoinRetry { delay: (2 * self.delay) as u64 } }
        }
    }

    /// The state before the first attempt.
    pub fn new() -> (r: JoinRetry)
        ensures
            r == JoinRetry::initial(),
    {
        JoinRetry { delay: FIRST_DELAY }
    }

    /// Says what follows an attempt to join: nothing more after a success;
    /// after a failure the wait, and whether another attempt follows it.
    pub fn after_attempt(&self, joined: bool) -> (r: JoinStep)
        ensures
            r == self.step_spec(joined),
    {
        if joined {
            JoinStep::Joined
        } else if self.delay > DELAY_LIMIT / 2 {
            JoinStep::GiveUp { wait: self.delay }
        } else {
            JoinStep::Retry { wait: self.delay, next: JoinRetry { delay: 2 * self.delay } }
        }
    }
}

/// The state after `failures` failed attempts in a row, or nothing once the
/// invitation has been given up.
pub open spec fn after_failures(failures: nat) -> Option<JoinRetry>
    decreases failures,
{
    if failures == 0 {
        Some(JoinRetry::initial())
    } else {
        match after_failures((failures - 1) as nat) {
            Some(state) => match state.step_spec(false) {
                JoinStep::Retry { wait, next } => Some(next),
                _ => None,
            },
            None => None,
        }
    }
}

/// The waits double from 2 seconds on: after the failed attempt number
/// `failures + 1` the wait is `delay_of(failures)`. Ten failures are each
/// followed by another attempt; the eleventh, after which the wait would
/// pass the limit, is followed by none, and nothing is tried after that.
pub proof fn lemma_backoff_schedule(failures: nat)
    ensures
        failures <= 10 ==> after_failures(failures) == Some(
            JoinRetry { delay: delay_of(failures) as u64 },
        ) && delay_of(failures) <= 2048,
        failures < 10 ==> after_failures(failures).unwrap().step_spec(false) == (JoinStep::Retry {
            wait: delay_of(failures) as u64,
            next: JoinRetry { delay: delay_of(failures + 1) as u64 },
        }),
        failures == 10 ==> after_failures(failures).unwrap().step_spec(false) == (JoinStep::GiveUp {
            wait: 2048,
        }),
        failures > 10 ==> after_failures(failures) is None,
    decreases failures,
{
    if failures > 0 {
        lemma_backoff_schedule((failures - 1) as nat);
    }
    if failures <= 10 {
        lemma_delay_bounds(failures);
    }
}

/// The waits up to the eleventh: at least 2 and at most 2048 seconds, and
/// 2048 exactly for the eleventh.
pub proof fn lemma_delay_bounds(failures: nat)
    requires
        failures <= 10,
    ensures
        2 <= delay_of(failures) <= 2048,
        failures < 10 ==> delay_of(failures) <= 1024,
        failures == 10 ==> delay_of(failures) == 2048,
    decreases failures,
{
    reveal_with_fuel(delay_of, 12);
}

/// Answers an invitation: a retry state to start from where the invited
/// member is the bot itself, nothing where the invitation is for another.
pub fn on_stripped_state_member(state_key: &str, own_user_id: &str) -> (r: Option<JoinRetry>)
    ensures
        r == if state_key@ == own_user_id@ {
            Some(JoinRetry::initial())
        } else {
            None
        },
{
    if same_text(state_key, own_user_id) {
        Some(JoinRetry::new())
    } else {
        None
    }
}

} // verus!
