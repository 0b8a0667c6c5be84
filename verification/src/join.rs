//! Joining a room on invitation, and trying again when joining fails.

use crate::text::same_text;
use vstd::prelude::*;

verus! {

/// The delay before the first retry, in seconds.
pub const FIRST_DELAY_SECS: u64 = 1;

/// The longest delay after which another retry is made, in seconds.
pub const MAX_DELAY_SECS: u64 = 3600;

/// Whether an invitation is taken up: it is addressed to the bot itself,
/// and the room is one the bot is invited to.
pub fn should_join(invited_user: &str, own_id: &str, room_invited: bool) -> (join: bool)
    ensures
        join == (invited_user@ == own_id@ && room_invited),
{
    same_text(invited_user, own_id) && room_invited
}

/// What to do after a failed attempt to join.
#[derive(Clone, Copy, Debug, PartialEq, Eq, Structural)]
pub struct Retry {
    /// How long to wait, in seconds.
    pub wait: u64,
    /// Whether to try again after the wait, or to give up.
    pub again: bool,
}

/// The exponential backoff between attempts to join a room.
#[derive(Clone, Copy, Debug, PartialEq, Eq, Structural)]
pub struct JoinBackoff {
    /// The wait after the next failure, in seconds.
    pub delay: u64,
}

/// Twice `delay`, as far as it can be held.
pub open spec fn doubled(delay: u64) -> u64 {
    if 2 * delay <= u64::MAX {
        (2 * delay) as u64
    } else {
        u64::MAX
    }
}

/// The wait after the failure that follows `failures` others.
pub open spec fn delay_after(failures: nat) -> u64
    decreases failures,
{
    if failures == 0 {
        FIRST_DELAY_SECS
    } else {
        doubled(delay_after((failures - 1) as nat))
    }
}

/// Whether another attempt follows a wait of `delay`: it does unless the
/// next delay would be longer than the longest allowed.
pub open spec fn tries_again(delay: u64) -> bool {
    doubled(delay) <= MAX_DELAY_SECS
}

impl JoinBackoff {
    /// The backoff before any failure.
    pub fn new() -> (backoff: JoinBackoff)
        ensures
            backoff.delay == delay_after(0),
    {
        JoinBackoff { delay: FIRST_DELAY_SECS }
    }

    /// Notes a failed attempt: the wait is the current delay, the delay
    /// doubles, and another attempt follows unless the doubled delay is
    /// longer than the longest allowed.
    pub fn on_failure(&mut self) -> (retry: Retry)
        ensures
            retry.wait == old(self).delay,
            retry.again == tries_again(old(self).delay),
            final(self).delay == doubled(old(self).delay),
    {
        let wait = self.delay;
        let next = if wait > u64::MAX / 2 {
            u64::MAX
        } else {
            wait * 2
        };
        self.delay = next;
        Retry { wait, again: next <= MAX_DELAY_SECS }
    }
}

/// The waits double from one second on, and the twelfth failure in a row
/// is the last: the wait after it is 2048 seconds, and no attempt follows.
pub proof fn lemma_twelve_attempts()
    ensures
        forall|k: nat| k < 11 ==> tries_again(#[trigger] delay_after(k)),
        !tries_again(delay_after(11)),
        delay_after(11) == 2048,
        delay_after(0) == 1,
        forall|k: nat| k < 11 ==> delay_after(k + 1) == 2 * #[trigger] delay_after(k),
{
    reveal_with_fuel(delay_after, 13);
    assert(delay_after(0) == 1);
    assert(delay_after(1) == 2);
    assert(delay_after(2) == 4);
    assert(delay_after(3) == 8);
    assert(delay_after(4) == 16);
    assert(delay_after(5) == 32);
    assert(delay_after(6) == 64);
    assert(delay_after(7) == 128);
    assert(delay_after(8) == 256);
    assert(delay_after(9) == 512);
    assert(delay_after(10) == 1024);
    assert(delay_after(11) == 2048);
    assert forall|k: nat| k < 11 implies tries_again(#[trigger] delay_after(k)) && delay_after(
        k + 1,
    ) == 2 * delay_after(k) by {
        if k == 0 {
        } else if k == 1 {
        } else if k == 2 {
        } else if k == 3 {
        } else if k == 4 {
        } else if k == 5 {
        } else if k == 6 {
        } else if k == 7 {
        } else if k == 8 {
        } else if k == 9 {
        } else {
            assert(k == 10);
        }
    }
}

} // verus!
