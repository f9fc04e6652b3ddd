//! Bounded exponential backoff shared by every retry loop.
//!
//! A retry loop starts with a wait of one second. Each failure doubles the
//! wait, up to three minutes, and the loop then sleeps for the new wait. The
//! sleeps of one loop are therefore 2, 4, 8, ..., 128, 180, 180, ... seconds.

use vstd::prelude::*;

verus! {

/// Longest pause between two attempts, in seconds.
pub const MAX_WAIT_SECS: u64 = 180;

/// Wait that a fresh retry loop starts from, in seconds.
pub const INITIAL_WAIT_SECS: u64 = 1;

/// The wait that follows a wait of `wait` seconds: twice as long, capped.
pub open spec fn next_wait_spec(wait: int) -> int {
    if 2 * wait < MAX_WAIT_SECS as int {
        2 * wait
    } else {
        MAX_WAIT_SECS as int
    }
}

/// The wait of a retry loop after `failures` failures in a row.
pub open spec fn wait_after(failures: nat) -> int
    decreases failures,
{
    if failures == 0 {
        INITIAL_WAIT_SECS as int
    } else {
        next_wait_spec(wait_after((failures - 1) as nat))
    }
}

/// The first `count` sleeps of a retry loop, in the order in which they happen.
pub open spec fn sleeps(count: nat) -> Seq<int> {
    Seq::new(count, |i: int| wait_after((i + 1) as nat))
}

/// Doubles `wait`, never going above [`MAX_WAIT_SECS`].
pub fn next_wait(wait: u64) -> (next: u64)
    ensures
        next == next_wait_spec(wait as int),
{
    if wait < MAX_WAIT_SECS / 2 {
        2 * wait
    } else {
        MAX_WAIT_SECS
    }
}

/// The state of one retry loop: how long the last sleep was.
#[derive(Clone, Copy)]
pub struct Backoff {
    wait: u64,
    failures: Ghost<nat>,
}

impl Backoff {
    /// The wait in seconds that the next failure will double.
    pub closed spec fn wait(&self) -> int {
        self.wait as int
    }

    /// How many failures this loop has seen.
    pub closed spec fn failures(&self) -> nat {
        self.failures@
    }

    /// The wait is the one that the schedule gives for the failures seen.
    #[verifier::type_invariant]
    spec fn wf(&self) -> bool {
        self.wait as int == wait_after(self.failures@)
    }

    /// A retry loop that has not failed yet.
    pub fn new() -> (fresh: Backoff)
        ensures
            fresh.failures() == 0,
            fresh.wait() == INITIAL_WAIT_SECS,
    {
        Backoff { wait: INITIAL_WAIT_SECS, failures: Ghost(0) }
    }

    /// Records one more failure and returns the seconds to sleep before the
    /// next attempt.
    pub fn fail(&mut self) -> (sleep: u64)
        ensures
            final(self).failures() == old(self).failures() + 1,
            final(self).wait() == sleep,
            sleep == wait_after(final(self).failures()),
            sleep == next_wait_spec(old(self).wait()),
    {
        proof {
            use_type_invariant(&*self);
        }
        let sleep: u64 = next_wait(self.wait);
        *self = Backoff { wait: sleep, failures: Ghost((self.failures@ + 1) as nat) };
        sleep
    }

    /// The seconds slept after the last failure, or the initial wait.
    pub fn current(&self) -> (wait: u64)
        ensures
            wait == self.wait(),
            wait == wait_after(self.failures()),
    {
        proof {
            use_type_invariant(self);
        }
        self.wait
    }
}

/// The first `count` sleeps of a retry loop that keeps failing.
pub fn sleep_schedule(count: usize) -> (schedule: Vec<u64>)
    ensures
        schedule@.len() == count,
        forall|i: int| 0 <= i < count ==> schedule@[i] as int == #[trigger] sleeps(count as nat)[i],
{
    let mut schedule: Vec<u64> = Vec::new();
    let mut backoff = Backoff::new();
    let mut done: usize = 0;
    while done < count
        invariant
            done <= count,
            backoff.failures() == done,
            schedule@.len() == done,
            forall|i: int| 0 <= i < done ==> schedule@[i] as int == wait_after((i + 1) as nat),
        decreases count - done,
    {
        let sleep: u64 = backoff.fail();
        schedule.push(sleep);
        done += 1;
    }
    schedule
}

/// Every wait of the schedule lies between the initial wait and the cap.
pub proof fn lemma_wait_bounds(failures: nat)
    ensures
        INITIAL_WAIT_SECS <= wait_after(failures) <= MAX_WAIT_SECS,
    decreases failures,
{
    if failures > 0 {
        lemma_wait_bounds((failures - 1) as nat);
    }
}

/// One more failure never shortens the wait.
pub proof fn lemma_wait_step(failures: nat)
    ensures
        wait_after(failures) <= wait_after(failures + 1),
{
    lemma_wait_bounds(failures);
    assert(wait_after(failures + 1) == next_wait_spec(wait_after(failures)));
}

/// Inside a retry loop the sleeps never get shorter and none is longer than
/// three minutes: for any two sleeps of the loop, the earlier is at most the
/// later, and the later is at most [`MAX_WAIT_SECS`].
pub proof fn law_backoff_monotone(count: nat, earlier: int, later: int)
    requires
        0 <= earlier <= later < count,
    ensures
        sleeps(count)[earlier] <= sleeps(count)[later],
        sleeps(count)[later] <= MAX_WAIT_SECS,
        sleeps(count)[earlier] >= INITIAL_WAIT_SECS,
    decreases later - earlier,
{
    lemma_wait_bounds((later + 1) as nat);
    lemma_wait_bounds((earlier + 1) as nat);
    if earlier < later {
        law_backoff_monotone(count, earlier, later - 1);
        lemma_wait_step(later as nat);
    }
}

/// Once the wait has reached the cap it stays there.
pub proof fn law_backoff_saturates(failures: nat)
    requires
        wait_after(failures) == MAX_WAIT_SECS,
    ensures
        wait_after(failures + 1) == MAX_WAIT_SECS,
{
    assert(wait_after(failures + 1) == next_wait_spec(wait_after(failures)));
}

} // verus!
