//! Wall-clock deadlines for timed trials, polled against a monotonic clock.
use vstd::prelude::*;
use std::time::Instant;

verus! {

#[verifier::external_type_specification]
#[verifier::external_body]
pub struct ExInstant(std::time::Instant);

/// Relies on std's `Instant::now`: a reading of the monotonic clock. Nothing
/// is known of its value.
#[verifier::external_body]
fn clock_now() -> Instant {
    Instant::now()
}

/// Relies on std's `Instant::elapsed`: whole milliseconds since `start`.
/// The value depends on the time of the call, so nothing is stated of it.
#[verifier::external_body]
fn millis_since(start: &Instant) -> u128 {
    start.elapsed().as_millis()
}

/// A point in time measured from the start of a trial, in milliseconds.
#[derive(Clone, Copy, Debug, PartialEq, Eq, Structural)]
pub struct Deadline {
    pub limit_ms: u128,
}

impl Deadline {
    /// Whether a reading of `elapsed_ms` lies at or past the deadline.
    pub open spec fn reached_at(self, elapsed_ms: int) -> bool {
        elapsed_ms >= self.limit_ms
    }

    /// The deadline `secs` seconds after the start.
    pub fn after_secs(secs: u64) -> (r: Deadline)
        ensures
            r.limit_ms == 1000 * secs,
    {
        Deadline { limit_ms: 1000 * (secs as u128) }
    }

    /// Whether a reading of `elapsed_ms` ends the wait.
    pub fn is_reached(&self, elapsed_ms: u128) -> (r: bool)
        ensures
            r == self.reached_at(elapsed_ms as int),
    {
        elapsed_ms >= self.limit_ms
    }
}

/// A trial's clock: the instant it started, the deadline it runs to, and the
/// history of its readings in milliseconds since the start.
pub struct TrialClock {
    pub start: Instant,
    pub deadline: Deadline,
    pub readings: Ghost<Seq<int>>,
}

/// One reading of a trial clock.
#[derive(Clone, Copy, Debug, PartialEq, Eq, Structural)]
pub struct Reading {
    pub elapsed_ms: u128,
    pub finished: bool,
}

impl TrialClock {
    /// The readings taken so far, oldest first.
    pub open spec fn readings(&self) -> Seq<int> {
        self.readings@
    }

    /// Whether the latest reading is at or past the deadline.
    pub open spec fn finished(&self) -> bool {
        self.readings().len() > 0 && self.deadline.reached_at(self.readings().last())
    }

    /// Whether every reading before the latest fell short of the deadline:
    /// the clock was not polled on after it finished.
    pub open spec fn on_time(&self) -> bool {
        forall|j: int|
            0 <= j < self.readings().len() - 1 ==> !self.deadline.reached_at(
                #[trigger] self.readings()[j],
            )
    }

    /// Starts a clock that runs for `secs` seconds from now.
    pub fn start(secs: u64) -> (r: TrialClock)
        ensures
            r.deadline.limit_ms == 1000 * secs,
            r.readings() == Seq::<int>::empty(),
            r.on_time(),
    {
        TrialClock {
            start: clock_now(),
            deadline: Deadline::after_secs(secs),
            readings: Ghost(Seq::empty()),
        }
    }

    /// Reads the clock and records the reading; the reading is final exactly
    /// when it is at or past the deadline.
    pub fn poll(&mut self) -> (r: Reading)
        requires
            old(self).on_time(),
            !old(self).finished(),
        ensures
            final(self).readings() == old(self).readings().push(r.elapsed_ms as int),
            final(self).deadline == old(self).deadline,
            final(self).on_time(),
            r.finished == final(self).finished(),
            r.finished == final(self).deadline.reached_at(r.elapsed_ms as int),
    {
        let elapsed_ms = millis_since(&self.start);
        let ghost before = self.readings@;
        self.readings = Ghost(before.push(elapsed_ms as int));
        proof {
            assert forall|j: int| 0 <= j < self.readings@.len() - 1 implies !self.deadline.reached_at(
                #[trigger] self.readings@[j],
            ) by {
                assert(self.readings@[j] == before[j]);
                if j < before.len() - 1 {
                    assert(!self.deadline.reached_at(before[j]));
                }
            }
        }
        Reading { elapsed_ms, finished: self.deadline.is_reached(elapsed_ms) }
    }
}

/// How a wait ended: its last reading, the number of polls, and the clock.
pub struct Wait {
    pub last: Reading,
    pub polls: u64,
    pub clock: TrialClock,
}

/// Busy-waits for `delay` seconds by polling the clock.
///
/// The wait ends at the first reading at or past the deadline, and at no
/// earlier one. The poll counter only bounds the loop for the termination
/// proof: at any polling rate a machine reaches, the clock passes the
/// deadline long before `u64::MAX` polls.
pub fn sleep(delay: u64) -> (r: Wait)
    ensures
        r.clock.deadline.limit_ms == 1000 * delay,
        r.clock.on_time(),
        r.polls >= 1,
        r.polls == r.clock.readings().len(),
        r.clock.readings().last() == r.last.elapsed_ms as int,
        r.last.finished == r.clock.finished(),
        r.last.finished ==> r.last.elapsed_ms >= 1000 * delay,
        !r.last.finished ==> r.polls == u64::MAX,
        delay == 0 ==> r.polls == 1 && r.last.finished,
{
    let mut clock = TrialClock::start(delay);
    let mut last = clock.poll();
    let mut polls: u64 = 1;
    while !last.finished && polls < u64::MAX
        invariant
            clock.deadline.limit_ms == 1000 * delay,
            clock.on_time(),
            1 <= polls,
            polls == clock.readings().len(),
            clock.readings().last() == last.elapsed_ms as int,
            last.finished == clock.finished(),
            last.finished == clock.deadline.reached_at(last.elapsed_ms as int),
            delay == 0 ==> polls == 1 && last.finished,
        decreases u64::MAX - polls,
    {
        last = clock.poll();
        polls = polls + 1;
    }
    Wait { last, polls, clock }
}

/// Whether poll `k` is the one that ends a wait over successive clock
/// `readings`: the first at or past the deadline.
pub open spec fn stopping_poll(d: Deadline, readings: Seq<int>, k: int) -> bool {
    &&& 0 <= k < readings.len()
    &&& d.reached_at(readings[k])
    &&& forall|j: int| 0 <= j < k ==> !d.reached_at(#[trigger] readings[j])
}

/// Whether successive clock readings lie at most `interval` apart, the first
/// at most `interval` after the start.
pub open spec fn polled_every(readings: Seq<int>, interval: int) -> bool {
    &&& readings.len() > 0
    &&& readings[0] <= interval
    &&& forall|i: int| 0 <= i < readings.len() - 1 ==> #[trigger] readings[i + 1] <= readings[i] + interval
}

/// A wait that polls its deadline at least once every `interval` milliseconds
/// and sees the deadline pass ends at a poll no more than one interval after
/// the deadline.
pub proof fn lemma_stops_within_one_interval(d: Deadline, readings: Seq<int>, interval: int)
    requires
        polled_every(readings, interval),
        d.reached_at(readings.last()),
    ensures
        exists|k: int| stopping_poll(d, readings, k) && readings[k] <= d.limit_ms + interval,
{
    lemma_stop_from(d, readings, interval, 0);
}

proof fn lemma_stop_from(d: Deadline, readings: Seq<int>, interval: int, i: int)
    requires
        polled_every(readings, interval),
        d.reached_at(readings.last()),
        0 <= i < readings.len(),
        forall|j: int| 0 <= j < i ==> !d.reached_at(#[trigger] readings[j]),
    ensures
        exists|k: int| stopping_poll(d, readings, k) && readings[k] <= d.limit_ms + interval,
    decreases readings.len() - i,
{
    if d.reached_at(readings[i]) {
        if i > 0 {
            assert(readings[(i - 1) + 1] <= readings[i - 1] + interval);
            assert(!d.reached_at(readings[i - 1]));
        }
        assert(stopping_poll(d, readings, i));
    } else {
        lemma_stop_from(d, readings, interval, i + 1);
    }
}

/// A trial clock that finished without being polled on after its deadline
/// stopped at the first reading at or past the deadline; if it was polled at
/// least once every `interval` milliseconds, that reading is at most one
/// interval late.
pub proof fn lemma_clock_stops_on_time(c: TrialClock, interval: int)
    requires
        c.on_time(),
        c.finished(),
    ensures
        stopping_poll(c.deadline, c.readings(), c.readings().len() - 1),
        polled_every(c.readings(), interval) ==> c.readings().last() <= c.deadline.limit_ms
            + interval,
{
    let rs = c.readings();
    let n = rs.len() - 1;
    if polled_every(rs, interval) && n > 0 {
        assert(rs[(n - 1) + 1] <= rs[n - 1] + interval);
        assert(!c.deadline.reached_at(rs[n - 1]));
    }
}

} // verus!
