//! One round of the coin-flip trial, and the labels and directories of trials.
use vstd::prelude::*;
use crate::clock::TrialClock;
use crate::stats::{alerts, score_of, Tally, ALERT_THRESHOLD};

verus! {

// Relies on rand's `random`: a value drawn from the thread-local generator.
// Nothing can be promised of it.
pub assume_specification<T>[ rand::random::<T> ]() -> (r: T)
    where
        rand::distributions::Standard: rand::distributions::Distribution<T>,
;

/// Draws a fair coin: `true` for a one, `false` for a zero.
pub fn flip_coin() -> bool {
    rand::random::<bool>()
}

/// What one round of the coin-flip trial drew and decided.
#[derive(Clone, Copy, Debug, PartialEq, Eq, Structural)]
pub struct Round {
    pub bit: bool,
    pub alert: bool,
    pub elapsed_ms: u128,
    pub finished: bool,
}

impl Round {
    /// The digit printed for the round's draw.
    pub fn digit(&self) -> (r: u8)
        ensures
            r == (if self.bit { 1u8 } else { 0u8 }),
    {
        if self.bit {
            1
        } else {
            0
        }
    }
}

/// Plays one round: draws a coin, counts it, decides whether the new score
/// calls for an alert, and reads the clock to decide whether the trial is over.
pub fn rng_round(tally: &mut Tally, clock: &mut TrialClock) -> (r: Round)
    requires
        old(tally).rounds() < u64::MAX,
        old(clock).on_time(),
        !old(clock).finished(),
    ensures
        r.bit ==> final(tally).ones == old(tally).ones + 1 && final(tally).zeros == old(tally).zeros,
        !r.bit ==> final(tally).ones == old(tally).ones && final(tally).zeros == old(tally).zeros + 1,
        r.alert == score_of(final(tally).ones as int, final(tally).zeros as int).exceeds(
            ALERT_THRESHOLD as int,
        ),
        final(clock).readings() == old(clock).readings().push(r.elapsed_ms as int),
        final(clock).deadline == old(clock).deadline,
        final(clock).on_time(),
        r.finished == final(clock).finished(),
        r.finished == final(clock).deadline.reached_at(r.elapsed_ms as int),
{
    let bit = flip_coin();
    tally.record(bit);
    let alert = alerts(tally.ones, tally.zeros);
    let reading = clock.poll();
    Round { bit, alert, elapsed_ms: reading.elapsed_ms, finished: reading.finished }
}

/// The name of a trial's kind: `"trial"` for an active run, `"control"` for
/// the baseline.
pub fn trial_label(active_trial: bool) -> (r: &'static str)
    ensures
        active_trial ==> r@ == "trial"@,
        !active_trial ==> r@ == "control"@,
{
    if active_trial {
        "trial"
    } else {
        "control"
    }
}

/// The directory a candle trial writes its frames to:
/// `./experiments/<output_dir>/<trial|control>`.
pub fn experiment_dir(output_dir: &str, active_trial: bool) -> (r: String)
    ensures
        r@ == "./experiments/"@ + output_dir@ + "/"@ + (if active_trial {
            "trial"@
        } else {
            "control"@
        }),
{
    let mut dir = String::from_str("./experiments/");
    dir.append(output_dir);
    dir.append("/");
    dir.append(trial_label(active_trial));
    dir
}

/// The decimal digits of `n`, most significant first, without sign or
/// leading zeros.
pub open spec fn decimal_of(n: nat) -> Seq<char>
    decreases n,
{
    let digit = seq!['0', '1', '2', '3', '4', '5', '6', '7', '8', '9'][(n % 10) as int];
    if n < 10 {
        seq![digit]
    } else {
        decimal_of(n / 10).push(digit)
    }
}

/// Relies on std's `Display` for `u64`, through `to_string`: the number in
/// decimal, with no sign or padding.
#[verifier::external_body]
fn decimal(n: u64) -> (r: String)
    ensures
        r@ == decimal_of(n as nat),
{
    n.to_string()
}

/// The file a candle trial saves frame number `index`, taken at `now`
/// seconds since the Unix epoch, to: `<dir>/<index>-<now>.jpg`.
pub fn frame_path(dir: &str, index: u64, now: u64) -> (r: String)
    ensures
        r@ == dir@ + "/"@ + decimal_of(index as nat) + "-"@ + decimal_of(now as nat) + ".jpg"@,
{
    let mut path = String::from_str(dir);
    path.append("/");
    let i = decimal(index);
    path.append(i.as_str());
    path.append("-");
    let t = decimal(now);
    path.append(t.as_str());
    path.append(".jpg");
    path
}

} // verus!
