//! The readiness wait: a bounded polling loop that probes the backend's TCP
//! listener until it answers or the deadline elapses. The probe itself is a
//! plain connection attempt made by the caller; the library decides how many
//! probes the deadline allows and what each probe result means.

use vstd::prelude::*;

verus! {

/// How long the startup wait keeps probing, in milliseconds.
pub const READINESS_TIMEOUT_MS: u64 = 20000;

/// The pause between two probes, in milliseconds.
pub const POLL_INTERVAL_MS: u64 = 200;

/// How many probes a deadline of `timeout` allows at one probe per
/// `interval`: the count that covers the whole deadline, rounded up.
pub open spec fn poll_budget(timeout: nat, interval: nat) -> nat
    recommends
        interval > 0,
{
    ((timeout + interval - 1) / interval as int) as nat
}

/// What one probe result means for the wait.
#[derive(PartialEq, Eq, Structural, Debug)]
pub enum PollVerdict {
    /// The listener answered: the wait ends successfully at once.
    Ready,
    /// No answer yet and budget remains: sleep one interval and probe again.
    KeepWaiting,
    /// No answer and the deadline is spent: the wait ends with failure.
    TimedOut,
}

/// The state of one readiness wait: how many further probes the deadline
/// still allows.
pub struct ReadinessWait {
    polls_left: u64,
}

/// Whether a wait that still allows `budget` probes succeeds when the
/// successive probe results are `probes`: true exactly when a successful
/// probe appears before both the budget and the observations run out. The
/// deadline is consulted first, so a spent budget probes nothing — a wait
/// with a zero deadline fails without a single connection attempt.
pub open spec fn wait_outcome(budget: nat, probes: Seq<bool>) -> bool
    decreases probes.len(),
{
    if budget == 0 || probes.len() == 0 {
        false
    } else if probes.first() {
        true
    } else {
        wait_outcome((budget - 1) as nat, probes.drop_first())
    }
}

impl ReadinessWait {
    /// How many further probes this wait still allows.
    pub closed spec fn polls_left(&self) -> nat {
        self.polls_left as nat
    }

    /// A wait that probes until `timeout_ms` has elapsed, one probe per
    /// `interval_ms`.
    pub fn new(timeout_ms: u64, interval_ms: u64) -> (w: ReadinessWait)
        requires
            interval_ms > 0,
            timeout_ms + interval_ms <= u64::MAX,
        ensures
            w.polls_left() == poll_budget(timeout_ms as nat, interval_ms as nat),
    {
        ReadinessWait { polls_left: (timeout_ms + interval_ms - 1) / interval_ms }
    }

    /// How one probe result moves the wait along: the deadline is checked
    /// before the probe counts, so a result obtained at or past the deadline
    /// is never consulted.
    pub open spec fn probe_step(
        pre: ReadinessWait,
        post: ReadinessWait,
        reachable: bool,
        v: PollVerdict,
    ) -> bool {
        if pre.polls_left() == 0 {
            v == PollVerdict::TimedOut && post == pre
        } else if reachable {
            v == PollVerdict::Ready && post == pre
        } else {
            v == PollVerdict::KeepWaiting && post.polls_left() == pre.polls_left() - 1
        }
    }

    /// Judges one probe result: a spent deadline times the wait out whatever
    /// the probe said, success within the deadline ends the wait at once,
    /// and failure within it spends one unit of budget.
    pub fn on_probe(&mut self, reachable: bool) -> (v: PollVerdict)
        ensures
            Self::probe_step(*old(self), *final(self), reachable, v),
    {
        if self.polls_left == 0 {
            PollVerdict::TimedOut
        } else if reachable {
            PollVerdict::Ready
        } else {
            self.polls_left = self.polls_left - 1;
            PollVerdict::KeepWaiting
        }
    }
}

/// Replays recorded probe results against a fresh wait: the outcome a wait
/// with the given deadline reaches when the successive probes answer as
/// `probes` says. Observations past the first success or past the deadline
/// are not consulted.
pub fn wait_until_reachable(probes: &Vec<bool>, timeout_ms: u64, interval_ms: u64) -> (r: bool)
    requires
        interval_ms > 0,
        timeout_ms + interval_ms <= u64::MAX,
    ensures
        r == wait_outcome(poll_budget(timeout_ms as nat, interval_ms as nat), probes@),
{
    let mut w = ReadinessWait::new(timeout_ms, interval_ms);
    let mut i: usize = 0;
    proof {
        assert(probes@.skip(0) =~= probes@);
    }
    loop
        invariant
            0 <= i <= probes@.len(),
            wait_outcome(poll_budget(timeout_ms as nat, interval_ms as nat), probes@)
                == wait_outcome(w.polls_left(), probes@.skip(i as int)),
        decreases probes@.len() - i,
    {
        if i == probes.len() {
            return false;
        }
        let reachable = probes[i];
        match w.on_probe(reachable) {
            PollVerdict::Ready => {
                proof {
                    assert(probes@.skip(i as int).first() == probes@[i as int]);
                }
                return true;
            },
            PollVerdict::TimedOut => {
                return false;
            },
            PollVerdict::KeepWaiting => {
                proof {
                    assert(probes@.skip(i as int).drop_first() =~= probes@.skip(i as int + 1));
                }
                i = i + 1;
            },
        }
    }
}

/// A wait whose every probe fails returns false: no listener within the
/// deadline means the wait reports failure, whatever the budget.
pub proof fn lemma_wait_times_out(budget: nat, probes: Seq<bool>)
    requires
        forall|i: int| 0 <= i < probes.len() ==> !probes[i],
    ensures
        !wait_outcome(budget, probes),
    decreases probes.len(),
{
    if probes.len() > 0 && !probes.first() && budget > 0 {
        assert(forall|i: int|
            0 <= i < probes.drop_first().len() ==> probes.drop_first()[i] == probes[i + 1]);
        lemma_wait_times_out((budget - 1) as nat, probes.drop_first());
    }
}

/// A wait answers promptly: if the first successful probe comes before the
/// deadline is spent, the wait reports success at that very probe.
pub proof fn lemma_wait_prompt(budget: nat, probes: Seq<bool>, i: int)
    requires
        0 <= i < probes.len(),
        probes[i],
        forall|j: int| 0 <= j < i ==> !probes[j],
        i < budget,
    ensures
        wait_outcome(budget, probes),
    decreases i,
{
    if i > 0 {
        assert(!probes.first());
        assert(probes.drop_first()[i - 1] == probes[i]);
        assert(forall|j: int| 0 <= j < i - 1 ==> probes.drop_first()[j] == probes[j + 1]);
        lemma_wait_prompt((budget - 1) as nat, probes.drop_first(), i - 1);
    }
}

} // verus!
