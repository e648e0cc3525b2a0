use vstd::prelude::*;

use crate::clock::{elapsed, elapsed_ms};
use crate::constants::{BACKOFF_INITIAL_MS, BACKOFF_MAX_MS, BACKOFF_RESET_AFTER_MS};
use vstd::arithmetic::div_mod::lemma_fundamental_div_mod;
use vstd::arithmetic::power2::{lemma_pow2_unfold, pow2};

verus! {

/// What the supervisor knows: whether a helper is wanted (from a start until a
/// stop), whether it holds a running helper, the current restart delay, and the
/// times (in milliseconds of a monotonic clock) of the last launch attempt and
/// of the start of the current stable run.
pub struct SupervisorState {
    pub helper_wanted: bool,
    pub helper_running: bool,
    pub backoff_ms: u64,
    pub last_start: Option<u64>,
    pub stable_since: Option<u64>,
}

/// What the service loop does after a tick.
#[derive(Debug, Clone, Copy, PartialEq, Eq, Structural)]
pub enum TickAction {
    /// Nothing to do until the next tick.
    Continue,
    /// The helper is wanted but not running, and its restart delay has passed:
    /// launch it again, then report the outcome with `Supervisor::finish_restart`.
    Restart,
}

/// The delay after one more restart: doubled, at most `BACKOFF_MAX_MS`.
pub open spec fn doubled(backoff: u64) -> u64 {
    if 2 * backoff <= BACKOFF_MAX_MS {
        (2 * backoff) as u64
    } else {
        BACKOFF_MAX_MS
    }
}

/// The delay after `k` restarts of a helper that never ran long enough to reset it.
pub open spec fn backoff_after_restarts(k: nat) -> u64
    decreases k,
{
    if k == 0 {
        BACKOFF_INITIAL_MS
    } else {
        doubled(backoff_after_restarts((k - 1) as nat))
    }
}

/// The delay is one of the values that restarts reach from the initial delay,
/// it stays between its initial and its largest value, and a running helper is
/// wanted and has a launch time and a stable-run start.
pub open spec fn state_wf(s: SupervisorState) -> bool {
    &&& BACKOFF_INITIAL_MS <= s.backoff_ms <= BACKOFF_MAX_MS
    &&& exists|k: nat| s.backoff_ms == #[trigger] backoff_after_restarts(k)
    &&& s.helper_running ==> s.helper_wanted && s.last_start is Some && s.stable_since is Some
}

/// A supervisor with no helper and the initial delay.
pub open spec fn new_spec() -> SupervisorState {
    SupervisorState {
        helper_wanted: false,
        helper_running: false,
        backoff_ms: BACKOFF_INITIAL_MS,
        last_start: None,
        stable_since: None,
    }
}

/// The helper was launched at `now`.
pub open spec fn start_spec(s: SupervisorState, now: u64) -> SupervisorState {
    SupervisorState {
        helper_wanted: true,
        helper_running: true,
        last_start: Some(now),
        stable_since: Some(now),
        ..s
    }
}

/// The helper is no longer wanted (a logoff or the service stopping); the
/// boolean says whether there was a running helper to terminate.
pub open spec fn stop_spec(s: SupervisorState) -> (SupervisorState, bool) {
    (
        SupervisorState { helper_wanted: false, helper_running: false, stable_since: None, ..s },
        s.helper_running,
    )
}

/// One periodic check, given whether the helper process is still alive (which
/// matters only while one runs). A helper that is not wanted is left alone. A
/// live helper that has run for `BACKOFF_RESET_AFTER_MS` resets the delay. A
/// wanted helper that is dead or not running (it crashed, or its restart
/// failed) is restarted once the current delay has passed since the last launch.
pub open spec fn tick_spec(s: SupervisorState, alive: bool, now: u64) -> (SupervisorState, TickAction) {
    if !s.helper_wanted {
        (s, TickAction::Continue)
    } else if s.helper_running && alive {
        if s.stable_since matches Some(since) && elapsed(since, now) >= BACKOFF_RESET_AFTER_MS
            && s.backoff_ms != BACKOFF_INITIAL_MS {
            (SupervisorState { backoff_ms: BACKOFF_INITIAL_MS, ..s }, TickAction::Continue)
        } else {
            (s, TickAction::Continue)
        }
    } else {
        let gone = SupervisorState { helper_running: false, stable_since: None, ..s };
        if s.last_start matches Some(last) && elapsed(last, now) < s.backoff_ms {
            (gone, TickAction::Continue)
        } else {
            (gone, TickAction::Restart)
        }
    }
}

/// The outcome of a restart at `now`: on success the helper runs from `now`;
/// on failure `now` still counts as the last launch and the helper stays wanted,
/// so a later tick tries again. Either way the delay doubles.
pub open spec fn finish_restart_spec(s: SupervisorState, launched: bool, now: u64) -> SupervisorState {
    if launched {
        SupervisorState { backoff_ms: doubled(s.backoff_ms), ..start_spec(s, now) }
    } else {
        SupervisorState { backoff_ms: doubled(s.backoff_ms), last_start: Some(now), ..s }
    }
}

/// Keeps the helper process alive in the user session, restarting it after a
/// crash with an exponentially growing delay.
pub struct Supervisor {
    helper_wanted: bool,
    helper_running: bool,
    backoff_ms: u64,
    last_start: Option<u64>,
    stable_since: Option<u64>,
}

impl View for Supervisor {
    type V = SupervisorState;

    closed spec fn view(&self) -> SupervisorState {
        SupervisorState {
            helper_wanted: self.helper_wanted,
            helper_running: self.helper_running,
            backoff_ms: self.backoff_ms,
            last_start: self.last_start,
            stable_since: self.stable_since,
        }
    }
}

impl Supervisor {
    #[verifier::type_invariant]
    closed spec fn inv(self) -> bool {
        state_wf(self@)
    }

    /// A supervisor with no helper and the initial delay.
    pub fn new() -> (r: Self)
        ensures
            r@ == new_spec(),
            state_wf(r@),
    {
        assert(backoff_after_restarts(0) == BACKOFF_INITIAL_MS);
        Supervisor {
            helper_wanted: false,
            helper_running: false,
            backoff_ms: BACKOFF_INITIAL_MS,
            last_start: None,
            stable_since: None,
        }
    }

    /// Records that the helper was launched in the user session at `now`.
    pub fn start(&mut self, now: u64)
        ensures
            final(self)@ == start_spec(old(self)@, now),
            state_wf(final(self)@),
    {
        proof {
            use_type_invariant(&*self);
        }
        self.last_start = Some(now);
        self.stable_since = Some(now);
        self.helper_wanted = true;
        self.helper_running = true;
    }

    /// The helper is no longer wanted; returns whether a running one is to be terminated.
    pub fn stop(&mut self) -> (terminate: bool)
        ensures
            (final(self)@, terminate) == stop_spec(old(self)@),
            state_wf(final(self)@),
    {
        proof {
            use_type_invariant(&*self);
        }
        let had = self.helper_running;
        self.helper_running = false;
        self.helper_wanted = false;
        self.stable_since = None;
        had
    }

    /// The periodic health check, given whether the helper process is still alive
    /// (ignored when none runs) and the current time.
    pub fn tick(&mut self, alive: bool, now: u64) -> (action: TickAction)
        ensures
            (final(self)@, action) == tick_spec(old(self)@, alive, now),
            state_wf(final(self)@),
    {
        proof {
            use_type_invariant(&*self);
        }
        if !self.helper_wanted {
            return TickAction::Continue;
        }
        if self.helper_running && alive {
            if let Some(since) = self.stable_since {
                if elapsed_ms(since, now) >= BACKOFF_RESET_AFTER_MS && self.backoff_ms != BACKOFF_INITIAL_MS {
                    assert(backoff_after_restarts(0) == BACKOFF_INITIAL_MS);
                    self.backoff_ms = BACKOFF_INITIAL_MS;
                }
            }
            return TickAction::Continue;
        }
        self.helper_running = false;
        self.stable_since = None;
        if let Some(last) = self.last_start {
            if elapsed_ms(last, now) < self.backoff_ms {
                return TickAction::Continue;
            }
        }
        TickAction::Restart
    }

    /// Records the outcome of the restart that `tick` asked for, made at `now`.
    pub fn finish_restart(&mut self, launched: bool, now: u64)
        ensures
            final(self)@ == finish_restart_spec(old(self)@, launched, now),
            state_wf(final(self)@),
    {
        proof {
            use_type_invariant(&*self);
        }
        let ghost k = choose|k: nat| self.backoff_ms == backoff_after_restarts(k);
        let next: u64 = if self.backoff_ms * 2 <= BACKOFF_MAX_MS {
            self.backoff_ms * 2
        } else {
            BACKOFF_MAX_MS
        };
        assert(backoff_after_restarts(k + 1) == next);
        self.last_start = Some(now);
        self.backoff_ms = next;
        if launched {
            self.stable_since = Some(now);
            self.helper_wanted = true;
            self.helper_running = true;
        }
    }

    /// Whether a helper is wanted (started and not stopped since).
    pub fn helper_wanted(&self) -> (r: bool)
        ensures
            r == self@.helper_wanted,
    {
        self.helper_wanted
    }

    /// Whether the supervisor holds a running helper.
    pub fn helper_running(&self) -> (r: bool)
        ensures
            r == self@.helper_running,
    {
        self.helper_running
    }

    /// The current restart delay.
    pub fn backoff_ms(&self) -> (r: u64)
        ensures
            r == self@.backoff_ms,
    {
        self.backoff_ms
    }
}

/// Every operation keeps the supervisor well formed: the delay stays one of the
/// reachable values between `BACKOFF_INITIAL_MS` and `BACKOFF_MAX_MS`, and a
/// running helper is wanted and has its times.
pub proof fn lemma_operations_keep_wf(s: SupervisorState, alive: bool, launched: bool, now: u64)
    requires
        state_wf(s),
    ensures
        state_wf(new_spec()),
        state_wf(start_spec(s, now)),
        state_wf(stop_spec(s).0),
        state_wf(tick_spec(s, alive, now).0),
        state_wf(finish_restart_spec(s, launched, now)),
{
    assert(backoff_after_restarts(0) == BACKOFF_INITIAL_MS);
    let k = choose|k: nat| s.backoff_ms == backoff_after_restarts(k);
    assert(backoff_after_restarts(k + 1) == doubled(s.backoff_ms));
}

/// Exponential backoff: after `k` restarts the delay is the initial delay times
/// two to the `k`, capped at `BACKOFF_MAX_MS`.
pub proof fn lemma_backoff_exponential(k: nat)
    ensures
        backoff_after_restarts(k) == (if BACKOFF_INITIAL_MS * pow2(k) <= BACKOFF_MAX_MS {
            BACKOFF_INITIAL_MS * pow2(k)
        } else {
            BACKOFF_MAX_MS as int
        }),
    decreases k,
{
    if k == 0 {
        assert(pow2(0) == 1) by {
            vstd::arithmetic::power2::lemma2_to64();
        }
    } else {
        lemma_backoff_exponential((k - 1) as nat);
        lemma_pow2_unfold(k);
        let p = pow2((k - 1) as nat);
        assert(pow2(k) == 2 * p);
        assert(BACKOFF_INITIAL_MS * pow2(k) == 2 * (BACKOFF_INITIAL_MS * p));
    }
}

/// Every delay that a supervisor can hold is the initial delay times a power of
/// two, or the cap `BACKOFF_MAX_MS`.
pub proof fn lemma_delay_values(s: SupervisorState)
    requires
        state_wf(s),
    ensures
        s.backoff_ms == BACKOFF_MAX_MS || exists|k: nat| s.backoff_ms == BACKOFF_INITIAL_MS * #[trigger] pow2(k),
{
    let k = choose|k: nat| s.backoff_ms == backoff_after_restarts(k);
    lemma_backoff_exponential(k);
}

/// Each restart, whether the launch succeeded or failed, doubles the delay up to
/// the cap, and the helper stays wanted.
pub proof fn lemma_restart_doubles_delay(s: SupervisorState, launched: bool, now: u64)
    ensures
        finish_restart_spec(s, launched, now).backoff_ms == doubled(s.backoff_ms),
        finish_restart_spec(s, launched, now).last_start == Some(now),
        finish_restart_spec(s, launched, now).helper_running == (launched || s.helper_running),
        launched ==> finish_restart_spec(s, launched, now).helper_wanted,
        finish_restart_spec(s, launched, now).helper_wanted == (launched || s.helper_wanted),
{
}

/// A restart is asked for only for a wanted helper that is not alive, and never
/// before the current delay has passed since the last launch.
pub proof fn lemma_no_early_restart(s: SupervisorState, alive: bool, now: u64)
    requires
        tick_spec(s, alive, now).1 == TickAction::Restart,
    ensures
        s.helper_wanted,
        !(s.helper_running && alive),
        s.last_start matches Some(last) ==> elapsed(last, now) >= s.backoff_ms,
{
}

/// A wanted helper that is dead or not running (crashed earlier, or its restart
/// failed) is restarted at any tick at which the delay has passed.
pub proof fn lemma_restart_when_due(s: SupervisorState, alive: bool, now: u64)
    requires
        s.helper_wanted,
        !(s.helper_running && alive),
        s.last_start matches Some(last) ==> elapsed(last, now) >= s.backoff_ms,
    ensures
        tick_spec(s, alive, now).1 == TickAction::Restart,
        !tick_spec(s, alive, now).0.helper_running,
{
}

/// A live helper is kept: it is neither restarted nor forgotten.
pub proof fn lemma_live_helper_kept(s: SupervisorState, now: u64)
    requires
        s.helper_running,
    ensures
        tick_spec(s, true, now).1 == TickAction::Continue,
        tick_spec(s, true, now).0.helper_running,
        tick_spec(s, true, now).0.last_start == s.last_start,
{
}

/// A helper that has stayed up for `BACKOFF_RESET_AFTER_MS` resets the delay.
pub proof fn lemma_stable_helper_resets_delay(s: SupervisorState, since: u64, now: u64)
    requires
        s.helper_wanted,
        s.helper_running,
        s.stable_since == Some(since),
        elapsed(since, now) >= BACKOFF_RESET_AFTER_MS,
    ensures
        tick_spec(s, true, now).0.backoff_ms == BACKOFF_INITIAL_MS,
{
}

/// After a stop (a logoff) no tick restarts the helper or changes anything,
/// whatever it is told, until the next start.
pub proof fn lemma_stopped_stays_stopped(s: SupervisorState, alive: bool, now: u64)
    ensures
        tick_spec(stop_spec(s).0, alive, now) == (stop_spec(s).0, TickAction::Continue),
{
}

/// Just after a launch, a crash does not restart the helper within the current delay.
pub proof fn lemma_crash_right_after_start_waits(s: SupervisorState, start: u64, now: u64)
    requires
        state_wf(s),
        start <= now,
        now - start < s.backoff_ms,
    ensures
        tick_spec(start_spec(s, start), false, now).1 == TickAction::Continue,
{
}

/// The time from which a restart is due: the last launch plus the delay (0
/// when there was no launch).
pub open spec fn restart_due(s: SupervisorState) -> int {
    match s.last_start {
        Some(last) => last + s.backoff_ms,
        None => 0,
    }
}

/// The time of the first tick that asks for a restart, among ticks at `t`,
/// `t + p`, ... (`k` more after the first), each told that the helper is dead.
pub open spec fn first_restart(s: SupervisorState, t: u64, p: u64, k: nat) -> Option<u64>
    decreases k,
{
    let (next, action) = tick_spec(s, false, t);
    if action == TickAction::Restart {
        Some(t)
    } else if k == 0 || t + p > u64::MAX {
        None
    } else {
        first_restart(next, (t + p) as u64, p, (k - 1) as nat)
    }
}

/// Ticks on a dead helper that do not restart it keep it wanted and keep its
/// launch time and delay, so the time at which a restart is due does not move.
pub proof fn lemma_waiting_keeps_schedule(s: SupervisorState, now: u64)
    requires
        state_wf(s),
        s.helper_wanted,
        tick_spec(s, false, now).1 == TickAction::Continue,
    ensures
        state_wf(tick_spec(s, false, now).0),
        tick_spec(s, false, now).0.helper_wanted,
        restart_due(tick_spec(s, false, now).0) == restart_due(s),
        now < restart_due(s),
{
}

/// With ticks every `p` ms from `t` on, a dead, wanted helper is asked to be
/// restarted no later than the first of those ticks at or after the time the
/// restart is due.
pub proof fn lemma_restart_within_ticks(s: SupervisorState, t: u64, p: u64, k: nat)
    requires
        state_wf(s),
        s.helper_wanted,
        p > 0,
        t + k * p <= u64::MAX,
        t + k * p >= restart_due(s),
    ensures
        first_restart(s, t, p, k) matches Some(r) && t <= r <= t + k * p,
    decreases k,
{
    let (next, action) = tick_spec(s, false, t);
    if action != TickAction::Restart {
        lemma_waiting_keeps_schedule(s, t);
        if k == 0 {
            assert(k * p == 0) by (nonlinear_arith)
                requires
                    k == 0,
            ;
        }
        assert(k > 0);
        assert((k - 1) as nat * p + p == k * p) by (nonlinear_arith)
            requires
                k > 0,
        ;
        assert(t + p <= t + k * p) by (nonlinear_arith)
            requires
                k > 0,
                p > 0,
        ;
        lemma_restart_within_ticks(next, (t + p) as u64, p, (k - 1) as nat);
    }
}

/// A crashed helper is always restarted: when the helper dies at `crash` (or a
/// restart has failed) and the service ticks every `p` ms from the first tick `t`
/// after that on, some tick asks for a restart no later than one poll interval
/// after the later of the crash and the end of the restart delay.
pub proof fn lemma_crashed_helper_restarted(s: SupervisorState, crash: u64, t: u64, p: u64) -> (k: nat)
    requires
        state_wf(s),
        s.helper_wanted,
        p > 0,
        crash <= t < crash + p,
        restart_due(s) + p <= u64::MAX,
        crash + p <= u64::MAX,
    ensures
        first_restart(s, t, p, k) matches Some(r) && r <= (if crash >= restart_due(s) {
            crash as int
        } else {
            restart_due(s)
        }) + p,
{
    let due = restart_due(s);
    if due <= t {
        lemma_restart_within_ticks(s, t, p, 0);
        0
    } else {
        let d: int = due - t;
        let q: int = d / p as int;
        lemma_fundamental_div_mod(d, p as int);
        assert(0 <= d % (p as int) < p) by {
            vstd::arithmetic::div_mod::lemma_mod_pos_bound(d, p as int);
        }
        assert(q >= 0) by {
            vstd::arithmetic::div_mod::lemma_div_pos_is_pos(d, p as int);
        }
        let k: nat = (q + 1) as nat;
        assert(k * p == p * q + p) by (nonlinear_arith)
            requires
                k == q + 1,
        ;
        assert(t + k * p >= due);
        assert(t + k * p <= due + p);
        lemma_restart_within_ticks(s, t, p, k);
        k
    }
}

/// The delay changes on a tick only when a live helper has been up for
/// `BACKOFF_RESET_AFTER_MS` since its launch, and then it goes back to the
/// initial delay: a helper that dies soon after each restart keeps its growing
/// delay.
pub proof fn lemma_tick_resets_delay_only_after_stable_run(s: SupervisorState, alive: bool, now: u64)
    ensures
        tick_spec(s, alive, now).0.backoff_ms != s.backoff_ms ==> s.helper_wanted && s.helper_running
            && alive && (s.stable_since matches Some(since) && now >= since && now - since
            >= BACKOFF_RESET_AFTER_MS) && tick_spec(s, alive, now).0.backoff_ms == BACKOFF_INITIAL_MS,
        s.stable_since matches Some(since) && (now < since || now - since < BACKOFF_RESET_AFTER_MS)
            ==> tick_spec(s, alive, now).0.backoff_ms == s.backoff_ms,
{
}

/// The time passed is the difference of the two clock readings, and nothing
/// when the clock reads earlier.
pub proof fn lemma_elapsed_is_difference(since: u64, now: u64)
    ensures
        now >= since ==> since + elapsed(since, now) == now,
        now < since ==> elapsed(since, now) == 0,
{
}

/// A start makes the helper wanted and running from `now`, keeping the delay;
/// a stop asks to terminate exactly a running helper and leaves none wanted.
pub proof fn lemma_start_and_stop(s: SupervisorState, now: u64)
    ensures
        start_spec(s, now).helper_wanted && start_spec(s, now).helper_running,
        start_spec(s, now).last_start == Some(now) && start_spec(s, now).stable_since == Some(now),
        start_spec(s, now).backoff_ms == s.backoff_ms,
        stop_spec(s).1 == s.helper_running,
        !stop_spec(s).0.helper_wanted && !stop_spec(s).0.helper_running,
        stop_spec(s).0.backoff_ms == s.backoff_ms,
{
}

} // verus!
