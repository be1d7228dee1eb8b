//! The per-call execution budget of a script.
//!
//! The host installs a hook that runs every [`CHECK_INTERVAL`] VM
//! instructions and asks the guard whether the script may go on. The guard
//! counts the instructions since the last [`ExecGuard::reset`] and compares
//! the host clock with the deadline that the reset set. Times are
//! nanoseconds on the host's monotonic clock.
use vstd::prelude::*;

verus! {

/// How many VM instructions elapse between two checks of the budget.
pub const CHECK_INTERVAL: u32 = 10_000;

/// Why a script was stopped.
#[derive(Debug, Clone, Copy, PartialEq, Eq, Structural)]
pub enum LimitExceeded {
    /// The script ran `limit` instructions or more.
    Instructions { limit: u64 },
    /// The script ran past its deadline.
    Timeout,
}

/// Decimal digits of `n`, most significant first, without sign or padding.
pub open spec fn decimal(n: nat) -> Seq<char>
    decreases n,
{
    if n < 10 {
        seq![digit_char(n)]
    } else {
        decimal(n / 10).push(digit_char(n % 10))
    }
}

/// The character of a digit below ten.
pub open spec fn digit_char(d: nat) -> char {
    if d == 0 { '0' }
    else if d == 1 { '1' }
    else if d == 2 { '2' }
    else if d == 3 { '3' }
    else if d == 4 { '4' }
    else if d == 5 { '5' }
    else if d == 6 { '6' }
    else if d == 7 { '7' }
    else if d == 8 { '8' }
    else { '9' }
}

/// `u64::to_string`: std documents `Display` for integers as the decimal
/// representation, without sign or padding for an unsigned value. This
/// contract restates that documentation; it is not proved here.
#[verifier::external_body]
fn decimal_string(n: u64) -> (s: String)
    ensures
        s@ == decimal(n as nat),
{
    n.to_string()
}

/// The text that reports why a script was stopped.
pub open spec fn limit_message(e: LimitExceeded) -> Seq<char> {
    match e {
        LimitExceeded::Instructions { limit } => "script exceeded the instruction limit ("@
            + decimal(limit as nat) + ")"@,
        LimitExceeded::Timeout => "script exceeded its execution timeout"@,
    }
}

impl LimitExceeded {
    /// The text that reports why the script was stopped.
    pub fn message(&self) -> (msg: String)
        ensures
            msg@ == limit_message(*self),
    {
        match self {
            LimitExceeded::Instructions { limit } => {
                let mut msg = String::from_str("script exceeded the instruction limit (");
                let digits = decimal_string(*limit);
                msg.append(digits.as_str());
                msg.append(")");
                msg
            },
            LimitExceeded::Timeout => String::from_str("script exceeded its execution timeout"),
        }
    }
}

/// What a guard holds: its two limits, the instructions counted since the
/// last reset and the deadline that the last reset set.
pub struct GuardView {
    pub max_instructions: Option<u64>,
    pub timeout: Option<u64>,
    pub executed: u64,
    pub deadline: Option<u64>,
}

/// The per-call instruction and time budget of a script.
pub struct ExecGuard {
    max_instructions: Option<u64>,
    timeout: Option<u64>,
    executed: u64,
    deadline: Option<u64>,
}

impl View for ExecGuard {
    type V = GuardView;

    closed spec fn view(&self) -> GuardView {
        GuardView {
            max_instructions: self.max_instructions,
            timeout: self.timeout,
            executed: self.executed,
            deadline: self.deadline,
        }
    }
}

/// The guard after one more interval of instructions has been counted:
/// instructions are counted only under an instruction limit.
pub open spec fn advanced(g: GuardView) -> GuardView {
    if g.max_instructions is Some {
        GuardView { executed: (g.executed + CHECK_INTERVAL) as u64, ..g }
    } else {
        g
    }
}

/// What a check at time `now` answers for the guard `g`: the instruction
/// limit is tested first, on the count after this interval, then the
/// deadline.
pub open spec fn check_outcome(g: GuardView, now: u64) -> Result<(), LimitExceeded> {
    match g.max_instructions {
        Some(max) if advanced(g).executed >= max => Err(LimitExceeded::Instructions { limit: max }),
        _ => match g.deadline {
            Some(deadline) if now >= deadline => Err(LimitExceeded::Timeout),
            _ => Ok(()),
        },
    }
}

/// A check can count one more interval without overflow.
pub open spec fn can_count(g: GuardView) -> bool {
    g.max_instructions is Some ==> g.executed + CHECK_INTERVAL <= u64::MAX
}

/// A reset at time `now` can set its deadline without overflow.
pub open spec fn can_reset(g: GuardView, now: u64) -> bool {
    g.timeout matches Some(t) ==> now + t <= u64::MAX
}

/// The guard after a reset at time `now`.
pub open spec fn reset_view(g: GuardView, now: u64) -> GuardView {
    GuardView {
        executed: 0,
        deadline: match g.timeout {
            Some(t) => Some((now + t) as u64),
            None => None,
        },
        ..g
    }
}

/// The guard after `k` checks, starting from `g`.
pub open spec fn advanced_by(g: GuardView, k: nat) -> GuardView
    decreases k,
{
    if k == 0 {
        g
    } else {
        advanced(advanced_by(g, (k - 1) as nat))
    }
}

impl ExecGuard {
    /// The guard for the given limits, or `None` when both are disabled (then
    /// no hook is needed). A new guard has counted nothing and has no
    /// deadline until its first reset.
    pub fn for_limits(max_instructions: Option<u64>, timeout: Option<u64>) -> (g: Option<ExecGuard>)
        ensures
            g is None <==> (max_instructions is None && timeout is None),
            g matches Some(guard) ==> guard@ == (GuardView {
                max_instructions,
                timeout,
                executed: 0,
                deadline: None,
            }),
    {
        if max_instructions.is_none() && timeout.is_none() {
            return None;
        }
        Some(ExecGuard { max_instructions, timeout, executed: 0, deadline: None })
    }

    /// Whether a check can count one more interval; a check is only
    /// called when it can.
    pub fn can_count(&self) -> (b: bool)
        ensures
            b == can_count(self@),
    {
        match self.max_instructions {
            Some(_) => self.executed <= u64::MAX - CHECK_INTERVAL as u64,
            None => true,
        }
    }

    /// Whether a reset at time `now` can set its deadline; a reset is only
    /// called when it can.
    pub fn can_reset(&self, now: u64) -> (b: bool)
        ensures
            b == can_reset(self@, now),
    {
        match self.timeout {
            Some(t) => now <= u64::MAX - t,
            None => true,
        }
    }

    /// The instructions counted since the last reset.
    pub fn executed(&self) -> (n: u64)
        ensures
            n == self@.executed,
    {
        self.executed
    }

    /// Resets the budget at time `now`: nothing counted, and the deadline
    /// is `now` plus the timeout, if there is one.
    pub fn reset(&mut self, now: u64)
        requires
            can_reset(old(self)@, now),
        ensures
            final(self)@ == reset_view(old(self)@, now),
    {
        self.executed = 0;
        self.deadline = match self.timeout {
            Some(t) => Some(now + t),
            None => None,
        };
    }

    /// Called every [`CHECK_INTERVAL`] instructions at time `now`: counts the
    /// interval, then answers whether the script may go on.
    pub fn check(&mut self, now: u64) -> (r: Result<(), LimitExceeded>)
        requires
            can_count(old(self)@),
        ensures
            final(self)@ == advanced(old(self)@),
            r == check_outcome(old(self)@, now),
    {
        if let Some(max) = self.max_instructions {
            self.executed = self.executed + CHECK_INTERVAL as u64;
            if self.executed >= max {
                return Err(LimitExceeded::Instructions { limit: max });
            }
        }
        if let Some(deadline) = self.deadline {
            if now >= deadline {
                return Err(LimitExceeded::Timeout);
            }
        }
        Ok(())
    }
}

/// After a reset, the k-th check (counting from one) has counted
/// k·CHECK_INTERVAL instructions, and it stops the script for its
/// instruction limit exactly when k·CHECK_INTERVAL reaches the limit.
pub proof fn lemma_instruction_budget(g: GuardView, t0: u64, k: nat, now: u64)
    requires
        can_reset(g, t0),
        g.max_instructions is Some,
        k >= 1,
        k * CHECK_INTERVAL <= u64::MAX,
    ensures
        advanced_by(reset_view(g, t0), k).executed == k * CHECK_INTERVAL,
        (check_outcome(advanced_by(reset_view(g, t0), (k - 1) as nat), now)
            == Err::<(), LimitExceeded>(LimitExceeded::Instructions { limit: g.max_instructions->0 }))
            <==> k * CHECK_INTERVAL >= g.max_instructions->0,
    decreases k,
{
    lemma_counts(reset_view(g, t0), k);
    lemma_counts(reset_view(g, t0), (k - 1) as nat);
}

proof fn lemma_counts(g: GuardView, k: nat)
    requires
        g.max_instructions is Some,
        g.executed == 0,
        k * CHECK_INTERVAL <= u64::MAX,
    ensures
        advanced_by(g, k).executed == k * CHECK_INTERVAL,
        advanced_by(g, k).max_instructions == g.max_instructions,
        advanced_by(g, k).deadline == g.deadline,
    decreases k,
{
    if k > 0 {
        assert((k - 1) * CHECK_INTERVAL <= k * CHECK_INTERVAL) by (nonlinear_arith)
            requires
                k >= 1,
        ;
        lemma_counts(g, (k - 1) as nat);
        assert(((k - 1) as nat) * CHECK_INTERVAL + CHECK_INTERVAL == k * CHECK_INTERVAL) by (
        nonlinear_arith)
            requires
                k >= 1,
        ;
    }
}

/// What one check answers, for every guard and time: the script is stopped
/// for its instruction limit once the count after this interval reaches the
/// limit; while the count stays below the limit (or there is none) it is
/// stopped for its timeout exactly when a deadline is set and `now` has
/// reached it; otherwise it goes on. The check counts one interval under an
/// instruction limit and nothing without one, and keeps the limits and the
/// deadline.
pub proof fn lemma_check_verdicts(g: GuardView, now: u64)
    requires
        can_count(g),
    ensures
        g.max_instructions is Some && g.executed + CHECK_INTERVAL >= g.max_instructions->0
            ==> check_outcome(g, now) == Err::<(), LimitExceeded>(
            LimitExceeded::Instructions { limit: g.max_instructions->0 },
        ),
        (g.max_instructions is None || g.executed + CHECK_INTERVAL < g.max_instructions->0)
            && g.deadline is Some && now >= g.deadline->0 ==> check_outcome(g, now) == Err::<
            (),
            LimitExceeded,
        >(LimitExceeded::Timeout),
        (g.max_instructions is None || g.executed + CHECK_INTERVAL < g.max_instructions->0) && (
        g.deadline is None || now < g.deadline->0) ==> check_outcome(g, now) == Ok::<(), LimitExceeded>(()),
        g.max_instructions is Some ==> advanced(g).executed == g.executed + CHECK_INTERVAL,
        g.max_instructions is None ==> advanced(g).executed == g.executed,
        advanced(g).max_instructions == g.max_instructions,
        advanced(g).timeout == g.timeout,
        advanced(g).deadline == g.deadline,
{
}

/// With both limits set, a guard reset at `t0` stops a script that has not
/// used up its instructions for its timeout exactly when `now` has reached
/// `t0` plus the timeout.
pub proof fn lemma_deadline_under_instruction_limit(g: GuardView, t0: u64, now: u64)
    requires
        can_reset(g, t0),
        g.max_instructions is Some,
        CHECK_INTERVAL < g.max_instructions->0,
        g.timeout is Some,
    ensures
        (check_outcome(reset_view(g, t0), now) == Err::<(), LimitExceeded>(LimitExceeded::Timeout))
            <==> now >= t0 + g.timeout->0,
        check_outcome(reset_view(g, t0), now) is Ok <==> now < t0 + g.timeout->0,
{
}

/// A guard with neither an instruction limit nor a deadline lets every
/// script go on and stays as it is.
pub proof fn lemma_unlimited_continues(g: GuardView, now: u64)
    requires
        g.max_instructions is None,
        g.deadline is None,
    ensures
        advanced(g) == g,
        check_outcome(g, now) == Ok::<(), LimitExceeded>(()),
{
}

/// Without an instruction limit, a guard reset at `t0` with timeout `t`
/// stops a script at time `now` exactly when `now` has reached `t0 + t`,
/// however many checks ran in between.
pub proof fn lemma_deadline(g: GuardView, t0: u64, k: nat, now: u64)
    requires
        can_reset(g, t0),
        g.max_instructions is None,
        g.timeout is Some,
    ensures
        (check_outcome(advanced_by(reset_view(g, t0), k), now) == Err::<(), LimitExceeded>(
            LimitExceeded::Timeout))
            <==> now >= t0 + g.timeout->0,
        check_outcome(advanced_by(reset_view(g, t0), k), now) is Ok <==> now < t0 + g.timeout->0,
{
    lemma_uncounted(reset_view(g, t0), k);
}

proof fn lemma_uncounted(g: GuardView, k: nat)
    requires
        g.max_instructions is None,
    ensures
        advanced_by(g, k) == g,
    decreases k,
{
    if k > 0 {
        lemma_uncounted(g, (k - 1) as nat);
    }
}

} // verus!
