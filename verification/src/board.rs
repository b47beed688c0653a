use vstd::prelude::*;
use vstd::string::StringSliceAdditionalSpecFns;

use crate::text::{append_decimal, append_str, decimal_digits};

verus! {

/// The count after one more event, wrapping at 2^32 as the board's atomic counters do.
pub open spec fn bump(count: u32) -> u32 {
    if count == u32::MAX {
        0
    } else {
        (count + 1) as u32
    }
}

fn wrapping_bump(count: u32) -> (r: u32)
    ensures
        r == bump(count),
{
    count.wrapping_add(1)
}

/// The decimal text that the board prints for a value.
pub fn board_print_u32(value: u32) -> (digits: Vec<u8>)
    ensures
        digits@ == decimal_digits(value as nat),
{
    let mut digits: Vec<u8> = Vec::new();
    append_decimal(&mut digits, value as u64);
    digits
}

/// The progress line that a worker thread prints for an iteration.
pub open spec fn thread_iteration_text(name: Seq<u8>, iteration: u32) -> Seq<u8> {
    name + " running at ".spec_bytes() + decimal_digits(iteration as nat) + "\r\n".spec_bytes()
}

/// The line `<name> running at <iteration>` that a worker thread prints.
pub fn board_print_thread_iteration(name: &str, iteration: u32) -> (text: Vec<u8>)
    ensures
        text@ == thread_iteration_text(name.spec_bytes(), iteration),
{
    let mut text: Vec<u8> = Vec::new();
    append_str(&mut text, name);
    append_str(&mut text, " running at ");
    append_decimal(&mut text, iteration as u64);
    append_str(&mut text, "\r\n");
    assert(text@ =~= thread_iteration_text(name.spec_bytes(), iteration));
    text
}

/// The two real-time consumers of the token semaphore.
#[derive(Clone, Copy, Debug, PartialEq, Eq, Structural)]
pub enum Consumer {
    RtThread2,
    RtThread3,
}

/// The counters of the producer/consumer demonstration: tokens given to the semaphore,
/// gives refused because it was full, tokens taken by each consumer, and refused takes.
#[derive(Clone, Copy, Debug, PartialEq, Eq, Structural)]
pub struct TokenStats {
    pub produced: u32,
    pub overflows: u32,
    pub consumed_by_rt_thread2: u32,
    pub consumed_by_rt_thread3: u32,
    pub take_errors: u32,
}

impl TokenStats {
    /// All counters at zero.
    pub fn new() -> (s: Self)
        ensures
            s == (TokenStats { produced: 0, overflows: 0, consumed_by_rt_thread2: 0, consumed_by_rt_thread3: 0, take_errors: 0 }),
    {
        TokenStats { produced: 0, overflows: 0, consumed_by_rt_thread2: 0, consumed_by_rt_thread3: 0, take_errors: 0 }
    }

    /// Counts one give: a produced token when the semaphore accepted it, an overflow when not.
    pub fn record_give(&mut self, accepted: bool)
        ensures
            *final(self) == spec_record_give(*old(self), accepted),
            accepted ==> *final(self) == (TokenStats { produced: bump(old(self).produced), ..*old(self) }),
            !accepted ==> *final(self) == (TokenStats { overflows: bump(old(self).overflows), ..*old(self) }),
    {
        if accepted {
            self.produced = wrapping_bump(self.produced);
        } else {
            self.overflows = wrapping_bump(self.overflows);
        }
    }

    /// Counts one take by `consumer`: a consumed token when the semaphore had one, a take
    /// error when not.
    pub fn record_take(&mut self, consumer: Consumer, taken: bool)
        ensures
            taken && consumer == Consumer::RtThread2 ==> *final(self) == (TokenStats { consumed_by_rt_thread2: bump(old(self).consumed_by_rt_thread2), ..*old(self) }),
            taken && consumer == Consumer::RtThread3 ==> *final(self) == (TokenStats { consumed_by_rt_thread3: bump(old(self).consumed_by_rt_thread3), ..*old(self) }),
            !taken ==> *final(self) == (TokenStats { take_errors: bump(old(self).take_errors), ..*old(self) }),
    {
        if !taken {
            self.take_errors = wrapping_bump(self.take_errors);
        } else {
            match consumer {
                Consumer::RtThread2 => {
                    self.consumed_by_rt_thread2 = wrapping_bump(self.consumed_by_rt_thread2);
                },
                Consumer::RtThread3 => {
                    self.consumed_by_rt_thread3 = wrapping_bump(self.consumed_by_rt_thread3);
                },
            }
        }
    }

    /// The tokens that `consumer` has taken so far.
    pub open spec fn spec_consumed(self, consumer: Consumer) -> u32 {
        match consumer {
            Consumer::RtThread2 => self.consumed_by_rt_thread2,
            Consumer::RtThread3 => self.consumed_by_rt_thread3,
        }
    }

    /// The producer's report: `Produced <n> tokens`.
    pub fn produced_message(&self) -> (text: Vec<u8>)
        ensures
            text@ == "Produced ".spec_bytes() + decimal_digits(self.produced as nat) + " tokens\r\n".spec_bytes(),
    {
        let mut text: Vec<u8> = Vec::new();
        append_str(&mut text, "Produced ");
        append_decimal(&mut text, self.produced as u64);
        append_str(&mut text, " tokens\r\n");
        text
    }

    /// A consumer's report: `Consumed by <thread>:<n> tokens`.
    pub fn consumed_message(&self, consumer: Consumer) -> (text: Vec<u8>)
        ensures
            text@ == (match consumer {
                Consumer::RtThread2 => "Consumed by rt_thread2:".spec_bytes(),
                Consumer::RtThread3 => "Consumed by rt_thread3:".spec_bytes(),
            }) + decimal_digits(self.spec_consumed(consumer) as nat) + " tokens\r\n".spec_bytes(),
    {
        let mut text: Vec<u8> = Vec::new();
        let count = match consumer {
            Consumer::RtThread2 => {
                append_str(&mut text, "Consumed by rt_thread2:");
                self.consumed_by_rt_thread2
            },
            Consumer::RtThread3 => {
                append_str(&mut text, "Consumed by rt_thread3:");
                self.consumed_by_rt_thread3
            },
        };
        append_decimal(&mut text, count as u64);
        append_str(&mut text, " tokens\r\n");
        text
    }
}

/// The counters after one give whose result was `accepted`.
pub open spec fn spec_record_give(s: TokenStats, accepted: bool) -> TokenStats {
    if accepted {
        TokenStats { produced: bump(s.produced), ..s }
    } else {
        TokenStats { overflows: bump(s.overflows), ..s }
    }
}

/// `count` advanced by `n` events, wrapping at 2^32.
pub open spec fn bump_by(count: u32, n: nat) -> int {
    (count as int + n) % 0x1_0000_0000
}

/// 1 for a give the semaphore accepted, else 0.
pub open spec fn accepted_count(accepted: bool) -> nat {
    if accepted {
        1
    } else {
        0
    }
}

/// Every give is counted once, as a produced token or as an overflow, and nothing else
/// changes.
pub proof fn lemma_gives_counted(s: TokenStats, accepted: bool)
    ensures
        spec_record_give(s, accepted).produced == bump_by(s.produced, accepted_count(accepted)),
        spec_record_give(s, accepted).overflows == bump_by(s.overflows, (1 - accepted_count(accepted)) as nat),
        spec_record_give(s, accepted).consumed_by_rt_thread2 == s.consumed_by_rt_thread2,
        spec_record_give(s, accepted).consumed_by_rt_thread3 == s.consumed_by_rt_thread3,
        spec_record_give(s, accepted).take_errors == s.take_errors,
{
}

/// One producer iteration (three gives) raises the produced count by the number of accepted
/// gives and the overflow count by the number of refused ones, so their sum by exactly three
/// (all modulo 2^32, as the board's counters wrap).
pub proof fn lemma_producer_iteration(s: TokenStats, a: bool, b: bool, c: bool)
    ensures
        ({
            let after = spec_record_give(spec_record_give(spec_record_give(s, a), b), c);
            let n = accepted_count(a) + accepted_count(b) + accepted_count(c);
            &&& after.produced == bump_by(s.produced, n)
            &&& after.overflows == bump_by(s.overflows, (3 - n) as nat)
            &&& (after.produced as int + after.overflows as int) % 0x1_0000_0000 == (s.produced as int + s.overflows as int + 3) % 0x1_0000_0000
            &&& after.consumed_by_rt_thread2 == s.consumed_by_rt_thread2
            &&& after.consumed_by_rt_thread3 == s.consumed_by_rt_thread3
            &&& after.take_errors == s.take_errors
        }),
{
    let s1 = spec_record_give(s, a);
    let s2 = spec_record_give(s1, b);
    let s3 = spec_record_give(s2, c);
    let na = accepted_count(a) as int;
    let nb = accepted_count(b) as int;
    let nc = accepted_count(c) as int;
    let p = s.produced as int;
    let o = s.overflows as int;
    lemma_gives_counted(s, a);
    lemma_gives_counted(s1, b);
    lemma_gives_counted(s2, c);
    assert(s1.produced == (p + na) % 0x1_0000_0000);
    assert(s2.produced == (p + na + nb) % 0x1_0000_0000) by {
        lemma_mod_add_small(p + na, nb);
    }
    assert(s3.produced == (p + na + nb + nc) % 0x1_0000_0000) by {
        lemma_mod_add_small(p + na + nb, nc);
    }
    assert(s1.overflows == (o + (1 - na)) % 0x1_0000_0000);
    assert(s2.overflows == (o + (1 - na) + (1 - nb)) % 0x1_0000_0000) by {
        lemma_mod_add_small(o + (1 - na), 1 - nb);
    }
    assert(s3.overflows == (o + (1 - na) + (1 - nb) + (1 - nc)) % 0x1_0000_0000) by {
        lemma_mod_add_small(o + (1 - na) + (1 - nb), 1 - nc);
    }
    assert((s3.produced as int + s3.overflows as int) % 0x1_0000_0000 == (p + o + 3) % 0x1_0000_0000) by {
        vstd::arithmetic::div_mod::lemma_add_mod_noop(p + na + nb + nc, o + 3 - (na + nb + nc), 0x1_0000_0000);
    }
}

/// Adding a small amount after reducing modulo 2^32 is the same as adding it before.
proof fn lemma_mod_add_small(p: int, q: int)
    requires
        0 <= q < 0x1_0000_0000,
    ensures
        ((p % 0x1_0000_0000) + q) % 0x1_0000_0000 == (p + q) % 0x1_0000_0000,
{
    vstd::arithmetic::div_mod::lemma_add_mod_noop(p, q, 0x1_0000_0000);
    vstd::arithmetic::div_mod::lemma_small_mod(q as nat, 0x1_0000_0000);
}

/// Measured latency from the scheduler tick to the context switch, in cycles.
#[derive(Clone, Copy, Debug, PartialEq, Eq, Structural)]
pub struct SchedTiming {
    pub last_ticks: u32,
    pub max_ticks: u32,
    pub samples: u32,
}

/// The line that reports a timing measurement.
pub open spec fn timing_text(t: SchedTiming) -> Seq<u8> {
    "systick->pendsv ticks last=".spec_bytes() + decimal_digits(t.last_ticks as nat) + " max=".spec_bytes()
        + decimal_digits(t.max_ticks as nat) + " samples=".spec_bytes() + decimal_digits(t.samples as nat)
        + "\r\n".spec_bytes()
}

/// Decides whether the background thread reports a timing measurement: nothing while no
/// sample has been taken; otherwise the reported sample count becomes the current one and a
/// report is made only when it differs from the count reported last.
pub fn print_sched_isr_timing(last_samples: &mut u32, timing: SchedTiming) -> (report: Option<Vec<u8>>)
    ensures
        timing.samples == 0 ==> report is None && *final(last_samples) == *old(last_samples),
        timing.samples != 0 ==> *final(last_samples) == timing.samples,
        timing.samples != 0 ==> (report is Some <==> *old(last_samples) != timing.samples),
        report matches Some(t) ==> t@ == timing_text(timing),
{
    if timing.samples == 0 {
        return None;
    }
    let previous = *last_samples;
    *last_samples = timing.samples;
    if previous == timing.samples {
        return None;
    }
    let mut text: Vec<u8> = Vec::new();
    append_str(&mut text, "systick->pendsv ticks last=");
    append_decimal(&mut text, timing.last_ticks as u64);
    append_str(&mut text, " max=");
    append_decimal(&mut text, timing.max_ticks as u64);
    append_str(&mut text, " samples=");
    append_decimal(&mut text, timing.samples as u64);
    append_str(&mut text, "\r\n");
    Some(text)
}

/// One step of the LED blinker.
pub struct LedStep {
    /// Drive the LED pin low (else high).
    pub drive_low: bool,
    /// The line to print.
    pub message: Vec<u8>,
}

/// One blink: a high LED is driven low and a low one high, with the matching message, and
/// the recorded level flips.
pub fn led_blink_step(red_high: &mut bool) -> (step: LedStep)
    ensures
        step.drive_low == *old(red_high),
        *final(red_high) == !*old(red_high),
        *old(red_high) ==> step.message@ == "set red low\r\n".spec_bytes(),
        !*old(red_high) ==> step.message@ == "set red high\r\n".spec_bytes(),
{
    let mut message: Vec<u8> = Vec::new();
    let drive_low = *red_high;
    if drive_low {
        append_str(&mut message, "set red low\r\n");
    } else {
        append_str(&mut message, "set red high\r\n");
    }
    *red_high = !*red_high;
    LedStep { drive_low, message }
}

/// Iterations of a real-time job between two yields.
pub const RT_JOB_ITERATIONS: u32 = 5;

/// Milliseconds that a real-time job sleeps in each iteration.
pub const RT_JOB_SLEEP_MS: u32 = 10;

/// Gives to the token semaphore in one producer iteration.
pub const PRODUCER_GIVES: u32 = 3;

/// The three demonstration real-time jobs: one producer and two consumers of tokens.
#[derive(Clone, Copy, Debug, PartialEq, Eq, Structural)]
pub enum RtJobKind {
    Producer,
    Consumer(Consumer),
}

/// What a real-time job does next.
#[derive(Clone, Copy, Debug, PartialEq, Eq, Structural)]
pub enum RtAction {
    /// Mark the start of the job's period (its start time set to now).
    MarkStart,
    /// Print the progress line for this iteration (1-based).
    Announce(u32),
    /// Sleep this many milliseconds.
    Sleep(u32),
    /// Give a token to the semaphore and record the result with `TokenStats::record_give`.
    Give,
    /// Take a token from the semaphore and record the result with `TokenStats::record_take`.
    Take,
    /// Print the job's token report (`produced_message` or `consumed_message`).
    Report,
    /// Yield the CPU until the next period.
    Yield,
}

/// Semaphore operations in one iteration of a job.
pub open spec fn ops_per_iteration(kind: RtJobKind) -> int {
    match kind {
        RtJobKind::Producer => PRODUCER_GIVES as int,
        RtJobKind::Consumer(_) => 1,
    }
}

/// Actions in one iteration: announce, sleep, the semaphore operations, report.
pub open spec fn iteration_len(kind: RtJobKind) -> int {
    3 + ops_per_iteration(kind)
}

/// Actions in one period of a job: mark the start, the iterations, yield.
pub open spec fn period_len(kind: RtJobKind) -> int {
    2 + RT_JOB_ITERATIONS * iteration_len(kind)
}

/// The action at position `pc` of a job's period.
pub open spec fn rt_job_action(kind: RtJobKind, pc: int) -> RtAction {
    if pc == 0 {
        RtAction::MarkStart
    } else if pc == period_len(kind) - 1 {
        RtAction::Yield
    } else {
        let r = (pc - 1) % iteration_len(kind);
        if r == 0 {
            RtAction::Announce(((pc - 1) / iteration_len(kind) + 1) as u32)
        } else if r == 1 {
            RtAction::Sleep(RT_JOB_SLEEP_MS)
        } else if r < 2 + ops_per_iteration(kind) {
            match kind {
                RtJobKind::Producer => RtAction::Give,
                RtJobKind::Consumer(_) => RtAction::Take,
            }
        } else {
            RtAction::Report
        }
    }
}

/// The step function of a real-time job's loop: the position within its period.
pub struct RtJob {
    kind: RtJobKind,
    pc: u32,
}

impl RtJob {
    /// The job kind.
    pub closed spec fn spec_kind(&self) -> RtJobKind {
        self.kind
    }

    /// The position within the period.
    pub closed spec fn spec_pc(&self) -> int {
        self.pc as int
    }

    /// The job's positions stay within one period.
    pub closed spec fn wf(&self) -> bool {
        self.pc < period_len(self.kind)
    }

    /// A job at the start of its period.
    pub fn new(kind: RtJobKind) -> (job: Self)
        ensures
            job.wf(),
            job.spec_kind() == kind,
            job.spec_pc() == 0,
    {
        RtJob { kind, pc: 0 }
    }

    /// Returns the job's next action and moves to the following one; after the yield the
    /// job starts its next period.
    pub fn step(&mut self) -> (action: RtAction)
        requires
            old(self).wf(),
        ensures
            final(self).wf(),
            final(self).spec_kind() == old(self).spec_kind(),
            action == rt_job_action(old(self).spec_kind(), old(self).spec_pc()),
            final(self).spec_pc() == (old(self).spec_pc() + 1) % period_len(old(self).spec_kind()),
    {
        let ops: u32 = match self.kind {
            RtJobKind::Producer => PRODUCER_GIVES,
            RtJobKind::Consumer(_) => 1,
        };
        let iter_len: u32 = 3 + ops;
        let period: u32 = 2 + RT_JOB_ITERATIONS * iter_len;
        let pc = self.pc;
        let action = if pc == 0 {
            RtAction::MarkStart
        } else if pc == period - 1 {
            RtAction::Yield
        } else {
            let r = (pc - 1) % iter_len;
            if r == 0 {
                RtAction::Announce((pc - 1) / iter_len + 1)
            } else if r == 1 {
                RtAction::Sleep(RT_JOB_SLEEP_MS)
            } else if r < 2 + ops {
                match self.kind {
                    RtJobKind::Producer => RtAction::Give,
                    RtJobKind::Consumer(_) => RtAction::Take,
                }
            } else {
                RtAction::Report
            }
        };
        proof {
            if pc + 1 == period {
                vstd::arithmetic::div_mod::lemma_mod_self_0(period as int);
            } else {
                vstd::arithmetic::div_mod::lemma_small_mod((pc + 1) as nat, period as nat);
            }
        }
        self.pc = if pc + 1 == period { 0 } else { pc + 1 };
        action
    }
}

/// The schedule of a real-time job's period: it first marks its start, then runs iterations
/// 1 to 5 in order, each announced, followed by a sleep, by its semaphore operations (three
/// gives for the producer, one take for a consumer) and by a report; only the last action
/// yields.
pub proof fn lemma_rt_job_schedule(kind: RtJobKind, k: int)
    requires
        1 <= k <= RT_JOB_ITERATIONS,
    ensures
        rt_job_action(kind, 0) == RtAction::MarkStart,
        rt_job_action(kind, period_len(kind) - 1) == RtAction::Yield,
        ({
            let base = 1 + (k - 1) * iteration_len(kind);
            &&& rt_job_action(kind, base) == RtAction::Announce(k as u32)
            &&& rt_job_action(kind, base + 1) == RtAction::Sleep(RT_JOB_SLEEP_MS)
            &&& forall|j: int|
                0 <= j < ops_per_iteration(kind) ==> #[trigger] rt_job_action(kind, base + 2 + j) == (match kind {
                    RtJobKind::Producer => RtAction::Give,
                    RtJobKind::Consumer(_) => RtAction::Take,
                })
            &&& rt_job_action(kind, base + 2 + ops_per_iteration(kind)) == RtAction::Report
        }),
        forall|pc: int| 0 <= pc < period_len(kind) - 1 ==> #[trigger] rt_job_action(kind, pc) != RtAction::Yield,
{
    let l = iteration_len(kind);
    let base = 1 + (k - 1) * l;
    assert(l == 6 || l == 4);
    lemma_iteration_position(l, k, 0);
    lemma_iteration_position(l, k, 1);
    lemma_iteration_position(l, k, 2 + ops_per_iteration(kind));
    assert forall|j: int| 0 <= j < ops_per_iteration(kind) implies #[trigger] rt_job_action(kind, base + 2 + j) == (match kind {
        RtJobKind::Producer => RtAction::Give,
        RtJobKind::Consumer(_) => RtAction::Take,
    }) by {
        lemma_iteration_position(l, k, 2 + j);
    }
}

/// Position `j` of iteration `k` lies at offset `j` of the `k`-th block of length `l`.
proof fn lemma_iteration_position(l: int, k: int, j: int)
    requires
        0 < l,
        1 <= k,
        0 <= j < l,
    ensures
        ((1 + (k - 1) * l + j) - 1) % l == j,
        ((1 + (k - 1) * l + j) - 1) / l == k - 1,
{
    vstd::arithmetic::div_mod::lemma_fundamental_div_mod_converse((k - 1) * l + j, l, k - 1, j);
    assert((k - 1) * l == l * (k - 1)) by (nonlinear_arith);
}

} // verus!
