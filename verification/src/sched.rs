use vstd::prelude::*;

use crate::task::{initial_frame, with_frame, Task, EXC_RETURN_THREAD_PSP, XPSR_THUMB};

verus! {

/// The scheduler's view of the tasks: which one runs, which one is started first, the two
/// tasks it alternates between, and the number of scheduler ticks so far. Tasks are named by
/// their index in the task table that the board keeps.
pub struct Scheduler {
    /// The task whose context is live on the CPU (`None` before any is set).
    pub current: Option<usize>,
    /// The task that the start-up supervisor call enters.
    pub start_task: Option<usize>,
    /// The task that runs after an even number of ticks.
    pub main_thread: Option<usize>,
    /// The task that runs after an odd number of ticks.
    pub dummy_thread: Option<usize>,
    /// Scheduler ticks so far, modulo 2^32.
    pub tick_count: u32,
}

/// How an exception returns into a task: the stack pointer left once r4-r11 have been
/// popped, the EXC_RETURN value, and whether that value selects the process stack.
#[derive(Clone, Copy, Debug, PartialEq, Eq, Structural)]
pub struct ExceptionReturn {
    pub sp: u32,
    pub exc_return: u32,
    pub use_psp: bool,
}

/// Bit 2 of EXC_RETURN: return to the process stack.
pub open spec fn selects_psp(exc_return: u32) -> bool {
    exc_return & 4u32 == 4u32
}

/// A task's context can be restored without leaving the 32-bit address space.
pub open spec fn restorable(t: Task) -> bool {
    t.sp <= 0xFFFF_FFDF
}

/// Whether `t`'s context can be restored without leaving the 32-bit address space.
pub fn can_restore(t: &Task) -> (ok: bool)
    ensures
        ok == restorable(*t),
{
    t.sp <= 0xFFFF_FFDF
}

/// What restoring `t` does: pop r4-r11 from its saved context and return with its EXC_RETURN.
pub open spec fn spec_restore(t: Task) -> ExceptionReturn {
    ExceptionReturn { sp: (t.sp + 32) as u32, exc_return: t.exc_return, use_psp: selects_psp(t.exc_return) }
}

/// What saving the interrupted task does: push r4-r11 below its stack pointer and record
/// that address and the EXC_RETURN of the exception.
pub open spec fn spec_save(t: Task, thread_sp: u32, exc_return: u32) -> Task {
    Task { sp: (thread_sp - 32) as u32, exc_return, ..t }
}

/// The tick count after one more tick (wrapping at 2^32).
pub open spec fn next_tick(t: u32) -> u32 {
    if t == u32::MAX {
        0
    } else {
        (t + 1) as u32
    }
}

/// The task that `schedule` picks for a tick count.
pub open spec fn spec_pick(s: Scheduler, tick_count: u32) -> Option<usize> {
    if tick_count % 2 == 0 {
        s.main_thread
    } else {
        s.dummy_thread
    }
}

/// Every task of the table can be restored.
pub open spec fn all_restorable(tasks: Seq<Task>) -> bool {
    forall|i: int| 0 <= i < tasks.len() ==> restorable(#[trigger] tasks[i])
}

/// `main_thread` and `dummy_thread` both name tasks of a table of `n` tasks.
pub open spec fn run_queue_set(s: Scheduler, n: nat) -> bool {
    &&& s.main_thread is Some
    &&& s.dummy_thread is Some
    &&& s.main_thread.unwrap() < n
    &&& s.dummy_thread.unwrap() < n
}

impl Scheduler {
    /// A scheduler with no tasks set and no ticks.
    pub fn new() -> (s: Self)
        ensures
            s.current is None,
            s.start_task is None,
            s.main_thread is None,
            s.dummy_thread is None,
            s.tick_count == 0,
    {
        Scheduler { current: None, start_task: None, main_thread: None, dummy_thread: None, tick_count: 0 }
    }
}

/// Records `task` as the task whose context is live.
pub fn init_current(sched: &mut Scheduler, task: usize)
    ensures
        *final(sched) == (Scheduler { current: Some(task), ..*old(sched) }),
{
    sched.current = Some(task);
}

/// Sets the two tasks that the scheduler alternates between.
pub fn init_rq(sched: &mut Scheduler, main: usize, dummy: usize)
    ensures
        *final(sched) == (Scheduler { main_thread: Some(main), dummy_thread: Some(dummy), ..*old(sched) }),
{
    sched.main_thread = Some(main);
    sched.dummy_thread = Some(dummy);
}

fn restore(t: &Task) -> (r: ExceptionReturn)
    requires
        restorable(*t),
    ensures
        r == spec_restore(*t),
{
    ExceptionReturn { sp: t.sp + 32, exc_return: t.exc_return, use_psp: t.exc_return & 4 == 4 }
}

/// Starts the first task: records it as the start task, makes it current, and returns how
/// the start-up supervisor call returns into it (its saved context restored).
pub fn start_first_task(sched: &mut Scheduler, tasks: &[Task], task: usize) -> (r: ExceptionReturn)
    requires
        task < tasks@.len(),
        restorable(tasks@[task as int]),
    ensures
        *final(sched) == (Scheduler { current: Some(task), start_task: Some(task), ..*old(sched) }),
        r == spec_restore(tasks@[task as int]),
{
    sched.start_task = Some(task);
    sched.current = Some(task);
    restore(&tasks[task])
}

/// One scheduler tick (the SysTick handler's count; the handler then pends the switch).
pub fn sys_tick(sched: &mut Scheduler)
    ensures
        *final(sched) == (Scheduler { tick_count: next_tick(old(sched).tick_count), ..*old(sched) }),
{
    let t = sched.tick_count.wrapping_add(1);
    assert(t == next_tick(sched.tick_count));
    sched.tick_count = t;
}

/// Picks the next task: `main_thread` after an even number of ticks, `dummy_thread` after an
/// odd number.
pub fn schedule(sched: &mut Scheduler)
    ensures
        *final(sched) == (Scheduler { current: spec_pick(*old(sched), old(sched).tick_count), ..*old(sched) }),
{
    if sched.tick_count % 2 == 0 {
        sched.current = sched.main_thread;
    } else {
        sched.current = sched.dummy_thread;
    }
}

/// The context switch: saves the interrupted task's context below `thread_sp` (the stack
/// pointer at exception entry) together with `exc_return`, picks the next task with
/// `schedule`, and returns how the exception returns into it.
pub fn pend_sv(sched: &mut Scheduler, tasks: &mut Vec<Task>, thread_sp: u32, exc_return: u32) -> (r: ExceptionReturn)
    requires
        old(sched).current is Some,
        old(sched).current.unwrap() < old(tasks)@.len(),
        run_queue_set(*old(sched), old(tasks)@.len()),
        all_restorable(old(tasks)@),
        32 <= thread_sp,
    ensures
        final(tasks)@ == old(tasks)@.update(
            old(sched).current.unwrap() as int,
            spec_save(old(tasks)@[old(sched).current.unwrap() as int], thread_sp, exc_return),
        ),
        *final(sched) == (Scheduler { current: spec_pick(*old(sched), old(sched).tick_count), ..*old(sched) }),
        all_restorable(final(tasks)@),
        final(sched).current is Some,
        r == spec_restore(final(tasks)@[final(sched).current.unwrap() as int]),
{
    let cur = sched.current.unwrap();
    let mut saved = tasks[cur];
    saved.sp = thread_sp - 32;
    saved.exc_return = exc_return;
    tasks.set(cur, saved);
    assert(tasks@[cur as int] == spec_save(old(tasks)@[cur as int], thread_sp, exc_return));
    schedule(sched);
    let next = sched.current.unwrap();
    assert(restorable(tasks@[next as int]));
    restore(&tasks[next])
}

/// Switching hook between two tasks; the PendSV handler performs the actual switch, so this
/// does nothing.
pub fn switch_ctx(_cur: usize, _next: usize) {
}

/// Consecutive ticks alternate between the two tasks: after a tick and a `schedule` the
/// scheduler runs one of them, and after the next tick and `schedule` the other one (also
/// across the wrap of the tick count).
pub proof fn lemma_schedule_alternates(s: Scheduler)
    ensures
        spec_pick(s, next_tick(s.tick_count)) == s.main_thread ==> spec_pick(s, next_tick(next_tick(s.tick_count))) == s.dummy_thread,
        spec_pick(s, next_tick(s.tick_count)) == s.dummy_thread ==> spec_pick(s, next_tick(next_tick(s.tick_count))) == s.main_thread,
        next_tick(s.tick_count) % 2 != next_tick(next_tick(s.tick_count)) % 2,
{
}

/// Saving a task's context and later restoring it returns to the same stack pointer and
/// EXC_RETURN that the exception interrupted.
pub proof fn lemma_save_restore_round_trip(t: Task, thread_sp: u32, exc_return: u32)
    requires
        32 <= thread_sp,
    ensures
        restorable(spec_save(t, thread_sp, exc_return)),
        spec_restore(spec_save(t, thread_sp, exc_return)).sp == thread_sp,
        spec_restore(spec_save(t, thread_sp, exc_return)).exc_return == exc_return,
        spec_save(t, thread_sp, exc_return).id == t.id,
{
}

/// A task prepared by `forkyi` starts where it should: restoring its context returns on the
/// process stack to the hardware frame it built, whose r0 is `arg`, whose pc is `entry`,
/// whose lr is the thread-mode EXC_RETURN and whose xPSR has the Thumb bit.
pub proof fn lemma_forked_task_enters_entry(
    t: Task,
    words: Seq<u32>,
    old_words: Seq<u32>,
    stack_base: u32,
    f: int,
    entry: u32,
    arg: u32,
)
    requires
        0 <= f,
        f + 16 <= old_words.len(),
        stack_base + 4 * old_words.len() <= 0x1_0000_0000,
        words == with_frame(old_words, f, entry, arg),
        t.sp == stack_base + 4 * f,
        t.exc_return == EXC_RETURN_THREAD_PSP,
    ensures
        restorable(t),
        spec_restore(t).use_psp,
        spec_restore(t).sp == stack_base + 4 * (f + 8),
        words[f + 8] == arg,
        words[f + 13] == EXC_RETURN_THREAD_PSP,
        words[f + 14] == entry,
        words[f + 15] == XPSR_THUMB,
        forall|i: int| f <= i < f + 8 ==> words[i] == 0,
{
    assert(EXC_RETURN_THREAD_PSP & 4u32 == 4u32) by (bit_vector);
    assert(words[f + 8] == initial_frame(entry, arg)[8]);
    assert(words[f + 13] == initial_frame(entry, arg)[13]);
    assert(words[f + 14] == initial_frame(entry, arg)[14]);
    assert(words[f + 15] == initial_frame(entry, arg)[15]);
    assert forall|i: int| f <= i < f + 8 implies words[i] == 0 by {
        assert(words[i] == initial_frame(entry, arg)[i - f]);
    }
}

} // verus!
