use vstd::prelude::*;

verus! {

/// Execution state for a scheduled task.
#[derive(Clone, Copy, Debug, PartialEq, Eq, Structural)]
pub enum TaskState {
    /// The task is eligible to run when selected by the scheduler.
    Ready,
    /// The task is currently executing on the CPU.
    Running,
    /// The task cannot run until an external event or resource becomes ready.
    Blocked,
    /// The task has been paused explicitly and will not be scheduled.
    Suspended,
}

/// Registers that must be preserved across a context switch on Cortex-M: the callee-saved
/// general-purpose registers r4 to r11 of the ARM procedure call standard.
#[derive(Clone, Copy, Debug, PartialEq, Eq, Structural)]
pub struct CalleeSavedRegisters {
    pub r4: u32,
    pub r5: u32,
    pub r6: u32,
    pub r7: u32,
    pub r8: u32,
    pub r9: u32,
    pub r10: u32,
    pub r11: u32,
}

impl CalleeSavedRegisters {
    /// All eight registers cleared.
    pub open spec fn spec_zeroed() -> Self {
        CalleeSavedRegisters { r4: 0, r5: 0, r6: 0, r7: 0, r8: 0, r9: 0, r10: 0, r11: 0 }
    }

    /// All eight registers cleared.
    pub fn zeroed() -> (r: Self)
        ensures
            r == Self::spec_zeroed(),
    {
        CalleeSavedRegisters { r4: 0, r5: 0, r6: 0, r7: 0, r8: 0, r9: 0, r10: 0, r11: 0 }
    }
}

/// Stack storage of `N` words for a thread context. On the board it is placed on an 8-byte
/// boundary; here its address is passed alongside it, and `forkyi` requires that boundary.
pub struct AlignedStack<const N: usize>(pub [u32; N]);

/// Scheduler-visible task control block.
///
/// `sp` is the address of the saved context that the next restore of the task pops: the
/// eight callee-saved registers r4-r11, then the hardware exception frame r0-r3, r12, lr, pc
/// and xPSR. `exc_return` is the EXC_RETURN value that returns into the task; its bit 2
/// selects the process stack (PSP) when set and the main stack (MSP) when clear.
#[derive(Clone, Copy, Debug)]
pub struct Task {
    /// Address of the saved context.
    pub sp: u32,
    /// EXC_RETURN value used to return into the task.
    pub exc_return: u32,
    /// Scheduler-assigned task identifier.
    pub id: u32,
    /// Human-readable task name for logs and diagnostics.
    pub name: &'static str,
    /// Scheduling priority, where the exact ordering is defined by the scheduler.
    pub priority: u8,
    /// Current lifecycle state used by the scheduler.
    pub state: TaskState,
    /// Registers r4 to r11 as kept in this control block.
    pub callee_saved_regs: CalleeSavedRegisters,
}

/// EXC_RETURN that returns to thread mode on the process stack without floating-point state.
pub const EXC_RETURN_THREAD_PSP: u32 = 0xFFFF_FFFD;

/// Initial xPSR of a task: only the Thumb bit set.
pub const XPSR_THUMB: u32 = 0x0100_0000;

/// The sixteen words of a fresh task's saved context, lowest address first: r4-r11 cleared,
/// then the hardware frame with r0 = `arg`, r1-r3 and r12 cleared, lr = EXC_RETURN to thread
/// mode on the PSP, pc = `entry` and xPSR with the Thumb bit.
pub open spec fn initial_frame(entry: u32, arg: u32) -> Seq<u32> {
    seq![0u32, 0, 0, 0, 0, 0, 0, 0, arg, 0, 0, 0, 0, EXC_RETURN_THREAD_PSP, entry, XPSR_THUMB]
}

/// `sp` rounded down to an 8-byte boundary, as exception return requires.
pub open spec fn align8_down(sp: u32) -> int {
    sp - sp % 8
}

/// The word index in the stack at which the fresh context starts.
pub open spec fn frame_index(stack_base: u32, sp: u32) -> int {
    (align8_down(sp) - stack_base) / 4 - 16
}

/// The stack words after the fresh context has been written at `f`.
pub open spec fn with_frame(words: Seq<u32>, f: int, entry: u32, arg: u32) -> Seq<u32> {
    words.subrange(0, f) + initial_frame(entry, arg) + words.subrange(f + 16, words.len() as int)
}

/// The inputs on which `forkyi` can build a context: the stack is 8-byte aligned and lies in
/// the 32-bit address space, `sp` points into it or just past it, and there are at least
/// sixteen words below `sp` rounded down to 8 bytes.
pub open spec fn fork_args_ok(n: nat, stack_base: u32, sp: u32) -> bool {
    &&& stack_base % 8 == 0
    &&& stack_base + 4 * n <= 0x1_0000_0000
    &&& sp <= stack_base + 4 * n
    &&& stack_base + 64 <= align8_down(sp)
}

/// Whether `forkyi` can build a context for a stack of `n` words at `stack_base` below `sp`.
pub fn fork_args_valid(n: usize, stack_base: u32, sp: u32) -> (ok: bool)
    ensures
        ok == fork_args_ok(n as nat, stack_base, sp),
{
    if stack_base % 8 != 0 || n > 0x4000_0000 {
        return false;
    }
    let end: u64 = stack_base as u64 + 4 * (n as u64);
    let aligned: u64 = (sp - sp % 8) as u64;
    end <= 0x1_0000_0000 && (sp as u64) <= end && stack_base as u64 + 64 <= aligned
}

/// Prepares `task` to be started by the scheduler. The initial context is built below `sp`
/// (first rounded down to 8 bytes) in `stack`, whose first word lies at address
/// `stack_base`, so that restoring r4-r11 and then returning from the exception enters
/// `entry` with `arg` in r0, in thread mode on the process stack. `entry` and `arg` are the
/// addresses of the entry function and of its argument. The task control block records the
/// context's address and the matching EXC_RETURN, with the callee-saved registers cleared.
pub fn forkyi<const N: usize>(
    task: &mut Task,
    stack: &mut AlignedStack<N>,
    stack_base: u32,
    sp: u32,
    entry: u32,
    arg: u32,
    id: u32,
    name: &'static str,
    priority: u8,
    state: TaskState,
)
    requires
        fork_args_ok(N as nat, stack_base, sp),
    ensures
        final(stack).0@ == with_frame(old(stack).0@, frame_index(stack_base, sp), entry, arg),
        final(task).sp == align8_down(sp) - 64,
        final(task).sp == stack_base + 4 * frame_index(stack_base, sp),
        final(task).sp % 8 == 0,
        final(task).exc_return == EXC_RETURN_THREAD_PSP,
        final(task).id == id,
        final(task).name == name,
        final(task).priority == priority,
        final(task).state == state,
        final(task).callee_saved_regs == CalleeSavedRegisters::spec_zeroed(),
{
    assert(sp & !7u32 == sp - sp % 8) by (bit_vector);
    let aligned: u32 = sp & !7u32;
    let top: usize = ((aligned - stack_base) / 4) as usize;
    assert(top <= N);
    assert(top >= 16);
    let ghost old_words = stack.0@;
    let f: usize = top - 16;

    stack.0[top - 1] = XPSR_THUMB;
    stack.0[top - 2] = entry;
    stack.0[top - 3] = EXC_RETURN_THREAD_PSP;
    stack.0[top - 4] = 0;
    stack.0[top - 5] = 0;
    stack.0[top - 6] = 0;
    stack.0[top - 7] = 0;
    stack.0[top - 8] = arg;
    let mut k: usize = 9;
    while k <= 16
        invariant
            9 <= k <= 17,
            top <= N,
            top >= 16,
            f == top - 16,
            stack.0@.len() == N,
            forall|i: int| 0 <= i < f + 17 - k ==> stack.0@[i] == old_words[i],
            forall|i: int| top <= i < N ==> stack.0@[i] == old_words[i],
            forall|i: int| top - k < i < top - 8 ==> stack.0@[i] == 0,
            stack.0@[top - 1] == XPSR_THUMB,
            stack.0@[top - 2] == entry,
            stack.0@[top - 3] == EXC_RETURN_THREAD_PSP,
            stack.0@[top - 4] == 0,
            stack.0@[top - 5] == 0,
            stack.0@[top - 6] == 0,
            stack.0@[top - 7] == 0,
            stack.0@[top - 8] == arg,
        decreases 17 - k,
    {
        stack.0[top - k] = 0;
        k += 1;
    }
    assert(stack.0@ =~= with_frame(old_words, f as int, entry, arg));

    *task = Task {
        sp: aligned - 64,
        exc_return: EXC_RETURN_THREAD_PSP,
        id,
        name,
        priority,
        state,
        callee_saved_regs: CalleeSavedRegisters::zeroed(),
    };
}

} // verus!
