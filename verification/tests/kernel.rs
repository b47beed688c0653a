use rtsched_board::sched::{
    init_current, init_rq, pend_sv, schedule, start_first_task, switch_ctx, sys_tick,
    ExceptionReturn, Scheduler,
};
use rtsched_board::sched::can_restore;
use rtsched_board::task::fork_args_valid;
use rtsched_board::task::{
    forkyi, AlignedStack, CalleeSavedRegisters, Task, TaskState, EXC_RETURN_THREAD_PSP, XPSR_THUMB,
};

const BASE: u32 = 0x2000_0000;

fn blank_task() -> Task {
    Task {
        sp: 0,
        exc_return: 0,
        id: 0,
        name: "",
        priority: 0,
        state: TaskState::Suspended,
        callee_saved_regs: CalleeSavedRegisters {
            r4: 1, r5: 1, r6: 1, r7: 1, r8: 1, r9: 1, r10: 1, r11: 1,
        },
    }
}

#[test]
fn forkyi_builds_initial_frame() {
    let mut stack = AlignedStack([0xAAAA_AAAAu32; 32]);
    let mut task = blank_task();
    forkyi(&mut task, &mut stack, BASE, BASE + 4 * 32, 0x0800_1235, 0x2000_1000, 5, "shell", 1, TaskState::Ready);
    assert_eq!(task.sp, BASE + 4 * 16);
    assert_eq!(task.exc_return, 0xFFFF_FFFD);
    assert_eq!(task.id, 5);
    assert_eq!(task.name, "shell");
    assert_eq!(task.priority, 1);
    assert_eq!(task.state, TaskState::Ready);
    assert_eq!(task.callee_saved_regs, CalleeSavedRegisters::zeroed());
    let frame = &stack.0[16..32];
    assert_eq!(
        frame,
        &[0, 0, 0, 0, 0, 0, 0, 0, 0x2000_1000, 0, 0, 0, 0, 0xFFFF_FFFD, 0x0800_1235, 0x0100_0000]
    );
    assert!(stack.0[..16].iter().all(|&w| w == 0xAAAA_AAAA));
}

#[test]
fn forkyi_aligns_sp_down_to_eight_bytes() {
    let mut stack = AlignedStack([7u32; 24]);
    let mut task = blank_task();
    // sp four bytes below the end of the stack: rounded down to BASE + 0x58.
    forkyi(&mut task, &mut stack, BASE, BASE + 4 * 24 - 4, 0x100, 0, 1, "t", 0, TaskState::Ready);
    assert_eq!(task.sp, BASE + 0x58 - 64);
    assert_eq!(task.sp % 8, 0);
    assert_eq!(stack.0[22 - 1], XPSR_THUMB);
    assert_eq!(stack.0[22 - 2], 0x100);
    assert_eq!(stack.0[22], 7);
    assert_eq!(stack.0[23], 7);
    assert_eq!(stack.0[5], 7);
}

#[test]
fn started_task_returns_into_its_frame() {
    let mut stack = AlignedStack([0u32; 32]);
    let mut task = blank_task();
    forkyi(&mut task, &mut stack, BASE, BASE + 128, 0x0800_0101, 9, 1, "idle", 16, TaskState::Ready);
    let mut s = Scheduler::new();
    let r = start_first_task(&mut s, &[task], 0);
    assert_eq!(r, ExceptionReturn { sp: task.sp + 32, exc_return: EXC_RETURN_THREAD_PSP, use_psp: true });
    assert_eq!(s.current, Some(0));
    assert_eq!(s.start_task, Some(0));
    let idx = ((r.sp - BASE) / 4) as usize;
    assert_eq!(stack.0[idx], 9);
    assert_eq!(stack.0[idx + 6], 0x0800_0101);
}

#[test]
fn schedule_alternates_between_main_and_dummy() {
    let mut s = Scheduler::new();
    init_rq(&mut s, 0, 1);
    init_current(&mut s, 0);
    assert_eq!(s.current, Some(0));
    schedule(&mut s);
    assert_eq!(s.current, Some(0));
    sys_tick(&mut s);
    schedule(&mut s);
    assert_eq!(s.current, Some(1));
    sys_tick(&mut s);
    schedule(&mut s);
    assert_eq!(s.current, Some(0));
    assert_eq!(s.tick_count, 2);
}

#[test]
fn tick_count_wraps_and_keeps_alternating() {
    let mut s = Scheduler::new();
    init_rq(&mut s, 3, 4);
    s.tick_count = u32::MAX - 1;
    sys_tick(&mut s);
    schedule(&mut s);
    assert_eq!(s.current, Some(4));
    sys_tick(&mut s);
    assert_eq!(s.tick_count, 0);
    schedule(&mut s);
    assert_eq!(s.current, Some(3));
}

#[test]
fn pend_sv_saves_and_restores() {
    let mut a = blank_task();
    a.sp = 0x2000_0100;
    a.exc_return = EXC_RETURN_THREAD_PSP;
    let mut b = blank_task();
    b.sp = 0x2000_0400;
    b.exc_return = 0xFFFF_FFF9;
    let mut tasks = vec![a, b];
    let mut s = Scheduler::new();
    init_rq(&mut s, 0, 1);
    init_current(&mut s, 0);
    sys_tick(&mut s);
    // Task 0 interrupted with its stack pointer at 0x2000_0180.
    let r = pend_sv(&mut s, &mut tasks, 0x2000_0180, EXC_RETURN_THREAD_PSP);
    assert_eq!(tasks[0].sp, 0x2000_0160);
    assert_eq!(s.current, Some(1));
    assert_eq!(r, ExceptionReturn { sp: 0x2000_0420, exc_return: 0xFFFF_FFF9, use_psp: false });
    sys_tick(&mut s);
    let r = pend_sv(&mut s, &mut tasks, 0x2000_0500, 0xFFFF_FFF9);
    assert_eq!(tasks[1].sp, 0x2000_04E0);
    assert_eq!(r, ExceptionReturn { sp: 0x2000_0180, exc_return: EXC_RETURN_THREAD_PSP, use_psp: true });
    switch_ctx(0, 1);
}

#[test]
fn fork_argument_checks() {
    assert!(fork_args_valid(32, BASE, BASE + 128));
    assert!(!fork_args_valid(32, BASE + 4, BASE + 128));
    assert!(!fork_args_valid(32, BASE, BASE + 132));
    assert!(!fork_args_valid(32, BASE, BASE + 63));
    assert!(fork_args_valid(32, BASE, BASE + 64));
    assert!(!fork_args_valid(32, 0xFFFF_FFF8, 0xFFFF_FFFF));
}

#[test]
fn restore_limit() {
    let mut t = blank_task();
    t.sp = 0xFFFF_FFDF;
    assert!(can_restore(&t));
    t.sp = 0xFFFF_FFE0;
    assert!(!can_restore(&t));
}
