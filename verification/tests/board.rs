use rtsched_board::board::{
    board_print_thread_iteration, board_print_u32, led_blink_step, print_sched_isr_timing,
    Consumer, SchedTiming, TokenStats,
};

#[test]
fn prints_u32() {
    assert_eq!(board_print_u32(0), b"0".to_vec());
    assert_eq!(board_print_u32(115_200), b"115200".to_vec());
}

#[test]
fn iteration_line() {
    assert_eq!(board_print_thread_iteration("rt_thread1", 3), b"rt_thread1 running at 3\r\n".to_vec());
}

#[test]
fn token_counting() {
    let mut s = TokenStats::new();
    s.record_give(true);
    s.record_give(true);
    s.record_give(false);
    s.record_take(Consumer::RtThread2, true);
    s.record_take(Consumer::RtThread3, false);
    assert_eq!((s.produced, s.overflows, s.consumed_by_rt_thread2, s.consumed_by_rt_thread3, s.take_errors), (2, 1, 1, 0, 1));
    assert_eq!(s.produced_message(), b"Produced 2 tokens\r\n".to_vec());
    assert_eq!(s.consumed_message(Consumer::RtThread2), b"Consumed by rt_thread2:1 tokens\r\n".to_vec());
    assert_eq!(s.consumed_message(Consumer::RtThread3), b"Consumed by rt_thread3:0 tokens\r\n".to_vec());
}

#[test]
fn counters_wrap() {
    let mut s = TokenStats::new();
    s.produced = u32::MAX;
    s.record_give(true);
    assert_eq!(s.produced, 0);
}

#[test]
fn timing_reported_once_per_sample_count() {
    let mut last = 0u32;
    let none = SchedTiming { last_ticks: 5, max_ticks: 9, samples: 0 };
    assert!(print_sched_isr_timing(&mut last, none).is_none());
    let t = SchedTiming { last_ticks: 120, max_ticks: 340, samples: 3 };
    let report = print_sched_isr_timing(&mut last, t).unwrap();
    assert_eq!(report, b"systick->pendsv ticks last=120 max=340 samples=3\r\n".to_vec());
    assert_eq!(last, 3);
    assert!(print_sched_isr_timing(&mut last, t).is_none());
}

#[test]
fn led_toggles() {
    let mut high = true;
    let step = led_blink_step(&mut high);
    assert!(step.drive_low);
    assert_eq!(step.message, b"set red low\r\n".to_vec());
    assert!(!high);
    let step = led_blink_step(&mut high);
    assert!(!step.drive_low);
    assert_eq!(step.message, b"set red high\r\n".to_vec());
    assert!(high);
}

use rtsched_board::board::{RtAction, RtJob, RtJobKind};

fn period(kind: RtJobKind) -> Vec<RtAction> {
    let mut job = RtJob::new(kind);
    let mut actions = Vec::new();
    loop {
        let a = job.step();
        actions.push(a);
        if a == RtAction::Yield {
            break;
        }
    }
    // The next period starts over.
    assert_eq!(job.step(), RtAction::MarkStart);
    actions
}

#[test]
fn producer_job_schedule() {
    let actions = period(RtJobKind::Producer);
    assert_eq!(actions.len(), 32);
    assert_eq!(actions[0], RtAction::MarkStart);
    for k in 0..5usize {
        let b = 1 + 6 * k;
        assert_eq!(actions[b], RtAction::Announce(k as u32 + 1));
        assert_eq!(actions[b + 1], RtAction::Sleep(10));
        assert_eq!(&actions[b + 2..b + 5], &[RtAction::Give; 3]);
        assert_eq!(actions[b + 5], RtAction::Report);
    }
    assert_eq!(actions[31], RtAction::Yield);
}

#[test]
fn consumer_job_schedule() {
    let actions = period(RtJobKind::Consumer(Consumer::RtThread3));
    assert_eq!(actions.len(), 22);
    assert_eq!(
        &actions[1..5],
        &[RtAction::Announce(1), RtAction::Sleep(10), RtAction::Take, RtAction::Report]
    );
    assert_eq!(actions[17], RtAction::Announce(5));
    assert_eq!(actions[21], RtAction::Yield);
}

#[test]
fn producer_iteration_counts_three_gives() {
    let mut s = TokenStats::new();
    for accepted in [true, false, true] {
        s.record_give(accepted);
    }
    assert_eq!((s.produced, s.overflows), (2, 1));
}
