use rtsched_board::shell::{
    ascii_debug, dump_help, dump_ktimer_queue, dump_run_queue, handle_shell_command,
    parse_command, shell_prompt, shell_write_u32, shell_write_u64, snapshot_run_queue,
    thread_state_name, KTimerEntry, LineEditor, SchedEntityInfo, ShellCommand, ShellReply,
    ThreadSnapshot, ThreadState,
};
use rtsched_board::stdout::{stdout, Stdout, StdoutSetting};

fn feed_all(ed: &mut LineEditor, bytes: &[u8]) -> Vec<u8> {
    let mut echo = Vec::new();
    for &b in bytes {
        let step = ed.feed(b);
        echo.extend_from_slice(&step.echo);
        assert!(step.submitted.is_none());
    }
    echo
}

#[test]
fn editor_echoes_and_submits() {
    let mut ed = LineEditor::new();
    assert_eq!(feed_all(&mut ed, b"ps"), b"ps".to_vec());
    let step = ed.feed(b'\r');
    assert_eq!(step.echo, b"\r\n".to_vec());
    assert_eq!(step.submitted, Some(b"ps".to_vec()));
    assert!(step.prompt);
    assert_eq!(ed.len(), 0);
}

#[test]
fn editor_empty_line_submits_nothing() {
    let mut ed = LineEditor::new();
    let step = ed.feed(b'\n');
    assert_eq!(step.echo, b"\r\n".to_vec());
    assert_eq!(step.submitted, None);
    assert!(step.prompt);
}

#[test]
fn editor_backspace_erases() {
    let mut ed = LineEditor::new();
    feed_all(&mut ed, b"ab");
    let step = ed.feed(0x08);
    assert_eq!(step.echo, b"\x08 \x08".to_vec());
    let step = ed.feed(0x7f);
    assert_eq!(step.echo, b"\x08 \x08".to_vec());
    assert_eq!(ed.len(), 0);
    let step = ed.feed(0x7f);
    assert!(step.echo.is_empty());
    assert_eq!(ed.len(), 0);
}

#[test]
fn editor_ignores_control_bytes_and_overflow() {
    let mut ed = LineEditor::new();
    let step = ed.feed(0x1b);
    assert!(step.echo.is_empty());
    assert_eq!(ed.len(), 0);
    let long = [b'x'; 40];
    let echo = feed_all(&mut ed, &long);
    assert_eq!(echo.len(), 32);
    assert_eq!(ed.len(), 32);
    let step = ed.feed(b'\r');
    assert_eq!(step.submitted, Some(vec![b'x'; 32]));
}

#[test]
fn commands_parse() {
    assert_eq!(parse_command(b"help"), ShellCommand::Help);
    assert_eq!(parse_command(b"ps"), ShellCommand::Ps);
    assert_eq!(parse_command(b"tmr"), ShellCommand::Tmr);
    assert_eq!(parse_command(b"uart"), ShellCommand::Uart);
    assert_eq!(parse_command(b"rtt"), ShellCommand::Rtt);
    assert_eq!(parse_command(b""), ShellCommand::Empty);
    assert_eq!(parse_command(b"help "), ShellCommand::Unknown);
    assert_eq!(parse_command(b"p"), ShellCommand::Unknown);
}

fn text(r: ShellReply) -> Vec<u8> {
    match r {
        ShellReply::Text(t) => t,
        _ => panic!("expected text"),
    }
}

#[test]
fn command_replies() {
    let mut s = StdoutSetting::new();
    assert!(matches!(handle_shell_command(b"ps", &mut s), ShellReply::DumpRunQueue));
    assert!(matches!(handle_shell_command(b"tmr", &mut s), ShellReply::DumpKTimerQueue));
    assert_eq!(text(handle_shell_command(b"rtt", &mut s)), b"stdout: rtt\r\n".to_vec());
    assert_eq!(stdout(&s), Stdout::Rtt);
    assert_eq!(text(handle_shell_command(b"uart", &mut s)), b"stdout: uart\r\n".to_vec());
    assert_eq!(stdout(&s), Stdout::Uart);
    assert_eq!(text(handle_shell_command(b"", &mut s)), Vec::<u8>::new());
    assert_eq!(
        text(handle_shell_command(b"reboot", &mut s)),
        b"unknown command: reboot\r\n".to_vec()
    );
    assert_eq!(text(handle_shell_command(b"help", &mut s)), dump_help());
}

#[test]
fn help_text_lists_commands() {
    let help = String::from_utf8(dump_help()).unwrap();
    assert!(help.starts_with("commands:\r\n"));
    assert!(help.contains("  ps    show run queue threads\r\n"));
    assert!(help.ends_with("  rtt   route board_printf output to RTT\r\n"));
    assert_eq!(help.lines().count(), 6);
}

#[test]
fn prompt_and_ascii_debug() {
    assert_eq!(shell_prompt(), b"shell> ".to_vec());
    assert_eq!(ascii_debug(b'a'), 'a');
    assert_eq!(ascii_debug(b' '), ' ');
    assert_eq!(ascii_debug(0x0d), '.');
    assert_eq!(ascii_debug(0x7f), '.');
}

#[test]
fn decimal_output() {
    assert_eq!(shell_write_u32(0), b"0".to_vec());
    assert_eq!(shell_write_u32(7), b"7".to_vec());
    assert_eq!(shell_write_u32(1050), b"1050".to_vec());
    assert_eq!(shell_write_u32(u32::MAX), b"4294967295".to_vec());
    assert_eq!(shell_write_u64(u64::MAX), b"18446744073709551615".to_vec());
    assert_eq!(shell_write_u64(10), b"10".to_vec());
}

#[test]
fn decimal_round_trip() {
    for v in [0u64, 1, 9, 10, 99, 100, 12345, u64::MAX] {
        let s = String::from_utf8(shell_write_u64(v)).unwrap();
        assert_eq!(s.parse::<u64>().unwrap(), v);
    }
}

#[test]
fn state_names() {
    assert_eq!(thread_state_name(ThreadState::Ready), "Ready");
    assert_eq!(thread_state_name(ThreadState::Running), "Running");
    assert_eq!(thread_state_name(ThreadState::Waiting), "Waiting");
}

fn thread(id: u32) -> ThreadSnapshot {
    ThreadSnapshot::capture(
        id,
        "worker",
        ThreadState::Ready,
        Some(SchedEntityInfo { priority: 4, sched_tick_cnt: 12, vruntime: 300 }),
    )
}

#[test]
fn snapshot_without_entity_is_zeroed() {
    let t = ThreadSnapshot::capture(3, "idle", ThreadState::Running, None);
    assert_eq!((t.id, t.priority, t.sched_tick_cnt, t.vruntime), (3, 0, 0, 0));
    let d = ThreadSnapshot::default();
    assert_eq!(d.name, "");
    assert_eq!(d.state, ThreadState::Waiting);
}

#[test]
fn snapshot_truncates_after_capacity() {
    let eight: Vec<ThreadSnapshot> = (0..8).map(thread).collect();
    let snap = snapshot_run_queue(&eight);
    assert_eq!(snap.threads.len(), 8);
    assert!(!snap.truncated);
    let nine: Vec<ThreadSnapshot> = (0..9).map(thread).collect();
    let snap = snapshot_run_queue(&nine);
    assert_eq!(snap.threads.len(), 8);
    assert_eq!(snap.threads[7].id, 7);
    assert!(snap.truncated);
}

#[test]
fn run_queue_listing() {
    let snap = snapshot_run_queue(&[
        ThreadSnapshot::capture(1, "cpu_idle", ThreadState::Running, None),
        thread(2),
    ]);
    let out = String::from_utf8(dump_run_queue(&snap)).unwrap();
    assert_eq!(
        out,
        "run queue:\r\n  id=1 name=cpu_idle prio=0 state=Running ticks=0 vruntime=0\r\n  id=2 name=worker prio=4 state=Ready ticks=12 vruntime=300\r\n"
    );
    let nine: Vec<ThreadSnapshot> = (0..9).map(thread).collect();
    let out = String::from_utf8(dump_run_queue(&snapshot_run_queue(&nine))).unwrap();
    assert!(out.ends_with("  ... truncated ...\r\n"));
    assert_eq!(out.lines().count(), 10);
}

#[test]
fn ktimer_listing() {
    let out = dump_ktimer_queue(&[
        KTimerEntry { name: "rt_thread1", deadline: 1200000, active: true },
        KTimerEntry { name: "sleep", deadline: 0, active: false },
    ]);
    assert_eq!(
        String::from_utf8(out).unwrap(),
        "ktimer queue:\r\n  name=rt_thread1 deadline=1200000 active=yes\r\n  name=sleep deadline=0 active=no\r\n"
    );
    assert_eq!(dump_ktimer_queue(&[]), b"ktimer queue:\r\n".to_vec());
}
