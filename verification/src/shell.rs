use vstd::prelude::*;
use vstd::string::StringSliceAdditionalSpecFns;

use crate::stdout::{set_stdout_rtt, set_stdout_uart, spec_stdout_code, Stdout, StdoutSetting};
use crate::text::{
    all_digits, append_bytes, append_decimal, append_str, decimal_digits, decimal_value,
    lemma_decimal_round_trip,
};

verus! {

/// Capacity of the shell's line buffer, in bytes.
pub const SHELL_BUF_LEN: usize = 32;

/// Most run-queue entries that one `ps` listing shows.
pub const PS_SNAPSHOT_CAPACITY: usize = 8;

/// The prompt printed before each command line.
pub open spec fn prompt_text() -> Seq<u8> {
    "shell> ".spec_bytes()
}

/// The prompt that the shell prints before each command line.
pub fn shell_prompt() -> (p: Vec<u8>)
    ensures
        p@ == prompt_text(),
{
    let mut p: Vec<u8> = Vec::new();
    append_str(&mut p, "shell> ");
    p
}

/// A byte that the line editor keeps: a visible ASCII character or a space.
pub open spec fn is_printable(byte: u8) -> bool {
    0x20 <= byte <= 0x7e
}

/// A byte that ends the line: carriage return or line feed.
pub open spec fn is_line_end(byte: u8) -> bool {
    byte == 13 || byte == 10
}

/// A byte that erases the last character: backspace or delete.
pub open spec fn is_erase(byte: u8) -> bool {
    byte == 8 || byte == 0x7f
}

/// Whether `byte` is a visible ASCII character or a space.
pub fn is_printable_byte(byte: u8) -> (b: bool)
    ensures
        b == is_printable(byte),
{
    0x20 <= byte && byte <= 0x7e
}

/// The character under which a received byte is logged: itself when printable, else `.`.
pub fn ascii_debug(byte: u8) -> (c: char)
    ensures
        is_printable(byte) ==> c == byte as char,
        !is_printable(byte) ==> c == '.',
{
    if is_printable_byte(byte) {
        byte as char
    } else {
        '.'
    }
}

/// The line after the editor has received `byte`.
pub open spec fn feed_line(line: Seq<u8>, byte: u8) -> Seq<u8> {
    if is_line_end(byte) {
        Seq::empty()
    } else if is_erase(byte) {
        if line.len() > 0 {
            line.drop_last()
        } else {
            line
        }
    } else if is_printable(byte) && line.len() < SHELL_BUF_LEN {
        line.push(byte)
    } else {
        line
    }
}

/// What the editor echoes back for `byte` (before any command output).
pub open spec fn feed_echo(line: Seq<u8>, byte: u8) -> Seq<u8> {
    if is_line_end(byte) {
        seq![13u8, 10u8]
    } else if is_erase(byte) {
        if line.len() > 0 {
            seq![8u8, 32u8, 8u8]
        } else {
            Seq::empty()
        }
    } else if is_printable(byte) && line.len() < SHELL_BUF_LEN {
        seq![byte]
    } else {
        Seq::empty()
    }
}

/// The command line that `byte` submits, if any: the whole non-empty line on a line end.
pub open spec fn feed_submitted(line: Seq<u8>, byte: u8) -> Option<Seq<u8>> {
    if is_line_end(byte) && line.len() > 0 {
        Some(line)
    } else {
        None
    }
}

/// The editor's invariant: at most `SHELL_BUF_LEN` bytes, all of them printable.
pub open spec fn line_ok(line: Seq<u8>) -> bool {
    &&& line.len() <= SHELL_BUF_LEN
    &&& forall|i: int| 0 <= i < line.len() ==> is_printable(#[trigger] line[i])
}

/// The result of feeding one received byte to the line editor.
pub struct EditorStep {
    /// Bytes to echo to the terminal at once.
    pub echo: Vec<u8>,
    /// A complete command line to run, if the byte ended a non-empty line.
    pub submitted: Option<Vec<u8>>,
    /// Whether a fresh prompt follows (after the command's output, if any).
    pub prompt: bool,
}

/// The shell's line buffer.
pub struct LineEditor {
    line: Vec<u8>,
}

impl View for LineEditor {
    type V = Seq<u8>;

    open spec fn view(&self) -> Seq<u8> {
        self.contents()
    }
}

impl LineEditor {
    /// The bytes typed so far on the current line.
    pub closed spec fn contents(&self) -> Seq<u8> {
        self.line@
    }

    /// An editor with an empty line.
    pub fn new() -> (e: Self)
        ensures
            e@ == Seq::<u8>::empty(),
    {
        LineEditor { line: Vec::new() }
    }

    /// The number of bytes on the current line.
    pub fn len(&self) -> (n: usize)
        ensures
            n == self@.len(),
    {
        self.line.len()
    }

    /// Feeds one received byte: a line end submits the non-empty line and asks for a prompt,
    /// backspace or delete erases the last byte, a printable byte is appended while there is
    /// room, and any other byte is ignored.
    pub fn feed(&mut self, byte: u8) -> (step: EditorStep)
        ensures
            final(self)@ == feed_line(old(self)@, byte),
            step.echo@ == feed_echo(old(self)@, byte),
            step.submitted.is_some() == feed_submitted(old(self)@, byte).is_some(),
            step.submitted matches Some(l) ==> feed_submitted(old(self)@, byte) == Some(l@),
            step.prompt == is_line_end(byte),
    {
        let mut echo: Vec<u8> = Vec::new();
        if byte == 13 || byte == 10 {
            echo.push(13);
            echo.push(10);
            let mut submitted: Option<Vec<u8>> = None;
            if self.line.len() != 0 {
                let mut taken: Vec<u8> = Vec::new();
                std::mem::swap(&mut taken, &mut self.line);
                submitted = Some(taken);
            }
            assert(self.line@ =~= Seq::<u8>::empty());
            EditorStep { echo, submitted, prompt: true }
        } else if byte == 8 || byte == 0x7f {
            if self.line.len() != 0 {
                self.line.pop();
                echo.push(8);
                echo.push(32);
                echo.push(8);
            }
            EditorStep { echo, submitted: None, prompt: false }
        } else {
            if is_printable_byte(byte) && self.line.len() < SHELL_BUF_LEN {
                self.line.push(byte);
                echo.push(byte);
            }
            EditorStep { echo, submitted: None, prompt: false }
        }
    }
}

/// Every state that the editor reaches from a valid line is valid: the buffer never holds
/// more than `SHELL_BUF_LEN` bytes, and only printable ones.
pub proof fn lemma_feed_keeps_line_ok(line: Seq<u8>, byte: u8)
    requires
        line_ok(line),
    ensures
        line_ok(feed_line(line, byte)),
        feed_submitted(line, byte) matches Some(l) ==> line_ok(l) && l.len() > 0,
{
    let next = feed_line(line, byte);
    if !is_line_end(byte) && is_erase(byte) && line.len() > 0 {
        assert forall|i: int| 0 <= i < next.len() implies is_printable(#[trigger] next[i]) by {
            assert(next[i] == line[i]);
        }
    }
}

/// Erasing right after typing a character undoes it, when the line had room for it.
pub proof fn lemma_erase_undoes_type(line: Seq<u8>, byte: u8, erase: u8)
    requires
        is_printable(byte),
        line.len() < SHELL_BUF_LEN,
        is_erase(erase),
    ensures
        feed_line(feed_line(line, byte), erase) == line,
        feed_echo(line, byte) == seq![byte],
        feed_echo(feed_line(line, byte), erase) == seq![8u8, 32u8, 8u8],
{
    assert(line.push(byte).drop_last() =~= line);
}

/// The commands that the shell knows.
#[derive(Clone, Copy, Debug, PartialEq, Eq, Structural)]
pub enum ShellCommand {
    Help,
    Ps,
    Tmr,
    Uart,
    Rtt,
    Empty,
    Unknown,
}

/// The command that a line names.
pub open spec fn spec_parse_command(line: Seq<u8>) -> ShellCommand {
    if line == "help".spec_bytes() {
        ShellCommand::Help
    } else if line == "ps".spec_bytes() {
        ShellCommand::Ps
    } else if line == "tmr".spec_bytes() {
        ShellCommand::Tmr
    } else if line == "uart".spec_bytes() {
        ShellCommand::Uart
    } else if line == "rtt".spec_bytes() {
        ShellCommand::Rtt
    } else if line.len() == 0 {
        ShellCommand::Empty
    } else {
        ShellCommand::Unknown
    }
}

fn bytes_eq(a: &[u8], b: &[u8]) -> (eq: bool)
    ensures
        eq == (a@ == b@),
{
    if a.len() != b.len() {
        return false;
    }
    let mut i: usize = 0;
    while i < a.len()
        invariant
            a@.len() == b@.len(),
            i <= a@.len(),
            forall|j: int| 0 <= j < i ==> a@[j] == b@[j],
        decreases a@.len() - i,
    {
        if a[i] != b[i] {
            return false;
        }
        i += 1;
    }
    assert(a@ =~= b@);
    true
}

/// Names the command that a command line asks for: an exact match of one of the command
/// words, an empty line, or an unknown command.
pub fn parse_command(line: &[u8]) -> (c: ShellCommand)
    ensures
        c == spec_parse_command(line@),
{
    if bytes_eq(line, "help".as_bytes()) {
        ShellCommand::Help
    } else if bytes_eq(line, "ps".as_bytes()) {
        ShellCommand::Ps
    } else if bytes_eq(line, "tmr".as_bytes()) {
        ShellCommand::Tmr
    } else if bytes_eq(line, "uart".as_bytes()) {
        ShellCommand::Uart
    } else if bytes_eq(line, "rtt".as_bytes()) {
        ShellCommand::Rtt
    } else if line.len() == 0 {
        ShellCommand::Empty
    } else {
        ShellCommand::Unknown
    }
}

/// The bytes of the five command words.
proof fn lemma_command_words()
    ensures
        "help".spec_bytes() == seq![104u8, 101u8, 108u8, 112u8],
        "ps".spec_bytes() == seq![112u8, 115u8],
        "tmr".spec_bytes() == seq![116u8, 109u8, 114u8],
        "uart".spec_bytes() == seq![117u8, 97u8, 114u8, 116u8],
        "rtt".spec_bytes() == seq![114u8, 116u8, 116u8],
{
    reveal_strlit("help");
    reveal_strlit("ps");
    reveal_strlit("tmr");
    reveal_strlit("uart");
    reveal_strlit("rtt");
    vstd::string::is_ascii_spec_bytes("help");
    vstd::string::is_ascii_spec_bytes("ps");
    vstd::string::is_ascii_spec_bytes("tmr");
    vstd::string::is_ascii_spec_bytes("uart");
    vstd::string::is_ascii_spec_bytes("rtt");
    assert(vstd::string::is_ascii("help"));
    assert(vstd::string::is_ascii("ps"));
    assert(vstd::string::is_ascii("tmr"));
    assert(vstd::string::is_ascii("uart"));
    assert(vstd::string::is_ascii("rtt"));
    assert("help".spec_bytes() =~= seq![104u8, 101u8, 108u8, 112u8]);
    assert("ps".spec_bytes() =~= seq![112u8, 115u8]);
    assert("tmr".spec_bytes() =~= seq![116u8, 109u8, 114u8]);
    assert("uart".spec_bytes() =~= seq![117u8, 97u8, 114u8, 116u8]);
    assert("rtt".spec_bytes() =~= seq![114u8, 116u8, 116u8]);
}

/// A line names a command only when it is that command's word, byte for byte (`help`,
/// `ps`, `tmr`, `uart`, `rtt`); the empty line is empty, and every other line is unknown.
pub proof fn lemma_parse_command_exact(line: Seq<u8>)
    ensures
        (spec_parse_command(line) == ShellCommand::Help) <==> line == seq![104u8, 101u8, 108u8, 112u8],
        (spec_parse_command(line) == ShellCommand::Ps) <==> line == seq![112u8, 115u8],
        (spec_parse_command(line) == ShellCommand::Tmr) <==> line == seq![116u8, 109u8, 114u8],
        (spec_parse_command(line) == ShellCommand::Uart) <==> line == seq![117u8, 97u8, 114u8, 116u8],
        (spec_parse_command(line) == ShellCommand::Rtt) <==> line == seq![114u8, 116u8, 116u8],
        (spec_parse_command(line) == ShellCommand::Empty) <==> line.len() == 0,
        (spec_parse_command(line) == ShellCommand::Unknown) <==> (line.len() != 0
            && line != seq![104u8, 101u8, 108u8, 112u8] && line != seq![112u8, 115u8]
            && line != seq![116u8, 109u8, 114u8] && line != seq![117u8, 97u8, 114u8, 116u8]
            && line != seq![114u8, 116u8, 116u8]),
{
    lemma_command_words();
}

/// The text of the `help` command.
pub open spec fn help_text() -> Seq<u8> {
    "commands:\r\n  help  show this command list\r\n  ps    show run queue threads\r\n  tmr   show kernel timer queue\r\n  uart  route board_printf output to UART\r\n  rtt   route board_printf output to RTT\r\n".spec_bytes()
}

/// The command list that `help` prints.
pub fn dump_help() -> (text: Vec<u8>)
    ensures
        text@ == help_text(),
{
    let mut text: Vec<u8> = Vec::new();
    append_str(&mut text, "commands:\r\n  help  show this command list\r\n  ps    show run queue threads\r\n  tmr   show kernel timer queue\r\n  uart  route board_printf output to UART\r\n  rtt   route board_printf output to RTT\r\n");
    text
}

/// What a command line makes the shell do.
pub enum ShellReply {
    /// Print this text.
    Text(Vec<u8>),
    /// List the scheduler's run queue (see `snapshot_run_queue` and `dump_run_queue`).
    DumpRunQueue,
    /// List the kernel timer queue (see `dump_ktimer_queue`).
    DumpKTimerQueue,
}

/// The text that a command prints, for the commands that print fixed text.
pub open spec fn spec_command_text(line: Seq<u8>) -> Seq<u8> {
    match spec_parse_command(line) {
        ShellCommand::Help => help_text(),
        ShellCommand::Uart => "stdout: uart\r\n".spec_bytes(),
        ShellCommand::Rtt => "stdout: rtt\r\n".spec_bytes(),
        ShellCommand::Empty => Seq::empty(),
        _ => "unknown command: ".spec_bytes() + line + "\r\n".spec_bytes(),
    }
}

/// The stored output route after a command line.
pub open spec fn spec_command_stdout(line: Seq<u8>, before: u8) -> u8 {
    match spec_parse_command(line) {
        ShellCommand::Uart => spec_stdout_code(Stdout::Uart),
        ShellCommand::Rtt => spec_stdout_code(Stdout::Rtt),
        _ => before,
    }
}

/// Runs one command line: `help` prints the command list, `ps` and `tmr` ask for the run
/// queue and timer queue listings, `uart` and `rtt` select the output route and confirm
/// it, an empty line does nothing, and anything else is reported as an unknown command.
pub fn handle_shell_command(line: &[u8], setting: &mut StdoutSetting) -> (reply: ShellReply)
    ensures
        (reply is DumpRunQueue) <==> spec_parse_command(line@) == ShellCommand::Ps,
        (reply is DumpKTimerQueue) <==> spec_parse_command(line@) == ShellCommand::Tmr,
        reply matches ShellReply::Text(t) ==> t@ == spec_command_text(line@),
        final(setting)@ == spec_command_stdout(line@, old(setting)@),
{
    let mut text: Vec<u8> = Vec::new();
    match parse_command(line) {
        ShellCommand::Help => ShellReply::Text(dump_help()),
        ShellCommand::Ps => ShellReply::DumpRunQueue,
        ShellCommand::Tmr => ShellReply::DumpKTimerQueue,
        ShellCommand::Uart => {
            set_stdout_uart(setting);
            append_str(&mut text, "stdout: uart\r\n");
            ShellReply::Text(text)
        },
        ShellCommand::Rtt => {
            set_stdout_rtt(setting);
            append_str(&mut text, "stdout: rtt\r\n");
            ShellReply::Text(text)
        },
        ShellCommand::Empty => ShellReply::Text(text),
        ShellCommand::Unknown => {
            append_str(&mut text, "unknown command: ");
            append_bytes(&mut text, line);
            append_str(&mut text, "\r\n");
            ShellReply::Text(text)
        },
    }
}

/// The decimal text that the shell writes for a 32-bit value.
pub fn shell_write_u32(value: u32) -> (digits: Vec<u8>)
    ensures
        digits@ == decimal_digits(value as nat),
{
    let mut digits: Vec<u8> = Vec::new();
    append_decimal(&mut digits, value as u64);
    digits
}

/// The decimal text that the shell writes for a 64-bit value.
pub fn shell_write_u64(value: u64) -> (digits: Vec<u8>)
    ensures
        digits@ == decimal_digits(value as nat),
{
    let mut digits: Vec<u8> = Vec::new();
    append_decimal(&mut digits, value);
    digits
}

/// Lifecycle state of a scheduler thread, as the run-queue listing reports it.
#[derive(Clone, Copy, Debug, PartialEq, Eq, Structural)]
pub enum ThreadState {
    Ready,
    Running,
    Waiting,
}

/// The name under which a thread state is listed.
pub open spec fn spec_thread_state_name(state: ThreadState) -> &'static str {
    match state {
        ThreadState::Ready => "Ready",
        ThreadState::Running => "Running",
        ThreadState::Waiting => "Waiting",
    }
}

/// The name under which a thread state is listed.
pub fn thread_state_name(state: ThreadState) -> (name: &'static str)
    ensures
        name == spec_thread_state_name(state),
{
    match state {
        ThreadState::Ready => "Ready",
        ThreadState::Running => "Running",
        ThreadState::Waiting => "Waiting",
    }
}

/// The scheduling figures of a thread that has a CFS scheduling entity.
#[derive(Clone, Copy, Debug)]
pub struct SchedEntityInfo {
    pub priority: u32,
    pub sched_tick_cnt: u64,
    pub vruntime: u64,
}

/// One run-queue entry as the `ps` command lists it.
#[derive(Clone, Copy, Debug)]
pub struct ThreadSnapshot {
    pub id: u32,
    pub name: &'static str,
    pub priority: u32,
    pub state: ThreadState,
    pub sched_tick_cnt: u64,
    pub vruntime: u64,
}

impl Default for ThreadSnapshot {
    fn default() -> (t: Self)
        ensures
            t.id == 0,
            t.name@ == ""@,
            t.priority == 0,
            t.state == ThreadState::Waiting,
            t.sched_tick_cnt == 0,
            t.vruntime == 0,
    {
        ThreadSnapshot {
            id: 0,
            name: "",
            priority: 0,
            state: ThreadState::Waiting,
            sched_tick_cnt: 0,
            vruntime: 0,
        }
    }
}

impl ThreadSnapshot {
    /// Records a thread; a thread without a scheduling entity is listed with priority,
    /// tick count and virtual runtime zero.
    pub fn capture(id: u32, name: &'static str, state: ThreadState, entity: Option<SchedEntityInfo>) -> (t: Self)
        ensures
            t.id == id,
            t.name == name,
            t.state == state,
            t.priority == (match entity { Some(e) => e.priority, None => 0 }),
            t.sched_tick_cnt == (match entity { Some(e) => e.sched_tick_cnt, None => 0 }),
            t.vruntime == (match entity { Some(e) => e.vruntime, None => 0 }),
    {
        match entity {
            Some(e) => ThreadSnapshot {
                id,
                name,
                priority: e.priority,
                state,
                sched_tick_cnt: e.sched_tick_cnt,
                vruntime: e.vruntime,
            },
            None => ThreadSnapshot { id, name, priority: 0, state, sched_tick_cnt: 0, vruntime: 0 },
        }
    }
}

/// The entries of one `ps` listing, taken with interrupts masked.
pub struct RunQueueSnapshot {
    pub threads: Vec<ThreadSnapshot>,
    /// Whether the run queue held more entries than the listing shows.
    pub truncated: bool,
}

/// Keeps the first `PS_SNAPSHOT_CAPACITY` entries of the run queue (in queue order) and
/// marks the listing truncated exactly when the queue held more.
pub fn snapshot_run_queue(queue: &[ThreadSnapshot]) -> (snap: RunQueueSnapshot)
    ensures
        queue@.len() <= PS_SNAPSHOT_CAPACITY ==> snap.threads@ == queue@,
        queue@.len() > PS_SNAPSHOT_CAPACITY ==> snap.threads@ == queue@.take(PS_SNAPSHOT_CAPACITY as int),
        snap.truncated == (queue@.len() > PS_SNAPSHOT_CAPACITY),
{
    let mut threads: Vec<ThreadSnapshot> = Vec::new();
    let mut truncated = false;
    let mut i: usize = 0;
    while i < queue.len()
        invariant_except_break
            i <= queue@.len(),
            i <= PS_SNAPSHOT_CAPACITY,
            threads@ == queue@.take(i as int),
            !truncated,
        ensures
            threads@ == queue@.take(i as int),
            truncated == (queue@.len() > PS_SNAPSHOT_CAPACITY),
            i == (if queue@.len() > PS_SNAPSHOT_CAPACITY { PS_SNAPSHOT_CAPACITY as int } else { queue@.len() as int }),
        decreases queue@.len() - i,
    {
        if threads.len() == PS_SNAPSHOT_CAPACITY {
            truncated = true;
            break;
        }
        threads.push(queue[i]);
        i += 1;
        assert(threads@ =~= queue@.take(i as int));
    }
    if !truncated {
        assert(queue@.take(i as int) =~= queue@);
    }
    RunQueueSnapshot { threads, truncated }
}

/// The listing line of one thread.
pub open spec fn thread_line(t: ThreadSnapshot) -> Seq<u8> {
    "  id=".spec_bytes() + decimal_digits(t.id as nat) + " name=".spec_bytes() + t.name.spec_bytes()
        + " prio=".spec_bytes() + decimal_digits(t.priority as nat) + " state=".spec_bytes()
        + spec_thread_state_name(t.state).spec_bytes() + " ticks=".spec_bytes() + decimal_digits(
        t.sched_tick_cnt as nat,
    ) + " vruntime=".spec_bytes() + decimal_digits(t.vruntime as nat) + "\r\n".spec_bytes()
}

/// The listing lines of several threads, in order.
pub open spec fn thread_lines(threads: Seq<ThreadSnapshot>) -> Seq<u8>
    decreases threads.len(),
{
    if threads.len() == 0 {
        Seq::empty()
    } else {
        thread_lines(threads.drop_last()) + thread_line(threads.last())
    }
}

/// The whole `ps` listing.
pub open spec fn run_queue_text(threads: Seq<ThreadSnapshot>, truncated: bool) -> Seq<u8> {
    "run queue:\r\n".spec_bytes() + thread_lines(threads) + if truncated {
        "  ... truncated ...\r\n".spec_bytes()
    } else {
        Seq::empty()
    }
}

fn append_thread_line(out: &mut Vec<u8>, t: &ThreadSnapshot)
    ensures
        final(out)@ == old(out)@ + thread_line(*t),
{
    let ghost start = out@;
    append_str(out, "  id=");
    append_decimal(out, t.id as u64);
    append_str(out, " name=");
    append_str(out, t.name);
    append_str(out, " prio=");
    append_decimal(out, t.priority as u64);
    append_str(out, " state=");
    append_str(out, thread_state_name(t.state));
    append_str(out, " ticks=");
    append_decimal(out, t.sched_tick_cnt);
    append_str(out, " vruntime=");
    append_decimal(out, t.vruntime);
    append_str(out, "\r\n");
    assert(out@ =~= start + thread_line(*t));
}

/// The text that `ps` prints for a run-queue snapshot.
pub fn dump_run_queue(snapshot: &RunQueueSnapshot) -> (text: Vec<u8>)
    ensures
        text@ == run_queue_text(snapshot.threads@, snapshot.truncated),
{
    let mut text: Vec<u8> = Vec::new();
    append_str(&mut text, "run queue:\r\n");
    let ghost header = text@;
    let mut i: usize = 0;
    while i < snapshot.threads.len()
        invariant
            i <= snapshot.threads@.len(),
            header == "run queue:\r\n".spec_bytes(),
            text@ == header + thread_lines(snapshot.threads@.take(i as int)),
        decreases snapshot.threads@.len() - i,
    {
        append_thread_line(&mut text, &snapshot.threads[i]);
        let ghost prefix = snapshot.threads@.take(i as int + 1);
        assert(prefix.drop_last() =~= snapshot.threads@.take(i as int));
        i += 1;
        assert(text@ =~= header + thread_lines(snapshot.threads@.take(i as int)));
    }
    assert(snapshot.threads@.take(i as int) =~= snapshot.threads@);
    if snapshot.truncated {
        append_str(&mut text, "  ... truncated ...\r\n");
    }
    assert(text@ =~= run_queue_text(snapshot.threads@, snapshot.truncated));
    text
}

/// One kernel timer as the `tmr` command lists it.
#[derive(Clone, Copy, Debug)]
pub struct KTimerEntry {
    pub name: &'static str,
    pub deadline: u32,
    /// Whether the timer is armed.
    pub active: bool,
}

/// The listing line of one kernel timer.
pub open spec fn ktimer_line(e: KTimerEntry) -> Seq<u8> {
    "  name=".spec_bytes() + e.name.spec_bytes() + " deadline=".spec_bytes() + decimal_digits(
        e.deadline as nat,
    ) + " active=".spec_bytes() + (if e.active {
        "yes".spec_bytes()
    } else {
        "no".spec_bytes()
    }) + "\r\n".spec_bytes()
}

/// The listing lines of several kernel timers, in order.
pub open spec fn ktimer_lines(entries: Seq<KTimerEntry>) -> Seq<u8>
    decreases entries.len(),
{
    if entries.len() == 0 {
        Seq::empty()
    } else {
        ktimer_lines(entries.drop_last()) + ktimer_line(entries.last())
    }
}

/// The text that `tmr` prints for the kernel timer queue, in queue order.
pub fn dump_ktimer_queue(entries: &[KTimerEntry]) -> (text: Vec<u8>)
    ensures
        text@ == "ktimer queue:\r\n".spec_bytes() + ktimer_lines(entries@),
{
    let mut text: Vec<u8> = Vec::new();
    append_str(&mut text, "ktimer queue:\r\n");
    let ghost header = text@;
    let mut i: usize = 0;
    while i < entries.len()
        invariant
            i <= entries@.len(),
            header == "ktimer queue:\r\n".spec_bytes(),
            text@ == header + ktimer_lines(entries@.take(i as int)),
        decreases entries@.len() - i,
    {
        let e = entries[i];
        let ghost before = text@;
        append_str(&mut text, "  name=");
        append_str(&mut text, e.name);
        append_str(&mut text, " deadline=");
        append_decimal(&mut text, e.deadline as u64);
        append_str(&mut text, " active=");
        if e.active {
            append_str(&mut text, "yes");
        } else {
            append_str(&mut text, "no");
        }
        append_str(&mut text, "\r\n");
        assert(text@ =~= before + ktimer_line(e));
        let ghost prefix = entries@.take(i as int + 1);
        assert(prefix.drop_last() =~= entries@.take(i as int));
        i += 1;
        assert(text@ =~= header + ktimer_lines(entries@.take(i as int)));
    }
    assert(entries@.take(i as int) =~= entries@);
    text
}

/// Each `ps` line lists the thread's fields in order, each number as decimal digits that
/// read back as the thread's full value: `  id=<id> name=<name> prio=<priority>
/// state=<state> ticks=<ticks> vruntime=<vruntime>` and CR LF.
pub proof fn lemma_thread_line_fields(t: ThreadSnapshot)
    ensures
        exists|id: Seq<u8>, prio: Seq<u8>, ticks: Seq<u8>, vr: Seq<u8>| {
            &&& thread_line(t) == "  id=".spec_bytes() + id + " name=".spec_bytes() + t.name.spec_bytes()
                + " prio=".spec_bytes() + prio + " state=".spec_bytes() + spec_thread_state_name(t.state).spec_bytes()
                + " ticks=".spec_bytes() + ticks + " vruntime=".spec_bytes() + vr + "\r\n".spec_bytes()
            &&& all_digits(id) && decimal_value(id) == t.id
            &&& all_digits(prio) && decimal_value(prio) == t.priority
            &&& all_digits(ticks) && decimal_value(ticks) == t.sched_tick_cnt
            &&& all_digits(vr) && decimal_value(vr) == t.vruntime
        },
        t.state == ThreadState::Ready ==> spec_thread_state_name(t.state)@ == "Ready"@,
        t.state == ThreadState::Running ==> spec_thread_state_name(t.state)@ == "Running"@,
        t.state == ThreadState::Waiting ==> spec_thread_state_name(t.state)@ == "Waiting"@,
{
    lemma_decimal_round_trip(t.id as nat);
    lemma_decimal_round_trip(t.priority as nat);
    lemma_decimal_round_trip(t.sched_tick_cnt as nat);
    lemma_decimal_round_trip(t.vruntime as nat);
    let id = decimal_digits(t.id as nat);
    let prio = decimal_digits(t.priority as nat);
    let ticks = decimal_digits(t.sched_tick_cnt as nat);
    let vr = decimal_digits(t.vruntime as nat);
    assert(thread_line(t) == "  id=".spec_bytes() + id + " name=".spec_bytes() + t.name.spec_bytes()
        + " prio=".spec_bytes() + prio + " state=".spec_bytes() + spec_thread_state_name(t.state).spec_bytes()
        + " ticks=".spec_bytes() + ticks + " vruntime=".spec_bytes() + vr + "\r\n".spec_bytes());
}

/// Each `tmr` line gives the timer's name, its deadline as decimal digits that read back as
/// the deadline, and `active=yes` exactly when the timer is armed (`active=no` otherwise),
/// whatever its deadline.
pub proof fn lemma_ktimer_line_fields(e: KTimerEntry)
    ensures
        exists|d: Seq<u8>, flag: Seq<u8>| {
            &&& ktimer_line(e) == "  name=".spec_bytes() + e.name.spec_bytes() + " deadline=".spec_bytes() + d
                + " active=".spec_bytes() + flag + "\r\n".spec_bytes()
            &&& all_digits(d) && decimal_value(d) == e.deadline
            &&& e.active ==> flag == seq![121u8, 101u8, 115u8]
            &&& !e.active ==> flag == seq![110u8, 111u8]
        },
{
    lemma_decimal_round_trip(e.deadline as nat);
    reveal_strlit("yes");
    reveal_strlit("no");
    vstd::string::is_ascii_spec_bytes("yes");
    vstd::string::is_ascii_spec_bytes("no");
    assert(vstd::string::is_ascii("yes"));
    assert(vstd::string::is_ascii("no"));
    assert("yes".spec_bytes() =~= seq![121u8, 101u8, 115u8]);
    assert("no".spec_bytes() =~= seq![110u8, 111u8]);
    let d = decimal_digits(e.deadline as nat);
    let flag = if e.active { "yes".spec_bytes() } else { "no".spec_bytes() };
    assert(ktimer_line(e) == "  name=".spec_bytes() + e.name.spec_bytes() + " deadline=".spec_bytes() + d
        + " active=".spec_bytes() + flag + "\r\n".spec_bytes());
}

/// Listings grow line by line in queue order: listing one more entry appends exactly that
/// entry's line, and an empty queue lists nothing.
pub proof fn lemma_listings_extend(threads: Seq<ThreadSnapshot>, t: ThreadSnapshot, timers: Seq<KTimerEntry>, e: KTimerEntry)
    ensures
        thread_lines(Seq::<ThreadSnapshot>::empty()) == Seq::<u8>::empty(),
        thread_lines(threads.push(t)) == thread_lines(threads) + thread_line(t),
        ktimer_lines(Seq::<KTimerEntry>::empty()) == Seq::<u8>::empty(),
        ktimer_lines(timers.push(e)) == ktimer_lines(timers) + ktimer_line(e),
{
    assert(threads.push(t).drop_last() =~= threads);
    assert(timers.push(e).drop_last() =~= timers);
}

} // verus!
