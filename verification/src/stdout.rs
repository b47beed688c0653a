use vstd::prelude::*;

verus! {

/// Where formatted board output is routed.
#[derive(Clone, Copy, Debug, PartialEq, Eq, Structural)]
pub enum Stdout {
    Uart,
    Rtt,
}

/// The byte under which a route is stored.
pub open spec fn spec_stdout_code(s: Stdout) -> u8 {
    match s {
        Stdout::Uart => 0,
        Stdout::Rtt => 1,
    }
}

/// Stored byte to route: only the code of `Rtt` selects RTT; every other byte selects the UART.
pub open spec fn spec_decode_stdout(code: u8) -> Stdout {
    if code == spec_stdout_code(Stdout::Rtt) {
        Stdout::Rtt
    } else {
        Stdout::Uart
    }
}

/// The stored output route: one byte, as a single atomic cell holds it on the board.
pub struct StdoutSetting {
    code: u8,
}

impl View for StdoutSetting {
    type V = u8;

    open spec fn view(&self) -> u8 {
        self.code()
    }
}

impl StdoutSetting {
    /// The stored byte.
    pub closed spec fn code(&self) -> u8 {
        self.code
    }

    /// A setting that routes to the UART, the power-on default.
    pub fn new() -> (s: Self)
        ensures
            s@ == spec_stdout_code(Stdout::Uart),
            spec_decode_stdout(s@) == Stdout::Uart,
    {
        StdoutSetting { code: 0 }
    }

    /// A setting that holds an arbitrary stored byte (as loaded from the board's cell).
    pub fn from_code(code: u8) -> (s: Self)
        ensures
            s@ == code,
    {
        StdoutSetting { code }
    }

    /// The stored byte (to be written back to the board's cell).
    pub fn raw(&self) -> (code: u8)
        ensures
            code == self@,
    {
        self.code
    }
}

/// Returns the byte under which `stdout` is stored.
pub fn stdout_code(stdout: Stdout) -> (code: u8)
    ensures
        code == spec_stdout_code(stdout),
{
    match stdout {
        Stdout::Uart => 0,
        Stdout::Rtt => 1,
    }
}

/// Selects the route of all later board output.
pub fn set_stdout(setting: &mut StdoutSetting, stdout: Stdout)
    ensures
        final(setting)@ == spec_stdout_code(stdout),
{
    setting.code = stdout_code(stdout);
}

/// Routes all later board output to the UART.
pub fn set_stdout_uart(setting: &mut StdoutSetting)
    ensures
        final(setting)@ == spec_stdout_code(Stdout::Uart),
{
    set_stdout(setting, Stdout::Uart);
}

/// Routes all later board output to RTT.
pub fn set_stdout_rtt(setting: &mut StdoutSetting)
    ensures
        final(setting)@ == spec_stdout_code(Stdout::Rtt),
{
    set_stdout(setting, Stdout::Rtt);
}

/// The route that the stored byte selects.
pub fn stdout(setting: &StdoutSetting) -> (s: Stdout)
    ensures
        s == spec_decode_stdout(setting@),
{
    if setting.code == 1 {
        Stdout::Rtt
    } else {
        Stdout::Uart
    }
}

/// A read of the route gives back the route last written.
pub proof fn lemma_stdout_reads_back(stdout: Stdout)
    ensures
        spec_decode_stdout(spec_stdout_code(stdout)) == stdout,
{
}

/// Where one `board_printf` message goes.
#[derive(Clone, Copy, Debug, PartialEq, Eq, Structural)]
pub enum OutputSink {
    /// Written byte by byte to the UART.
    Uart,
    /// Printed on the RTT channel.
    Rtt,
    /// Not printed: the output lock could not be taken.
    Dropped,
}

/// The sink that `board_printf` picks.
pub open spec fn spec_output_sink(lock_acquired: bool, stdout: Stdout, uart_ready: bool) -> OutputSink {
    if !lock_acquired {
        OutputSink::Dropped
    } else if stdout == Stdout::Uart && uart_ready {
        OutputSink::Uart
    } else {
        OutputSink::Rtt
    }
}

/// Picks where `board_printf` sends a message: nowhere when the output lock was not
/// acquired, to the UART when it is selected and ready, and to RTT otherwise.
pub fn output_sink(lock_acquired: bool, stdout: Stdout, uart_ready: bool) -> (sink: OutputSink)
    ensures
        sink == spec_output_sink(lock_acquired, stdout, uart_ready),
{
    if !lock_acquired {
        OutputSink::Dropped
    } else {
        match stdout {
            Stdout::Uart if uart_ready => OutputSink::Uart,
            _ => OutputSink::Rtt,
        }
    }
}

} // verus!
