use rtsched_board::ctimer::{signal_tick, take_tick, TickFlag};
use rtsched_board::stdout::{
    output_sink, set_stdout, set_stdout_rtt, set_stdout_uart, stdout, stdout_code, OutputSink,
    Stdout, StdoutSetting,
};
use rtsched_board::uart::{rx_ready, try_read, tx_ready, write_line, SerialError};

#[test]
fn stdout_defaults_to_uart() {
    let s = StdoutSetting::new();
    assert_eq!(stdout(&s), Stdout::Uart);
    assert_eq!(s.raw(), 0);
}

#[test]
fn stdout_reads_back_what_was_set() {
    let mut s = StdoutSetting::new();
    set_stdout(&mut s, Stdout::Rtt);
    assert_eq!(stdout(&s), Stdout::Rtt);
    set_stdout(&mut s, Stdout::Uart);
    assert_eq!(stdout(&s), Stdout::Uart);
    set_stdout_rtt(&mut s);
    assert_eq!(stdout(&s), Stdout::Rtt);
    assert_eq!(s.raw(), 1);
    set_stdout_uart(&mut s);
    assert_eq!(stdout(&s), Stdout::Uart);
}

#[test]
fn stdout_codes() {
    assert_eq!(stdout_code(Stdout::Uart), 0);
    assert_eq!(stdout_code(Stdout::Rtt), 1);
}

#[test]
fn unknown_stored_byte_selects_uart() {
    assert_eq!(stdout(&StdoutSetting::from_code(7)), Stdout::Uart);
    assert_eq!(stdout(&StdoutSetting::from_code(255)), Stdout::Uart);
    assert_eq!(stdout(&StdoutSetting::from_code(1)), Stdout::Rtt);
}

#[test]
fn board_printf_routing() {
    assert_eq!(output_sink(false, Stdout::Uart, true), OutputSink::Dropped);
    assert_eq!(output_sink(true, Stdout::Uart, true), OutputSink::Uart);
    assert_eq!(output_sink(true, Stdout::Uart, false), OutputSink::Rtt);
    assert_eq!(output_sink(true, Stdout::Rtt, true), OutputSink::Rtt);
}

#[test]
fn tick_is_taken_once() {
    let mut f = TickFlag::new();
    assert!(!take_tick(&mut f));
    signal_tick(&mut f);
    signal_tick(&mut f);
    assert!(take_tick(&mut f));
    assert!(!take_tick(&mut f));
}

#[test]
fn write_line_appends_crlf() {
    assert_eq!(write_line(b"ok"), b"ok\r\n".to_vec());
    assert_eq!(write_line(b""), b"\r\n".to_vec());
}

#[test]
fn try_read_empty_fifo() {
    assert_eq!(try_read(0, 0xffff_ffff), Ok(None));
    assert!(!rx_ready(0));
}

#[test]
fn try_read_byte() {
    // RXNOTEMPTY (bit 6); data 'A' plus bit 8 of the 9-bit data field.
    assert!(rx_ready(0x40));
    assert_eq!(try_read(0x40, 0x141), Ok(Some(b'A')));
}

#[test]
fn try_read_errors_in_priority_order() {
    let stat = 0x40 | 0x2;
    assert_eq!(try_read(stat, (1 << 13) | (1 << 14) | (1 << 15)), Err(SerialError::Framing));
    assert_eq!(try_read(stat, (1 << 14) | (1 << 15)), Err(SerialError::Parity));
    assert_eq!(try_read(stat, 1 << 15), Err(SerialError::Noise));
    assert_eq!(try_read(stat, 0x41), Err(SerialError::Overrun));
    assert_eq!(try_read(0x40, 0x41), Ok(Some(b'A')));
}

#[test]
fn tx_ready_bit() {
    assert!(tx_ready(1 << 5));
    assert!(!tx_ready(!(1u32 << 5)));
}
