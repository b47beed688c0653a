# rtsched_board

Verified core of the LPC55S69 board programs for a small Cortex-M scheduler.

`src/` holds the logic, each function with a Verus contract:

- `stdout`: the stored output route (UART or RTT) and the choice of sink for a message.
- `ctimer`: the tick flag shared between the CTIMER0 interrupt and the main loop.
- `uart`: decoding of the USART FIFO status and data words, and line framing.
- `text`: byte-string helpers and decimal formatting with its round-trip law.
- `shell`: the line editor, command handling, and the `help`, `ps` and `tmr` listings.
- `task`: task control blocks and `forkyi`, which lays out a new task's initial context.
- `sched`: the tick-driven scheduler, the start-up and PendSV context switch decisions.
- `board`: messages and counters of the demonstration threads.

`app/` is the board program around it: register accesses, the exception handlers and the
task loops.
