use vstd::prelude::*;

pub mod stdout;
pub mod text;
pub mod ctimer;
pub mod uart;
pub mod shell;
pub mod task;
pub mod sched;
pub mod board;

verus! {

} // verus!
