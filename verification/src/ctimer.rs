use vstd::prelude::*;

verus! {

/// The flag through which the CTIMER0 match interrupt hands a tick to the main loop.
pub struct TickFlag {
    pending: bool,
}

impl View for TickFlag {
    type V = bool;

    /// Whether a tick is waiting to be taken.
    open spec fn view(&self) -> bool {
        self.is_pending()
    }
}

impl TickFlag {
    pub closed spec fn is_pending(&self) -> bool {
        self.pending
    }

    /// A flag with no tick pending.
    pub fn new() -> (f: Self)
        ensures
            !f@,
    {
        TickFlag { pending: false }
    }
}

/// The flag after the interrupt has signalled a tick.
pub open spec fn spec_signal_tick(pending: bool) -> bool {
    true
}

/// What a take reports, and the flag it leaves behind.
pub open spec fn spec_take_tick(pending: bool) -> (bool, bool) {
    (pending, false)
}

/// What the CTIMER0 interrupt does to the flag once it has cleared the match-0 interrupt:
/// it marks a tick as pending.
pub fn signal_tick(flag: &mut TickFlag)
    ensures
        final(flag)@ == spec_signal_tick(old(flag)@),
{
    flag.pending = true;
}

/// Takes the pending tick: returns whether one was pending and leaves none pending
/// (a swap with `false`).
pub fn take_tick(flag: &mut TickFlag) -> (ticked: bool)
    ensures
        (ticked, final(flag)@) == spec_take_tick(old(flag)@),
{
    let ticked = flag.pending;
    flag.pending = false;
    ticked
}

/// A signalled tick is taken exactly once: the first take after a signal reports it, and a
/// second take with no signal in between reports nothing.
pub proof fn lemma_tick_taken_once(pending: bool)
    ensures
        spec_take_tick(spec_signal_tick(pending)).0,
        !spec_take_tick(spec_take_tick(spec_signal_tick(pending)).1).0,
{
}

/// Ticks do not accumulate: two signals before a take are reported as one.
pub proof fn lemma_ticks_coalesce(pending: bool)
    ensures
        spec_signal_tick(spec_signal_tick(pending)) == spec_signal_tick(pending),
{
}

/// A take never leaves a tick pending, whatever the flag held: it reports exactly what was
/// pending, and a second take with no signal in between reports nothing.
pub proof fn lemma_take_clears(pending: bool)
    ensures
        spec_take_tick(pending).0 == pending,
        spec_take_tick(pending).1 == false,
        spec_take_tick(spec_take_tick(pending).1).0 == false,
        spec_take_tick(spec_take_tick(pending).1).1 == false,
{
}

} // verus!
