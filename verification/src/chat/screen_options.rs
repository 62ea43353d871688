//! Screen sharing options.

use vstd::prelude::*;

verus! {

/// The options of a screen-sharing client.
pub struct ScreenOptions {
    /// Whether this client shares its screen.
    pub use_screen: bool,
    /// Whether this client watches another's share.
    pub attach_screen: bool,
    /// The monitor to share, by name; `None` is the primary monitor.
    pub monitor: Option<String>,
    /// Bumped whenever the monitor pick actually changes; a running capture starts over on the
    /// new monitor when it moves.
    pub monitor_generation: usize,
}

/// The characters of an optional name.
pub open spec fn name_view(name: Option<String>) -> Option<Seq<char>> {
    match name {
        Some(s) => Some(s@),
        None => None,
    }
}

impl ScreenOptions {
    /// The options at start-up: nothing shared or watched, the primary monitor, generation zero.
    pub fn new() -> (r: Self)
        ensures
            !r.use_screen,
            !r.attach_screen,
            r.monitor is None,
            r.monitor_generation == 0,
    {
        ScreenOptions { use_screen: false, attach_screen: false, monitor: None, monitor_generation: 0 }
    }
}

/// Whether this client shares its screen.
pub fn get_use_screen(opts: &ScreenOptions) -> (r: bool)
    ensures
        r == opts.use_screen,
{
    opts.use_screen
}

/// Sets whether this client shares its screen.
pub fn set_use_screen(opts: &mut ScreenOptions, use_screen: bool)
    ensures
        *final(opts) == (ScreenOptions { use_screen, ..*old(opts) }),
        screen_call(*old(opts), ScreenCall::SetUseScreen(use_screen), *final(opts)),
{
    opts.use_screen = use_screen;
}

/// Whether this client watches another's share.
pub fn get_attach_screen(opts: &ScreenOptions) -> (r: bool)
    ensures
        r == opts.attach_screen,
{
    opts.attach_screen
}

/// Sets whether this client watches another's share.
pub fn set_attach_screen(opts: &mut ScreenOptions, attach: bool)
    ensures
        *final(opts) == (ScreenOptions { attach_screen: attach, ..*old(opts) }),
        screen_call(*old(opts), ScreenCall::SetAttachScreen(attach), *final(opts)),
{
    opts.attach_screen = attach;
}

/// The monitor to share.
pub fn get_monitor(opts: &ScreenOptions) -> (r: Option<String>)
    ensures
        name_view(r) == name_view(opts.monitor),
{
    match &opts.monitor {
        Some(name) => Some(name.clone()),
        None => None,
    }
}

/// The options after picking `monitor`: unchanged when it is the monitor already picked,
/// otherwise with the new pick and the monitor generation moved on by one (wrapping).
pub open spec fn spec_set_monitor(opts: ScreenOptions, monitor: Option<String>) -> ScreenOptions {
    if name_view(monitor) == name_view(opts.monitor) {
        opts
    } else {
        ScreenOptions {
            monitor: monitor,
            monitor_generation: (if opts.monitor_generation == usize::MAX {
                0
            } else {
                (opts.monitor_generation + 1) as usize
            }),
            ..opts
        }
    }
}

/// Picks the monitor to share. Picking the monitor already picked changes nothing; any other
/// pick is stored and moves the monitor generation on by one, wrapping around at the end of
/// its range.
pub fn set_monitor(opts: &mut ScreenOptions, monitor: Option<String>)
    ensures
        *final(opts) == spec_set_monitor(*old(opts), monitor),
        screen_call(*old(opts), ScreenCall::SetMonitor(monitor), *final(opts)),
{
    let same = match (&opts.monitor, &monitor) {
        (Some(current), Some(next)) => *current == *next,
        (None, None) => true,
        _ => false,
    };
    if same {
        return;
    }
    opts.monitor = monitor;
    opts.monitor_generation = opts.monitor_generation.wrapping_add(1);
}

/// The monitor generation.
pub fn monitor_generation(opts: &ScreenOptions) -> (r: usize)
    ensures
        r == opts.monitor_generation,
{
    opts.monitor_generation
}

/// Picking the same monitor twice is a single swap: the second pick changes nothing. The
/// generation moves exactly when the pick changes the monitor.
pub proof fn law_set_monitor_idempotent(opts: ScreenOptions, monitor: Option<String>)
    ensures
        spec_set_monitor(spec_set_monitor(opts, monitor), monitor) == spec_set_monitor(opts, monitor),
        name_view(spec_set_monitor(opts, monitor).monitor) == name_view(monitor),
        (spec_set_monitor(opts, monitor).monitor_generation != opts.monitor_generation) <==> (name_view(monitor)
            != name_view(opts.monitor)),
{
}

/// A call that changes screen options, with its argument.
pub enum ScreenCall {
    /// [`set_use_screen`].
    SetUseScreen(bool),
    /// [`set_attach_screen`].
    SetAttachScreen(bool),
    /// [`set_monitor`].
    SetMonitor(Option<String>),
}

/// Whether `call` turns the options `before` into `after`, as the function it stands for does.
pub open spec fn screen_call(before: ScreenOptions, call: ScreenCall, after: ScreenOptions) -> bool {
    match call {
        ScreenCall::SetUseScreen(v) => after == ScreenOptions { use_screen: v, ..before },
        ScreenCall::SetAttachScreen(v) => after == ScreenOptions { attach_screen: v, ..before },
        ScreenCall::SetMonitor(m) => after == spec_set_monitor(before, m),
    }
}

/// Whether `states` are the options before and after each of `calls`, in turn.
pub open spec fn screen_run(states: Seq<ScreenOptions>, calls: Seq<ScreenCall>) -> bool {
    &&& states.len() == calls.len() + 1
    &&& forall|i: int| 0 <= i < calls.len() ==> screen_call(states[i], #[trigger] calls[i], states[i + 1])
}

/// Whether call `i` of a run picks a monitor other than the one then picked.
pub open spec fn moves_monitor(states: Seq<ScreenOptions>, calls: Seq<ScreenCall>, i: int) -> bool {
    calls[i] matches ScreenCall::SetMonitor(m) && name_view(m) != name_view(states[i].monitor)
}

/// How many of the calls `i .. j` of a run pick a different monitor.
pub open spec fn monitor_moves(states: Seq<ScreenOptions>, calls: Seq<ScreenCall>, i: int, j: int) -> nat
    decreases j - i,
{
    if j <= i {
        0
    } else {
        monitor_moves(states, calls, i, j - 1) + if moves_monitor(states, calls, j - 1) {
            1nat
        } else {
            0nat
        }
    }
}

/// Across any run of calls, the monitor generation moves on by exactly the number of calls that
/// picked a different monitor, counted modulo the size of its range (it wraps at the end): it
/// never goes back, and two reads differ only if such a call came in between.
pub proof fn law_monitor_generation_moves_with_the_monitor(
    states: Seq<ScreenOptions>,
    calls: Seq<ScreenCall>,
    i: int,
    j: int,
)
    requires
        screen_run(states, calls),
        0 <= i <= j < states.len(),
    ensures
        states[j].monitor_generation as int == (states[i].monitor_generation + monitor_moves(states, calls, i, j)) % (
        usize::MAX + 1),
        states[j].monitor_generation != states[i].monitor_generation ==> exists|t: int|
            i <= t < j && #[trigger] moves_monitor(states, calls, t),
    decreases j - i,
{
    let m = usize::MAX as nat + 1;
    if j == i {
        vstd::arithmetic::div_mod::lemma_small_mod(states[i].monitor_generation as nat, m);
    } else {
        law_monitor_generation_moves_with_the_monitor(states, calls, i, j - 1);
        let g = states[i].monitor_generation as int;
        let k = monitor_moves(states, calls, i, j - 1) as int;
        let before = states[j - 1];
        assert(screen_call(states[j - 1], calls[j - 1], states[j]));
        let step: int = if moves_monitor(states, calls, j - 1) { 1 } else { 0 };
        assert(states[j].monitor_generation as int == (before.monitor_generation as int + step) % (m as int)) by {
            vstd::arithmetic::div_mod::lemma_small_mod(before.monitor_generation as nat, m);
            if step == 1 {
                if before.monitor_generation == usize::MAX {
                    vstd::arithmetic::div_mod::lemma_mod_self_0(m as int);
                } else {
                    vstd::arithmetic::div_mod::lemma_small_mod((before.monitor_generation + 1) as nat, m);
                }
            }
        }
        vstd::arithmetic::div_mod::lemma_add_mod_noop(g + k, step, m as int);
        vstd::arithmetic::div_mod::lemma_small_mod(step as nat, m);
        vstd::arithmetic::div_mod::lemma_mod_twice(g + k + step, m as int);
        vstd::arithmetic::div_mod::lemma_small_mod(before.monitor_generation as nat, m);
        if states[j].monitor_generation != states[i].monitor_generation {
            if states[j - 1].monitor_generation == states[i].monitor_generation {
                assert(moves_monitor(states, calls, j - 1));
            }
        }
    }
}

} // verus!
