//! The controller's behavioural laws, proved once and for all over
//! `spec_step`: the toggle cycle, poll-driven auto-idle, circular cycling of
//! voice and rate, and empty-catalog safety.

use vstd::prelude::*;
use vstd::arithmetic::div_mod::{lemma_small_mod, lemma_mod_self_0, lemma_add_mod_noop};
use crate::controller::{ControllerView, EventView, ActionView, IconState, spec_step, wf};
use crate::text::is_blank;
use crate::rules::spec_normalize;

verus! {

/// Toggle cycle: from a non-speaking state, a read toggle with non-blank
/// clipboard text starts speaking the normalized text and requests the
/// active icon; a second toggle stops and requests the idle icon.  A stop is
/// requested exactly once, by the second toggle.
pub proof fn lemma_toggle_cycle(c: ControllerView, text: Seq<char>)
    requires
        wf(c),
        !c.is_speaking,
        !is_blank(text),
    ensures
        ({
            let (c1, a1) = spec_step(c, EventView::ToggleRead { clipboard: Some(text) });
            let (c2, a2) = spec_step(c1, EventView::ToggleRead { clipboard: Some(text) });
            &&& c1.is_speaking
            &&& a1 =~= seq![
                ActionView::Speak { markup: spec_normalize(c.table, text) },
                ActionView::SetIcon { icon: IconState::Active },
            ]
            &&& !c2.is_speaking
            &&& a2 =~= seq![ActionView::Stop, ActionView::SetIcon { icon: IconState::Idle }]
            &&& c2 == ControllerView { is_speaking: false, ..c }
        }),
{
}

/// Poll-driven auto-idle: while speaking, a poll tick on which the engine
/// reports not running moves to idle and requests the idle icon exactly
/// once; any further poll tick while idle requests nothing at all.
pub proof fn lemma_poll_auto_idle(c: ControllerView, later_running: bool)
    requires
        wf(c),
        c.is_speaking,
    ensures
        ({
            let (c1, a1) = spec_step(c, EventView::PollTick { engine_running: false });
            let (c2, a2) = spec_step(c1, EventView::PollTick { engine_running: later_running });
            &&& !c1.is_speaking
            &&& a1 =~= seq![ActionView::SetIcon { icon: IconState::Idle }]
            &&& c2 == c1
            &&& a2.len() == 0
        }),
{
}

/// A poll tick while idle is a no-op: no state change, no requests.
pub proof fn lemma_poll_idle_no_op(c: ControllerView, engine_running: bool)
    requires
        wf(c),
        !c.is_speaking,
    ensures
        spec_step(c, EventView::PollTick { engine_running }).0 == c,
        spec_step(c, EventView::PollTick { engine_running }).1.len() == 0,
{
}

/// Empty-catalog safety: with no enumerated voices, a voice-cycle command
/// changes nothing and requests nothing.
pub proof fn lemma_empty_catalog_cycle_voice(c: ControllerView)
    requires
        wf(c),
        c.voices.len() == 0,
    ensures
        spec_step(c, EventView::CycleVoice).0 == c,
        spec_step(c, EventView::CycleVoice).1.len() == 0,
{
}

/// The state after `n` voice-cycle commands.
pub open spec fn cycle_voice_n(c: ControllerView, n: nat) -> ControllerView
    decreases n,
{
    if n == 0 {
        c
    } else {
        spec_step(cycle_voice_n(c, (n - 1) as nat), EventView::CycleVoice).0
    }
}

/// The state after `n` speed-cycle commands.
pub open spec fn cycle_speed_n(c: ControllerView, n: nat) -> ControllerView
    decreases n,
{
    if n == 0 {
        c
    } else {
        spec_step(cycle_speed_n(c, (n - 1) as nat), EventView::CycleSpeed).0
    }
}

proof fn lemma_cycle_voice_n_index(c: ControllerView, n: nat)
    requires
        wf(c),
        c.voices.len() > 0,
    ensures
        wf(cycle_voice_n(c, n)),
        cycle_voice_n(c, n).voices == c.voices,
        cycle_voice_n(c, n).voice_idx == (c.voice_idx + n) % (c.voices.len() as int),
    decreases n,
{
    let m = c.voices.len() as int;
    if n == 0 {
        lemma_small_mod(c.voice_idx as nat, c.voices.len());
    } else {
        lemma_cycle_voice_n_index(c, (n - 1) as nat);
        let prev = cycle_voice_n(c, (n - 1) as nat);
        let before = prev.voice_idx;
        let after = cycle_voice_n(c, n).voice_idx;
        assert(after == if before + 1 < m {
            before + 1
        } else {
            0int
        });
        lemma_add_mod_noop(c.voice_idx + (n - 1), 1, m);
        if before + 1 < m {
            lemma_small_mod((before + 1) as nat, c.voices.len());
        } else {
            lemma_mod_self_0(m);
        }
        if m > 1 {
            lemma_small_mod(1, c.voices.len());
        } else {
            lemma_mod_self_0(1);
        }
    }
}

proof fn lemma_cycle_speed_n_index(c: ControllerView, n: nat)
    requires
        wf(c),
    ensures
        wf(cycle_speed_n(c, n)),
        cycle_speed_n(c, n).speed_idx == (c.speed_idx + n) % 3,
    decreases n,
{
    if n == 0 {
        lemma_small_mod(c.speed_idx as nat, 3);
    } else {
        lemma_cycle_speed_n_index(c, (n - 1) as nat);
        let before = cycle_speed_n(c, (n - 1) as nat).speed_idx;
        lemma_add_mod_noop(c.speed_idx + (n - 1), 1, 3);
        lemma_small_mod(1, 3);
        if before + 1 < 3 {
            lemma_small_mod((before + 1) as nat, 3);
        } else {
            lemma_mod_self_0(3);
        }
    }
}

/// Circular cycling of the voice: as many voice-cycle commands as the
/// catalog has entries return the selection to the original voice index.
pub proof fn lemma_cycle_voice_roundtrip(c: ControllerView)
    requires
        wf(c),
        c.voices.len() > 0,
    ensures
        cycle_voice_n(c, c.voices.len()).voice_idx == c.voice_idx,
{
    let m = c.voices.len() as int;
    lemma_cycle_voice_n_index(c, c.voices.len());
    lemma_mod_self_0(m);
    lemma_add_mod_noop(c.voice_idx, m, m);
    lemma_small_mod(c.voice_idx as nat, c.voices.len());
}

/// Circular cycling of the rate: as many speed-cycle commands as there are
/// rate levels return the selection to the original rate index.
pub proof fn lemma_cycle_speed_roundtrip(c: ControllerView)
    requires
        wf(c),
    ensures
        cycle_speed_n(c, 3).speed_idx == c.speed_idx,
{
    lemma_cycle_speed_n_index(c, 3);
    lemma_mod_self_0(3);
    lemma_add_mod_noop(c.speed_idx, 3, 3);
    lemma_small_mod(c.speed_idx as nat, 3);
}

} // verus!
