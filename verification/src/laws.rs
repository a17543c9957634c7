//! Laws of the orchestrator over whole event runs: what holds of
//! every sequence of display events, not just of one dispatch.

use vstd::prelude::*;

use crate::events::{Action, DisplayEvent};
use crate::orchestrator::{step_actions, step_state, OrchModel, SurfaceState};

verus! {

/// The orchestrator's state after a whole run of events.
pub open spec fn run_model(m: OrchModel, es: Seq<DisplayEvent>) -> OrchModel
    decreases es.len(),
{
    if es.len() == 0 {
        m
    } else {
        run_model(step_state(m, es[0]), es.skip(1))
    }
}

/// Every action a whole run of events asks for, in order.
pub open spec fn actions_model(m: OrchModel, es: Seq<DisplayEvent>) -> Seq<Action>
    decreases es.len(),
{
    if es.len() == 0 {
        Seq::empty()
    } else {
        step_actions(m, es[0]) + actions_model(step_state(m, es[0]), es.skip(1))
    }
}

/// The surface never issues a draw or swap before at least one
/// configure event has been received: a run without a configure
/// event, from a surface not yet configured, asks for no draw.
pub proof fn lemma_no_draw_before_configure(m: OrchModel, es: Seq<DisplayEvent>)
    requires
        !(m.surface is Configured),
        forall|i: int| 0 <= i < es.len() ==> !(es[i] is Configure),
    ensures
        forall|j: int|
            0 <= j < actions_model(m, es).len() ==> !(#[trigger] actions_model(m, es)[j] is Draw),
    decreases es.len(),
{
    if es.len() > 0 {
        let e = es[0];
        let m1 = step_state(m, e);
        assert(!(m1.surface is Configured));
        assert(forall|i: int| 0 <= i < es.skip(1).len() ==> !(#[trigger] es.skip(1)[i] is Configure));
        lemma_no_draw_before_configure(m1, es.skip(1));
        let head = step_actions(m, e);
        let tail = actions_model(m1, es.skip(1));
        assert(forall|j: int| 0 <= j < head.len() ==> !(#[trigger] head[j] is Draw));
        assert forall|j: int| 0 <= j < actions_model(m, es).len() implies !(#[trigger] actions_model(
            m,
            es,
        )[j] is Draw) by {
            if j < head.len() {
                assert(actions_model(m, es)[j] == head[j]);
            } else {
                assert(actions_model(m, es)[j] == tail[j - head.len()]);
            }
        }
    }
}

/// A draw is only ever asked for at the size the surface is
/// configured to once the event is handled: every draw or swap cycle
/// runs at the negotiated size, on a configured surface.
pub proof fn lemma_draws_at_configured_size(m: OrchModel, e: DisplayEvent)
    ensures
        forall|j: int|
            0 <= j < step_actions(m, e).len() && (#[trigger] step_actions(m, e)[j]) is Draw
                ==> step_state(m, e).surface == (SurfaceState::Configured {
                width: step_actions(m, e)[j]->Draw_width,
                height: step_actions(m, e)[j]->Draw_height,
            }),
{
}

/// What one action changes in the number of live keyboard objects the
/// caller holds.
pub open spec fn keyboard_delta(a: Action) -> int {
    if a is CreateKeyboard {
        1
    } else if a is ReleaseKeyboard {
        -1
    } else {
        0
    }
}

/// What one action changes in the number of live pointer objects the
/// caller holds.
pub open spec fn pointer_delta(a: Action) -> int {
    if a is CreatePointer {
        1
    } else if a is ReleasePointer {
        -1
    } else {
        0
    }
}

/// The number of live keyboard objects a run of actions leaves with
/// the caller, counted from zero.
pub open spec fn keyboards_live(acts: Seq<Action>) -> int
    decreases acts.len(),
{
    if acts.len() == 0 {
        0
    } else {
        keyboard_delta(acts[0]) + keyboards_live(acts.skip(1))
    }
}

/// The number of live pointer objects a run of actions leaves with
/// the caller, counted from zero.
pub open spec fn pointers_live(acts: Seq<Action>) -> int
    decreases acts.len(),
{
    if acts.len() == 0 {
        0
    } else {
        pointer_delta(acts[0]) + pointers_live(acts.skip(1))
    }
}

proof fn lemma_live_empty()
    ensures
        keyboards_live(Seq::<Action>::empty()) == 0,
        pointers_live(Seq::<Action>::empty()) == 0,
{
}

proof fn lemma_live_singleton(a: Action)
    ensures
        keyboards_live(seq![a]) == keyboard_delta(a),
        pointers_live(seq![a]) == pointer_delta(a),
{
    assert(seq![a].skip(1) =~= Seq::<Action>::empty());
    lemma_live_empty();
}

proof fn lemma_live_pair(a: Action, b: Action)
    ensures
        keyboards_live(seq![a, b]) == keyboard_delta(a) + keyboard_delta(b),
        pointers_live(seq![a, b]) == pointer_delta(a) + pointer_delta(b),
{
    assert(seq![a, b].skip(1) =~= seq![b]);
    lemma_live_singleton(b);
    assert(seq![a, b][0] == a);
}

/// What one dispatch step changes in the live-object counts matches
/// what it changes in the state machine's belief.
proof fn lemma_step_balance(m: OrchModel, e: DisplayEvent)
    ensures
        keyboards_live(step_actions(m, e)) == (if step_state(m, e).has_keyboard {
            1int
        } else {
            0int
        }) - (if m.has_keyboard {
            1int
        } else {
            0int
        }),
        pointers_live(step_actions(m, e)) == (if step_state(m, e).has_pointer {
            1int
        } else {
            0int
        }) - (if m.has_pointer {
            1int
        } else {
            0int
        }),
{
    lemma_live_empty();
    let acts = step_actions(m, e);
    match e {
        DisplayEvent::Configure { width, height, .. } => {
            if !(m.surface is Destroyed) {
                lemma_live_pair(acts[0], acts[1]);
                assert(acts =~= seq![acts[0], acts[1]]);
            }
        },
        DisplayEvent::Frame { .. } => {
            if m.surface is Configured {
                lemma_live_singleton(acts[0]);
                assert(acts =~= seq![acts[0]]);
            }
        },
        DisplayEvent::CapabilityAdded { device } => {
            if acts.len() == 1 {
                lemma_live_singleton(acts[0]);
                assert(acts =~= seq![acts[0]]);
            }
        },
        DisplayEvent::CapabilityRemoved { device } => {
            if acts.len() == 1 {
                lemma_live_singleton(acts[0]);
                assert(acts =~= seq![acts[0]]);
            }
        },
        _ => {},
    }
}

proof fn lemma_keyboards_live_concat(a: Seq<Action>, b: Seq<Action>)
    ensures
        keyboards_live(a + b) == keyboards_live(a) + keyboards_live(b),
    decreases a.len(),
{
    if a.len() == 0 {
        assert(a + b =~= b);
    } else {
        assert((a + b).skip(1) =~= a.skip(1) + b);
        lemma_keyboards_live_concat(a.skip(1), b);
        assert((a + b)[0] == a[0]);
    }
}

proof fn lemma_pointers_live_concat(a: Seq<Action>, b: Seq<Action>)
    ensures
        pointers_live(a + b) == pointers_live(a) + pointers_live(b),
    decreases a.len(),
{
    if a.len() == 0 {
        assert(a + b =~= b);
    } else {
        assert((a + b).skip(1) =~= a.skip(1) + b);
        lemma_pointers_live_concat(a.skip(1), b);
        assert((a + b)[0] == a[0]);
    }
}

/// Over any run, the keyboard objects created minus those released
/// track exactly whether the state machine believes a keyboard is
/// live; the same for pointers.
pub proof fn lemma_device_balance(m: OrchModel, es: Seq<DisplayEvent>)
    ensures
        keyboards_live(actions_model(m, es)) == (if run_model(m, es).has_keyboard {
            1int
        } else {
            0int
        }) - (if m.has_keyboard {
            1int
        } else {
            0int
        }),
        pointers_live(actions_model(m, es)) == (if run_model(m, es).has_pointer {
            1int
        } else {
            0int
        }) - (if m.has_pointer {
            1int
        } else {
            0int
        }),
    decreases es.len(),
{
    if es.len() > 0 {
        let e = es[0];
        let m1 = step_state(m, e);
        let head = step_actions(m, e);
        let tail = actions_model(m1, es.skip(1));
        lemma_device_balance(m1, es.skip(1));
        lemma_keyboards_live_concat(head, tail);
        lemma_pointers_live_concat(head, tail);
        lemma_step_balance(m, e);
    }
}

/// Removing and re-adding a seat capability, in any order and any
/// number of times, leaves at most one live keyboard object and at
/// most one live pointer object with the caller.
pub proof fn lemma_at_most_one_device(m: OrchModel, es: Seq<DisplayEvent>)
    requires
        !m.has_keyboard,
        !m.has_pointer,
    ensures
        0 <= keyboards_live(actions_model(m, es)) <= 1,
        0 <= pointers_live(actions_model(m, es)) <= 1,
        keyboards_live(actions_model(m, es)) == 1 <==> run_model(m, es).has_keyboard,
        pointers_live(actions_model(m, es)) == 1 <==> run_model(m, es).has_pointer,
{
    lemma_device_balance(m, es);
}

} // verus!
