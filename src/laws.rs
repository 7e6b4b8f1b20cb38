//! Properties of the translation and of the run loop that hold for all inputs.
use vstd::prelude::*;

use crate::event::{DomainEvent, MouseButton};
use crate::platform::{
    advance, advance_all, chosen_button, translate_all, ButtonState, InputState,
    PlatformEvent,
};
use crate::queue::{at_priority_zero, events_of, QueuedEvent};
use crate::runner::{actions_after, loop_step, phase_after, LoopAction, LoopPhase};

verus! {

/// Translating two runs of platform events one after the other is the same
/// as translating them joined, and ends in the same state.
pub proof fn lemma_translate_concat(s: InputState, a: Seq<PlatformEvent>, b: Seq<PlatformEvent>)
    ensures
        translate_all(s, a + b) == translate_all(s, a) + translate_all(advance_all(s, a), b),
        advance_all(s, a + b) == advance_all(advance_all(s, a), b),
    decreases b.len(),
{
    if b.len() == 0 {
        assert(a + b == a);
    } else {
        lemma_translate_concat(s, a, b.drop_last());
        assert((a + b).drop_last() == a + b.drop_last());
        assert((a + b).last() == b.last());
    }
}

/// Platform events other than button events leave the button state as it was.
pub proof fn lemma_buttons_kept(s: InputState, es: Seq<PlatformEvent>)
    requires
        forall|i: int| 0 <= i < es.len() ==> !(#[trigger] es[i] is Button),
    ensures
        advance_all(s, es).buttons == s.buttons,
    decreases es.len(),
{
    if es.len() > 0 {
        lemma_buttons_kept(s, es.drop_last());
        assert(!(es[es.len() - 1] is Button));
    }
}

/// Press and release pair up in any run of platform events: where `evs[j]`
/// releases all buttons and `evs[i]`, the last button event before it,
/// presses some, the events emitted up to `evs[i]` end with a `MouseDown`
/// and those emitted up to `evs[j]` extend them and end with a `MouseUp`,
/// both for the same button.
pub proof fn lemma_release_pairs_with_last_press(
    s: InputState,
    evs: Seq<PlatformEvent>,
    i: int,
    j: int,
)
    requires
        0 <= i < j < evs.len(),
        evs[j] == (PlatformEvent::Button { left: false, middle: false, right: false }),
        evs[i] is Button,
        evs[i]->left || evs[i]->middle || evs[i]->right,
        forall|k: int| i < k < j ==> !(#[trigger] evs[k] is Button),
    ensures
        ({
            let b = chosen_button(evs[i]->left, evs[i]->middle);
            let down = translate_all(s, evs.take(i + 1));
            let up = translate_all(s, evs.take(j + 1));
            &&& down.len() > 0
            &&& down.last() is MouseDown
            &&& down.last()->MouseDown_button == b
            &&& down.len() < up.len()
            &&& up.subrange(0, down.len() as int) == down
            &&& up.last() is MouseUp
            &&& up.last()->MouseUp_button == b
        }),
{
    let pre = evs.take(i + 1);
    let mid = evs.subrange(i + 1, j);
    let through = evs.subrange(i + 1, j + 1);
    assert(pre.drop_last() == evs.take(i));
    assert(pre.last() == evs[i]);
    let after_press = advance_all(s, pre);
    assert(after_press.buttons == (ButtonState {
        left: evs[i]->left,
        middle: evs[i]->middle,
        right: evs[i]->right,
    }));
    assert forall|k: int| 0 <= k < mid.len() implies !(#[trigger] mid[k] is Button) by {
        assert(mid[k] == evs[i + 1 + k]);
    }
    lemma_buttons_kept(after_press, mid);
    lemma_translate_concat(s, pre, mid);
    assert(pre + mid == evs.take(j));
    lemma_translate_concat(s, pre, through);
    assert(pre + through == evs.take(j + 1));
    let whole = evs.take(j + 1);
    assert(whole.drop_last() == evs.take(j));
    assert(whole.last() == evs[j]);
    let tail = translate_all(after_press, through);
    assert(through.drop_last() == mid);
    assert(through.last() == evs[j]);
    assert(tail.len() > 0);
    let up = translate_all(s, whole);
    let down = translate_all(s, pre);
    assert(up == down + tail);
    assert(up.subrange(0, down.len() as int) =~= down);
}

/// A press of some buttons, any platform events other than button events,
/// then the release of all buttons: the first event emitted is a `MouseDown`
/// and the last a `MouseUp`, both for the same button.
pub proof fn lemma_press_then_release(
    s: InputState,
    left: bool,
    middle: bool,
    right: bool,
    between: Seq<PlatformEvent>,
)
    requires
        left || middle || right,
        forall|i: int| 0 <= i < between.len() ==> !(#[trigger] between[i] is Button),
    ensures
        ({
            let press = PlatformEvent::Button { left, middle, right };
            let release = PlatformEvent::Button { left: false, middle: false, right: false };
            let out = translate_all(s, seq![press] + between + seq![release]);
            let b = chosen_button(left, middle);
            &&& out.len() >= 2
            &&& out[0] == DomainEvent::MouseDown { button: b, position: s.position }
            &&& out.last() == DomainEvent::MouseUp {
                button: b,
                position: advance_all(s, seq![press] + between).position,
            }
        }),
{
    let press = PlatformEvent::Button { left, middle, right };
    let release = PlatformEvent::Button { left: false, middle: false, right: false };
    let first = seq![press];
    let rest = between + seq![release];
    assert(first.drop_last() =~= Seq::<PlatformEvent>::empty());
    assert(translate_all(s, first.drop_last()) == Seq::<DomainEvent>::empty());
    assert(advance_all(s, first.drop_last()) == s);
    assert(translate_all(s, first) =~= seq![
        DomainEvent::MouseDown { button: chosen_button(left, middle), position: s.position },
    ]);
    assert(advance_all(s, first) == advance(s, press));
    lemma_translate_concat(s, first, rest);
    assert(first + rest == seq![press] + between + seq![release]);
    let pre = first + between;
    lemma_buttons_kept(advance(s, press), between);
    lemma_translate_concat(s, first, between);
    let whole = pre + seq![release];
    assert(whole.drop_last() == pre);
    assert(whole.last() == release);
    assert(whole == seq![press] + between + seq![release]);
    let tail = translate_all(advance_all(s, first), rest);
    assert(tail.len() >= 1) by {
        assert(rest.drop_last() == between);
    }
}

/// After a press of the left button alone, releasing all buttons yields
/// exactly one event: `MouseUp` of the left button at the last pointer
/// position.
pub proof fn lemma_left_release(s: InputState)
    requires
        s.buttons.left && !s.buttons.middle && !s.buttons.right,
    ensures
        translate_all(s, seq![PlatformEvent::Button { left: false, middle: false, right: false }])
            == seq![DomainEvent::MouseUp { button: MouseButton::Left, position: s.position }],
{
    let r = seq![PlatformEvent::Button { left: false, middle: false, right: false }];
    assert(r.drop_last() =~= Seq::<PlatformEvent>::empty());
    assert(translate_all(s, r.drop_last()) == Seq::<DomainEvent>::empty());
    assert(advance_all(s, r.drop_last()) == s);
    assert(translate_all(s, r) =~= seq![
        DomainEvent::MouseUp { button: MouseButton::Left, position: s.position },
    ]);
}

/// A resize event yields exactly one `WindowResize` with the reported size.
pub proof fn lemma_resize_yields_one_resize(s: InputState, width: u32, height: u32)
    ensures
        translate_all(s, seq![PlatformEvent::Resize { width, height }]) == seq![
            DomainEvent::WindowResize { width, height },
        ],
{
    let r = seq![PlatformEvent::Resize { width, height }];
    assert(r.drop_last() =~= Seq::<PlatformEvent>::empty());
    assert(translate_all(s, r.drop_last()) == Seq::<DomainEvent>::empty());
    assert(advance_all(s, r.drop_last()) == s);
    assert(translate_all(s, r) =~= seq![DomainEvent::WindowResize { width, height }]);
}

/// A quit event yields exactly one `Quit`, appended behind whatever the
/// queue already held, and changes nothing of the translation state.
pub proof fn lemma_quit_appends_one_quit(s: InputState, queued: Seq<QueuedEvent>)
    ensures
        events_of(queued) + translate_all(s, seq![PlatformEvent::Quit]) == events_of(queued).push(
            DomainEvent::Quit,
        ),
        advance_all(s, seq![PlatformEvent::Quit]) == s,
{
    let q = seq![PlatformEvent::Quit];
    assert(q.drop_last() =~= Seq::<PlatformEvent>::empty());
    assert(translate_all(s, q.drop_last()) == Seq::<DomainEvent>::empty());
    assert(advance_all(s, q.drop_last()) == s);
    assert(translate_all(s, q) =~= seq![DomainEvent::Quit]);
}

/// One-frame latency: once a tick's dispatch has emptied the queue
/// (`EventQueue::drain` leaves it empty) and that tick's `drain_events` has
/// appended what its platform events translate to, the next dispatch
/// receives exactly those events, in order, and nothing else.
pub proof fn lemma_next_dispatch_sees_last_drain(
    after_dispatch: Seq<QueuedEvent>,
    s: InputState,
    drained: Seq<PlatformEvent>,
    after_drain: Seq<QueuedEvent>,
)
    requires
        after_dispatch.len() == 0,
        after_drain == after_dispatch + at_priority_zero(translate_all(s, drained)),
    ensures
        events_of(after_drain) == translate_all(s, drained),
{
    assert(after_drain =~= at_priority_zero(translate_all(s, drained)));
    assert(events_of(after_drain) =~= translate_all(s, drained));
}

/// The loop's phase tells what its last action was.
proof fn lemma_phase_tracks_last_action(flags: Seq<bool>)
    ensures
        actions_after(LoopPhase::Check, flags).len() == flags.len(),
        phase_after(LoopPhase::Check, flags) == LoopPhase::Check ==> flags.len() == 0
            || actions_after(LoopPhase::Check, flags).last() == LoopAction::ClearUpdateAndDrain,
        phase_after(LoopPhase::Check, flags) == LoopPhase::Stepped ==> flags.len() > 0
            && actions_after(LoopPhase::Check, flags).last() == LoopAction::StepWorld,
    decreases flags.len(),
{
    if flags.len() > 0 {
        lemma_phase_tracks_last_action(flags.drop_last());
    }
}

/// The loop's last action and the one before it: a world step follows a
/// drain or starts the run, and a drain follows a world step.
proof fn lemma_last_two_actions(flags: Seq<bool>)
    requires
        flags.len() > 0,
    ensures
        ({
            let a = actions_after(LoopPhase::Check, flags);
            let n = flags.len() - 1;
            &&& a.len() == flags.len()
            &&& a[n] == LoopAction::StepWorld && n >= 1 ==> a[n - 1]
                == LoopAction::ClearUpdateAndDrain
            &&& a[n] == LoopAction::ClearUpdateAndDrain ==> n >= 1 && a[n - 1]
                == LoopAction::StepWorld
        }),
{
    let pre = flags.drop_last();
    lemma_phase_tracks_last_action(flags);
    lemma_phase_tracks_last_action(pre);
    let p = phase_after(LoopPhase::Check, pre);
    let x = loop_step(p, flags.last()).1;
    let ap = actions_after(LoopPhase::Check, pre);
    let a = actions_after(LoopPhase::Check, flags);
    assert(a == ap.push(x));
    if pre.len() > 0 {
        assert(a[flags.len() - 2] == ap.last());
    }
}

/// From the top of its first iteration the loop alternates: each world step
/// but the first comes right after a drain, and each drain right after a
/// world step. So the events that a tick's step dispatches are those of the
/// previous tick's drain, never those of its own.
pub proof fn lemma_steps_and_drains_alternate(flags: Seq<bool>)
    ensures
        actions_after(LoopPhase::Check, flags).len() == flags.len(),
        forall|k: int|
            1 <= k < flags.len() && #[trigger] actions_after(LoopPhase::Check, flags)[k]
                == LoopAction::StepWorld ==> actions_after(LoopPhase::Check, flags)[k - 1]
                == LoopAction::ClearUpdateAndDrain,
        forall|k: int|
            0 <= k < flags.len() && #[trigger] actions_after(LoopPhase::Check, flags)[k]
                == LoopAction::ClearUpdateAndDrain ==> k >= 1 && actions_after(
                LoopPhase::Check,
                flags,
            )[k - 1] == LoopAction::StepWorld,
    decreases flags.len(),
{
    lemma_phase_tracks_last_action(flags);
    if flags.len() > 0 {
        let pre = flags.drop_last();
        lemma_steps_and_drains_alternate(pre);
        lemma_last_two_actions(flags);
        let ap = actions_after(LoopPhase::Check, pre);
        let a = actions_after(LoopPhase::Check, flags);
        assert(a == ap.push(loop_step(phase_after(LoopPhase::Check, pre), flags.last()).1));
        assert forall|k: int| 0 <= k < a.len() - 1 implies #[trigger] a[k] == ap[k] by {}
    }
}

/// The first `t` transitions of a run of ticks: step and drain alternate,
/// starting with a step.
proof fn lemma_tick_prefix(flags: Seq<bool>, n: int, t: int)
    requires
        n >= 0,
        flags.len() == 2 * n + 1,
        forall|k: int| 0 <= k < n ==> #[trigger] flags[2 * k],
        0 <= t <= 2 * n,
    ensures
        phase_after(LoopPhase::Check, flags.take(t)) == if t % 2 == 0 {
            LoopPhase::Check
        } else {
            LoopPhase::Stepped
        },
        actions_after(LoopPhase::Check, flags.take(t)).len() == t,
        forall|k: int|
            0 <= k < t ==> #[trigger] actions_after(LoopPhase::Check, flags.take(t))[k] == if k % 2
                == 0 {
                LoopAction::StepWorld
            } else {
                LoopAction::ClearUpdateAndDrain
            },
    decreases t,
{
    lemma_phase_tracks_last_action(flags.take(t));
    if t > 0 {
        lemma_tick_prefix(flags, n, t - 1);
        let cur = flags.take(t);
        let prev = flags.take(t - 1);
        assert(cur.drop_last() == prev);
        assert(cur.last() == flags[t - 1]);
        if (t - 1) % 2 == 0 {
            let k = (t - 1) / 2;
            assert(flags[2 * k]);
        }
        let a = actions_after(LoopPhase::Check, cur);
        let ap = actions_after(LoopPhase::Check, prev);
        assert forall|k: int| 0 <= k < t - 1 implies #[trigger] a[k] == ap[k] by {}
    }
}

/// Running `n` ticks and then stopping: where the `running` flag is true
/// each of the `n` times the loop looks at it and false the next time, the
/// loop asks for exactly a world step, then the clearing of `update` and a
/// drain, `n` times in that order, and then stops. So no drain comes before
/// the first step, and the drain of each tick falls between its step and the
/// next one.
pub proof fn lemma_ticks_then_stop(flags: Seq<bool>, n: int)
    requires
        n >= 0,
        flags.len() == 2 * n + 1,
        forall|k: int| 0 <= k < n ==> #[trigger] flags[2 * k],
        !flags[2 * n],
    ensures
        ({
            let a = actions_after(LoopPhase::Check, flags);
            &&& a.len() == 2 * n + 1
            &&& forall|k: int| 0 <= k < n ==> #[trigger] a[2 * k] == LoopAction::StepWorld
            &&& forall|k: int|
                0 <= k < n ==> #[trigger] a[2 * k + 1] == LoopAction::ClearUpdateAndDrain
            &&& a[2 * n] == LoopAction::Stop
        }),
{
    lemma_tick_prefix(flags, n, 2 * n);
    let prev = flags.take(2 * n);
    assert(flags.drop_last() == prev);
    assert(flags.last() == flags[2 * n]);
    let a = actions_after(LoopPhase::Check, flags);
    let ap = actions_after(LoopPhase::Check, prev);
    assert((2 * n) % 2 == 0);
    assert forall|k: int| 0 <= k < 2 * n implies #[trigger] a[k] == ap[k] by {}
    assert forall|k: int| 0 <= k < n implies #[trigger] a[2 * k] == LoopAction::StepWorld by {
        assert(a[2 * k] == ap[2 * k]);
        assert((2 * k) % 2 == 0);
    }
    assert forall|k: int| 0 <= k < n implies #[trigger] a[2 * k + 1]
        == LoopAction::ClearUpdateAndDrain by {
        assert(a[2 * k + 1] == ap[2 * k + 1]);
        assert((2 * k + 1) % 2 == 1);
    }
}

/// A loop whose `running` flag is false when first observed ends at once:
/// it performs no world step and no drain, whatever the flag does later.
pub proof fn lemma_not_running_does_nothing(flags: Seq<bool>)
    requires
        flags.len() > 0,
        !flags[0],
    ensures
        phase_after(LoopPhase::Check, flags) == LoopPhase::Stopped,
        forall|k: int|
            0 <= k < flags.len() ==> #[trigger] actions_after(LoopPhase::Check, flags)[k]
                == LoopAction::Stop,
    decreases flags.len(),
{
    lemma_phase_tracks_last_action(flags);
    if flags.len() == 1 {
        assert(flags.drop_last() =~= Seq::<bool>::empty());
    } else {
        let pre = flags.drop_last();
        lemma_not_running_does_nothing(pre);
        lemma_phase_tracks_last_action(pre);
        let a = actions_after(LoopPhase::Check, flags);
        assert forall|k: int| 0 <= k < flags.len() implies #[trigger] a[k] == LoopAction::Stop by {
            if k < flags.len() - 1 {
                assert(a[k] == actions_after(LoopPhase::Check, pre)[k]);
            }
        }
    }
}

} // verus!
