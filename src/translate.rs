//! The event translator: one raw event, with the throttle, to at most one
//! canonical action.
use vstd::prelude::*;
use crate::event::{
    option_model, Action, ActionKind, ActionModel, Button, Key, RawEvent, ValueModel,
};
use crate::symbols::{button_token, key_token, map_button, map_key};
use crate::throttle::{Throttle, THROTTLE_INTERVAL_NS};

verus! {

/// A key action of the given kind, when the key resolves to a token.
pub open spec fn key_action(kind: ActionKind, key: Key) -> Option<ActionModel> {
    match key_token(key) {
        Some(t) => Some(ActionModel { kind, value: ValueModel::Token(t) }),
        None => None,
    }
}

/// A button action of the given kind.
pub open spec fn button_action(kind: ActionKind, button: Button) -> ActionModel {
    ActionModel { kind, value: ValueModel::Token(button_token(button)) }
}

/// The action that `event` at time `now` yields, given the throttle state.
pub open spec fn translated(th: Throttle, event: RawEvent, now: u64) -> Option<ActionModel> {
    match event {
        RawEvent::MouseMove(at) => if th.admits(now) {
            Some(ActionModel { kind: ActionKind::MouseMove, value: ValueModel::Coords(at) })
        } else {
            None
        },
        RawEvent::ButtonPress(b) => Some(button_action(ActionKind::MousePress, b)),
        RawEvent::ButtonRelease(b) => Some(button_action(ActionKind::MouseRelease, b)),
        RawEvent::KeyPress(k) => key_action(ActionKind::KeyboardPress, k),
        RawEvent::KeyRelease(k) => key_action(ActionKind::KeyboardRelease, k),
        RawEvent::Wheel { .. } => None,
    }
}

/// The throttle state after `event` at time `now`: only mouse moves touch it.
pub open spec fn throttle_after(th: Throttle, event: RawEvent, now: u64) -> Throttle {
    match event {
        RawEvent::MouseMove(_) => th.after(now),
        _ => th,
    }
}

fn key_event_action(kind: ActionKind, key: Key) -> (r: Option<Action>)
    ensures
        option_model(r) == key_action(kind, key),
{
    match map_key(key) {
        Some(t) => Some(Action::with_token(kind, t)),
        None => None,
    }
}

/// Translates one raw event observed at `now` (nanoseconds on a monotonic
/// clock). Mouse moves pass the throttle and keep their coordinates exactly;
/// buttons always yield an action; keys yield one when the symbol table
/// resolves them; wheel events yield none.
pub fn translate_event(event: &RawEvent, now: u64, throttle: &mut Throttle) -> (r: Option<Action>)
    ensures
        option_model(r) == translated(*old(throttle), *event, now),
        *final(throttle) == throttle_after(*old(throttle), *event, now),
        match r {
            Some(a) => a@.well_formed(),
            None => true,
        },
{
    match event {
        RawEvent::MouseMove(at) => {
            if throttle.offer(now) {
                Some(Action::mouse_move(*at))
            } else {
                None
            }
        },
        RawEvent::ButtonPress(b) => Some(Action::with_token(ActionKind::MousePress, map_button(*b))),
        RawEvent::ButtonRelease(b) => Some(
            Action::with_token(ActionKind::MouseRelease, map_button(*b)),
        ),
        RawEvent::KeyPress(k) => key_event_action(ActionKind::KeyboardPress, *k),
        RawEvent::KeyRelease(k) => key_event_action(ActionKind::KeyboardRelease, *k),
        RawEvent::Wheel { .. } => None,
    }
}

/// The throttle state after a sequence of timed events, each an event and
/// the time it was observed.
pub open spec fn throttle_after_all(th: Throttle, evs: Seq<(RawEvent, u64)>) -> Throttle
    decreases evs.len(),
{
    if evs.len() == 0 {
        th
    } else {
        let e = evs.last();
        throttle_after(throttle_after_all(th, evs.drop_last()), e.0, e.1)
    }
}

/// What translating a sequence of timed events in order yields: one entry per
/// event, `None` where the event produced no action.
pub open spec fn translated_all(th: Throttle, evs: Seq<(RawEvent, u64)>) -> Seq<
    Option<ActionModel>,
>
    decreases evs.len(),
{
    if evs.len() == 0 {
        Seq::empty()
    } else {
        let e = evs.last();
        translated_all(th, evs.drop_last()).push(
            translated(throttle_after_all(th, evs.drop_last()), e.0, e.1),
        )
    }
}

/// Mouse moves observed at strictly increasing times.
pub open spec fn moves_in_time_order(evs: Seq<(RawEvent, u64)>) -> bool {
    &&& forall|i: int| 0 <= i < evs.len() ==> (#[trigger] evs[i]).0 is MouseMove
    &&& forall|i: int, j: int| 0 <= i < j < evs.len() ==> #[trigger] evs[i].1 < #[trigger] evs[j].1
}

proof fn lemma_throttle_trace(th: Throttle, evs: Seq<(RawEvent, u64)>)
    requires
        moves_in_time_order(evs),
    ensures
        ({
            let out = translated_all(th, evs);
            let st = throttle_after_all(th, evs);
            &&& out.len() == evs.len()
            &&& forall|i: int|
                0 <= i < evs.len() && (#[trigger] out[i]) is Some ==> out[i] == Some(
                    ActionModel {
                        kind: ActionKind::MouseMove,
                        value: ValueModel::Coords(evs[i].0->MouseMove_0),
                    },
                )
            &&& forall|i: int, j: int|
                0 <= i < j < evs.len() && (#[trigger] out[i]) is Some && (#[trigger] out[j]) is Some
                    ==> evs[j].1 - evs[i].1 >= THROTTLE_INTERVAL_NS
            &&& forall|i: int|
                0 <= i < evs.len() && (#[trigger] out[i]) is None ==> (exists|k: int|
                    0 <= k < i && (#[trigger] out[k]) is Some && evs[i].1 - evs[k].1
                        < THROTTLE_INTERVAL_NS) || ((forall|k: int|
                    0 <= k < i ==> (#[trigger] out[k]) is None) && !th.admits(evs[i].1))
            &&& forall|i: int|
                0 <= i < evs.len() && (#[trigger] out[i]) is Some ==> st.last_accepted is Some
                    && evs[i].1 <= st.last_accepted->0
            &&& (forall|k: int| 0 <= k < evs.len() ==> (#[trigger] out[k]) is None) ==> st == th
            &&& (exists|k: int| 0 <= k < evs.len() && (#[trigger] out[k]) is Some) ==> (exists|
                k: int,
            |
                0 <= k < evs.len() && (#[trigger] out[k]) is Some && st.last_accepted == Some(
                    evs[k].1,
                ))
        }),
    decreases evs.len(),
{
    if evs.len() > 0 {
        let p = evs.drop_last();
        let e = evs.last();
        assert forall|i: int| 0 <= i < p.len() implies p[i] == evs[i] by {}
        lemma_throttle_trace(th, p);
        let out_p = translated_all(th, p);
        let st_p = throttle_after_all(th, p);
        let out = translated_all(th, evs);
        let st = throttle_after_all(th, evs);
        let n = p.len() as int;
        assert(out == out_p.push(translated(st_p, e.0, e.1)));
        assert forall|i: int| 0 <= i < n implies out[i] == out_p[i] by {}
        assert(e == evs[n]);
        if out[n] is Some {
            assert(st.last_accepted == Some(e.1));
            assert forall|i: int| 0 <= i < n && (#[trigger] out[i]) is Some implies e.1
                - evs[i].1 >= THROTTLE_INTERVAL_NS by {
                assert(out_p[i] is Some);
            }
        } else {
            assert(st == st_p);
            if exists|k: int| 0 <= k < n && (#[trigger] out_p[k]) is Some {
                let k = choose|k: int| 0 <= k < n && (#[trigger] out_p[k]) is Some
                    && st_p.last_accepted == Some(p[k].1);
                assert(out[k] is Some);
            } else {
                assert forall|k: int| 0 <= k < n implies (#[trigger] out[k]) is None by {
                    assert(out_p[k] is None);
                }
            }
        }
    }
}

/// Throttling a stream of mouse moves observed at strictly increasing times:
/// every accepted move yields an action carrying exactly that move's
/// position; any two accepted moves lie at least the throttle interval
/// apart; and a move is dropped only when an earlier accepted move (or, before
/// any, the throttle's starting state) lies less than the interval before it.
pub proof fn lemma_throttled_moves(th: Throttle, evs: Seq<(RawEvent, u64)>)
    requires
        moves_in_time_order(evs),
    ensures
        ({
            let out = translated_all(th, evs);
            &&& out.len() == evs.len()
            &&& forall|i: int|
                0 <= i < evs.len() && (#[trigger] out[i]) is Some ==> out[i] == Some(
                    ActionModel {
                        kind: ActionKind::MouseMove,
                        value: ValueModel::Coords(evs[i].0->MouseMove_0),
                    },
                )
            &&& forall|i: int, j: int|
                0 <= i < j < evs.len() && (#[trigger] out[i]) is Some && (#[trigger] out[j]) is Some
                    ==> evs[j].1 - evs[i].1 >= THROTTLE_INTERVAL_NS
            &&& forall|i: int|
                0 <= i < evs.len() && (#[trigger] out[i]) is None ==> (exists|k: int|
                    0 <= k < i && (#[trigger] out[k]) is Some && evs[i].1 - evs[k].1
                        < THROTTLE_INTERVAL_NS) || ((forall|k: int|
                    0 <= k < i ==> (#[trigger] out[k]) is None) && !th.admits(evs[i].1))
        }),
{
    lemma_throttle_trace(th, evs);
}

/// A key that neither tier of the symbol table resolves yields no action,
/// pressed or released, and leaves the throttle as it was; a key that one
/// resolves yields an action carrying its token.
pub proof fn lemma_key_actions(th: Throttle, key: Key, now: u64)
    ensures
        key_token(key) is None ==> translated(th, RawEvent::KeyPress(key), now) is None
            && translated(th, RawEvent::KeyRelease(key), now) is None,
        key_token(key) matches Some(t) ==> translated(th, RawEvent::KeyPress(key), now) == Some(
            ActionModel { kind: ActionKind::KeyboardPress, value: ValueModel::Token(t) },
        ),
        throttle_after(th, RawEvent::KeyPress(key), now) == th,
        throttle_after(th, RawEvent::KeyRelease(key), now) == th,
{
}

} // verus!
