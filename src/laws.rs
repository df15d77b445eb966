//! Properties of the engine across a tick, proved over its model.
use vstd::prelude::*;
use crate::model::{
    all_idle, elapsed, event_key, key_bit, EngineState, DEBOUNCE_US, HOLD_PRESS_MIN_US,
};
use crate::types::{mapping_usages, KeyEvent, KeyState, LayerAction};

verus! {

/// Key `j` reads released now and read released on the previous tick.
pub open spec fn quiet(s: EngineState, pins: u64, j: int) -> bool {
    !key_bit(pins, j) && !s.last_bits[j]
}

/// Edge detection when every key but `id` is quiet is the step of `id` alone.
proof fn lemma_edges_single(s: EngineState, pins: u64, now: u32, id: int, k: nat)
    requires
        s.valid(),
        0 <= id < s.n(),
        k <= s.n(),
        forall|j: int| 0 <= j < s.n() && j != id ==> #[trigger] quiet(s, pins, j),
    ensures
        s.edges(pins, now, k) == (if k <= id {
            (s, Seq::<u8>::empty())
        } else {
            s.edge_step(pins, now, id)
        }),
    decreases k,
{
    if k > 0 {
        lemma_edges_single(s, pins, now, id, (k - 1) as nat);
        let (prev, out) = s.edges(pins, now, (k - 1) as nat);
        if k - 1 != id {
            assert(quiet(s, pins, k - 1));
            assert(prev.last_bits == s.last_bits);
            assert(out + Seq::<u8>::empty() =~= out);
        } else {
            assert(Seq::<u8>::empty() + s.edge_step(pins, now, id).1 =~= s.edge_step(
                pins,
                now,
                id,
            ).1);
        }
    }
}

/// The resolution pass when every key but `id` is idle and no other key's
/// tap-or-hold choice is open is the step of `id` alone.
proof fn lemma_resolve_single(s: EngineState, now: u32, id: int, k: nat)
    requires
        s.valid(),
        0 <= id < s.n(),
        k <= s.n(),
        forall|j: int| 0 <= j < s.n() && j != id ==> #[trigger] s.key_states[j] == KeyState::Idle,
        s.held_key is None || s.held_key == Some(id as usize),
    ensures
        s.resolve(now, k) == (if k <= id {
            (s, Seq::<KeyEvent>::empty())
        } else {
            s.resolve_step(Seq::empty(), now, id)
        }),
    decreases k,
{
    if k > 0 {
        lemma_resolve_single(s, now, id, (k - 1) as nat);
        if k - 1 != id {
            let prev = s.resolve(now, (k - 1) as nat).0;
            assert(prev.key_states[k - 1] == KeyState::Idle);
        }
    }
}

/// The resolution pass when every key is idle changes nothing and queues nothing.
proof fn lemma_resolve_all_idle(s: EngineState, now: u32, k: nat)
    requires
        s.valid(),
        k <= s.n(),
        forall|j: int| 0 <= j < s.n() ==> #[trigger] s.key_states[j] == KeyState::Idle,
    ensures
        s.resolve(now, k) == (s, Seq::<KeyEvent>::empty()),
    decreases k,
{
    if k > 0 {
        lemma_resolve_all_idle(s, now, (k - 1) as nat);
        assert(s.key_states[k - 1] == KeyState::Idle);
    }
}

/// Every key but `id` is quiet and idle.
pub open spec fn others_inactive(s: EngineState, pins: u64, id: int) -> bool {
    forall|j: int|
        0 <= j < s.n() && j != id ==> #[trigger] quiet(s, pins, j) && s.key_states[j]
            == KeyState::Idle
}

/// Key `id` has a hold action on the current layer.
pub open spec fn has_hold(s: EngineState, id: int) -> bool {
    s.mapping(id) matches Some(km) && km.held_press is Some
}

/// Edge detection with every key but `id` inactive: the step of `id` alone,
/// after which every other key is still idle.
proof fn lemma_edges_others_idle(s: EngineState, pins: u64, now: u32, id: int)
    requires
        s.valid(),
        0 <= id < s.n(),
        others_inactive(s, pins, id),
    ensures
        s.edges(pins, now, s.n()) == s.edge_step(pins, now, id),
        forall|j: int|
            0 <= j < s.n() && j != id ==> #[trigger] s.after_edges(pins, now).key_states[j]
                == KeyState::Idle,
{
    assert forall|j: int| 0 <= j < s.n() && j != id implies #[trigger] quiet(s, pins, j) by {}
    lemma_edges_single(s, pins, now, id, s.n());
    let r = s.edge_step(pins, now, id).0;
    assert(s.after_edges(pins, now).key_states == r.key_states);
    assert forall|j: int| 0 <= j < s.n() && j != id implies #[trigger] r.key_states[j]
        == KeyState::Idle by {
        assert(quiet(s, pins, j));
    }
}

/// A rising edge of a key within the debounce interval of its last accepted
/// press is not accepted: the key's state and press time stay as they were.
pub proof fn lemma_press_debounce(s: EngineState, pins: u64, now: u32, id: int)
    requires
        s.valid(),
        0 <= id < s.n(),
        key_bit(pins, id),
        elapsed(now, s.last_press[id]) <= DEBOUNCE_US,
    ensures
        s.edge_step(pins, now, id) == (s, Seq::<u8>::empty()),
{
}

/// A tap-or-hold key that is pressed, with no other key active, opens its
/// choice: the tick queues no event and sends nothing.
pub proof fn lemma_tap_hold_press(s: EngineState, pins: u64, now: u32, id: int)
    requires
        s.valid(),
        0 <= id < s.n(),
        has_hold(s, id),
        s.key_states[id] == KeyState::Idle,
        key_bit(pins, id),
        !s.last_bits[id],
        elapsed(now, s.last_press[id]) > DEBOUNCE_US,
        s.held_key is None || s.held_key == Some(id as usize),
        s.layer == s.last_layer,
        others_inactive(s, pins, id),
    ensures
        s.tick_events(pins, now).len() == 0,
        s.tick(pins, now).1.len() == 0,
        s.tick(pins, now).0.key_states[id] == KeyState::Pressed,
        s.tick(pins, now).0.held_key == Some(id as usize),
        s.tick(pins, now).0.last_press[id] == now,
{
    lemma_edges_others_idle(s, pins, now, id);
    let e = s.after_edges(pins, now);
    lemma_resolve_single(e, now, id, e.n());
}

/// While a tap-or-hold key is held short of the hold threshold, with no
/// other key active, its choice stays open: the tick queues no event and
/// sends nothing.
pub proof fn lemma_tap_pending(s: EngineState, pins: u64, now: u32, id: int)
    requires
        s.valid(),
        0 <= id < s.n(),
        has_hold(s, id),
        s.key_states[id] == KeyState::Pressed,
        key_bit(pins, id),
        s.last_bits[id],
        elapsed(now, s.last_press[id]) < HOLD_PRESS_MIN_US,
        s.held_key is None || s.held_key == Some(id as usize),
        s.layer == s.last_layer,
        others_inactive(s, pins, id),
    ensures
        s.tick_events(pins, now).len() == 0,
        s.tick(pins, now).1.len() == 0,
        s.tick(pins, now).0.key_states[id] == KeyState::Pressed,
        s.tick(pins, now).0.held_key == Some(id as usize),
{
    lemma_edges_others_idle(s, pins, now, id);
    let e = s.after_edges(pins, now);
    lemma_resolve_single(e, now, id, e.n());
}

/// Tap completion: a tap-or-hold key released before the hold threshold, with
/// no other key active, sends exactly its tap action, on release, and no
/// event is queued for it.
pub proof fn lemma_tap_completion(s: EngineState, pins: u64, now: u32, id: int)
    requires
        s.valid(),
        0 <= id < s.n(),
        has_hold(s, id),
        s.key_states[id] == KeyState::Pressed || s.key_states[id] == KeyState::FirstPress,
        !key_bit(pins, id),
        s.last_bits[id],
        elapsed(now, s.last_press[id]) < HOLD_PRESS_MIN_US,
        others_inactive(s, pins, id),
    ensures
        s.tick_events(pins, now).len() == 0,
        s.tick(pins, now).1 == mapping_usages(s.mapping(id).unwrap().pressed),
{
    lemma_edges_others_idle(s, pins, now, id);
    let e = s.after_edges(pins, now);
    assert forall|j: int| 0 <= j < e.n() implies #[trigger] e.key_states[j] == KeyState::Idle by {
        if j != id {
            assert(quiet(s, pins, j));
        }
    }
    lemma_resolve_all_idle(e, now, e.n());
    let out = s.tick(pins, now).1;
    assert(out =~= mapping_usages(s.mapping(id).unwrap().pressed) + Seq::<u8>::empty());
}

/// A tap-or-hold key held up to the hold threshold, with no other key
/// active, turns to its hold state; the tick queues no event and sends nothing.
pub proof fn lemma_hold_threshold(s: EngineState, pins: u64, now: u32, id: int)
    requires
        s.valid(),
        0 <= id < s.n(),
        has_hold(s, id),
        s.key_states[id] == KeyState::Pressed,
        key_bit(pins, id),
        s.last_bits[id],
        elapsed(now, s.last_press[id]) >= HOLD_PRESS_MIN_US,
        s.held_key is None || s.held_key == Some(id as usize),
        s.layer == s.last_layer,
        others_inactive(s, pins, id),
    ensures
        s.tick_events(pins, now).len() == 0,
        s.tick(pins, now).1.len() == 0,
        s.tick(pins, now).0.key_states[id] == KeyState::HeldPressed,
{
    lemma_edges_others_idle(s, pins, now, id);
    let e = s.after_edges(pins, now);
    lemma_resolve_single(e, now, id, e.n());
}

/// A key in its hold state that stays held, with no other key active,
/// queues exactly one event on each tick: its hold event, and no tap event.
pub proof fn lemma_hold_repeat(s: EngineState, pins: u64, now: u32, id: int)
    requires
        s.valid(),
        0 <= id < s.n(),
        s.mapping(id) is Some,
        s.key_states[id] == KeyState::HeldPressed,
        key_bit(pins, id),
        s.last_bits[id],
        s.held_key is None || s.held_key == Some(id as usize),
        others_inactive(s, pins, id),
    ensures
        s.tick_events(pins, now) == seq![KeyEvent::HeldPress(id as usize)],
{
    lemma_edges_others_idle(s, pins, now, id);
    let e = s.after_edges(pins, now);
    lemma_resolve_single(e, now, id, e.n());
    assert(s.tick_events(pins, now) =~= seq![KeyEvent::HeldPress(id as usize)]);
}

/// A key in its hold state that is released, with no other key active,
/// sends no tap action and queues no event.
pub proof fn lemma_hold_release(s: EngineState, pins: u64, now: u32, id: int)
    requires
        s.valid(),
        0 <= id < s.n(),
        s.key_states[id] == KeyState::HeldPressed,
        !key_bit(pins, id),
        s.last_bits[id],
        others_inactive(s, pins, id),
    ensures
        s.tick_events(pins, now).len() == 0,
        s.tick(pins, now).1.len() == 0,
{
    lemma_edges_others_idle(s, pins, now, id);
    let e = s.after_edges(pins, now);
    assert forall|j: int| 0 <= j < e.n() implies #[trigger] e.key_states[j] == KeyState::Idle by {
        if j != id {
            assert(quiet(s, pins, j));
        }
    }
    lemma_resolve_all_idle(e, now, e.n());
}

/// Edge detection keeps the layer table, the layers and the sizes.
proof fn lemma_edges_frame(s: EngineState, pins: u64, now: u32, k: nat)
    requires
        s.valid(),
        k <= s.n(),
    ensures
        ({
            let t = s.edges(pins, now, k).0;
            &&& t.layers == s.layers
            &&& t.layer == s.layer
            &&& t.last_layer == s.last_layer
            &&& t.is_layer_held == s.is_layer_held
            &&& t.key_states.len() == s.n()
            &&& t.last_bits == s.last_bits
            &&& t.last_press.len() == s.n()
            &&& (t.held_key matches Some(h) ==> h < s.n())
        }),
    decreases k,
{
    if k > 0 {
        lemma_edges_frame(s, pins, now, (k - 1) as nat);
    }
}

/// The state after edge detection is valid, with as many keys.
proof fn lemma_edges_valid(s: EngineState, pins: u64, now: u32)
    requires
        s.valid(),
    ensures
        s.after_edges(pins, now).valid(),
        s.after_edges(pins, now).n() == s.n(),
        s.after_edges(pins, now).layer == s.layer,
        s.after_edges(pins, now).last_layer == s.last_layer,
{
    lemma_edges_frame(s, pins, now, s.n());
}

/// Invariant of the resolution pass of `e` over keys `0..k`, for key `a`
/// whose choice is open and key `b` pressed.
proof fn lemma_rolling_upto(e: EngineState, now: u32, a: usize, b: usize, k: nat)
    requires
        e.valid(),
        e.n() <= 63,
        e.held_key == Some(a),
        b < e.n(),
        a != b,
        e.key_states[b as int] == KeyState::Pressed || e.key_states[b as int] == KeyState::FirstPress,
        e.mapping(b as int) is Some,
        k <= e.n(),
    ensures
        ({
            let (t, evs) = e.resolve(now, k);
            &&& evs.len() <= k
            &&& t.layers == e.layers
            &&& t.layer == e.layer
            &&& t.key_states.len() == e.n()
            &&& t.last_press == e.last_press
            &&& (t.held_key matches Some(h) ==> h < e.n())
            &&& k <= b as int ==> {
                &&& forall|j: int| 0 <= j < evs.len() ==> event_key(#[trigger] evs[j]) != b
                &&& t.held_key != Some(b)
                &&& t.key_states[b as int] == e.key_states[b as int]
                &&& t.held_key == Some(a) || exists|i: int|
                    0 <= i < evs.len() && #[trigger] evs[i] == KeyEvent::HeldPress(a)
            }
            &&& k > b as int ==> exists|i: int|
                0 <= i < evs.len() && #[trigger] evs[i] == KeyEvent::HeldPress(a) && forall|
                    j: int,
                | 0 <= j < i ==> event_key(#[trigger] evs[j]) != b
        }),
    decreases k,
{
    if k > 0 {
        lemma_rolling_upto(e, now, a, b, (k - 1) as nat);
        let (t, evs) = e.resolve(now, (k - 1) as nat);
        let (t2, evs2) = t.resolve_step(evs, now, k - 1);
        let id = k - 1;
        assert(forall|j: int| 0 <= j < evs.len() ==> evs2[j] == evs[j]);
        if id < b as int {
            assert forall|j: int| 0 <= j < evs2.len() implies event_key(#[trigger] evs2[j]) != b by {
                if j >= evs.len() {
                }
            }
            if t2.held_key != Some(a) {
                if t.held_key == Some(a) {
                    assert(evs2[evs.len() as int] == KeyEvent::HeldPress(a));
                } else {
                    let i = choose|i: int|
                        0 <= i < evs.len() && #[trigger] evs[i] == KeyEvent::HeldPress(a);
                    assert(evs2[i] == KeyEvent::HeldPress(a));
                }
            }
        } else if id == b as int {
            if t.held_key == Some(a) {
                assert(evs2[evs.len() as int] == KeyEvent::HeldPress(a));
            } else {
                let i = choose|i: int|
                    0 <= i < evs.len() && #[trigger] evs[i] == KeyEvent::HeldPress(a);
                assert(evs2[i] == KeyEvent::HeldPress(a));
            }
        } else {
            let i = choose|i: int|
                0 <= i < evs.len() && #[trigger] evs[i] == KeyEvent::HeldPress(a) && forall|
                    j: int,
                | 0 <= j < i ==> event_key(#[trigger] evs[j]) != b;
            assert(evs2[i] == KeyEvent::HeldPress(a));
            assert forall|j: int| 0 <= j < i implies event_key(#[trigger] evs2[j]) != b by {
                assert(evs2[j] == evs[j]);
            }
        }
    }
}

/// Rolling preemption: when key `a`'s tap-or-hold choice is open and another
/// mapped key `b` is pressed, the tick queues `a`'s hold event before any
/// event of `b`.
pub proof fn lemma_rolling_preemption(s: EngineState, pins: u64, now: u32, a: usize, b: usize)
    requires
        s.valid(),
        s.n() <= 63,
        s.after_edges(pins, now).held_key == Some(a),
        b < s.n(),
        a != b,
        s.after_edges(pins, now).key_states[b as int] == KeyState::Pressed || s.after_edges(
            pins,
            now,
        ).key_states[b as int] == KeyState::FirstPress,
        s.after_edges(pins, now).mapping(b as int) is Some,
    ensures
        exists|i: int|
            0 <= i < s.tick_events(pins, now).len() && #[trigger] s.tick_events(pins, now)[i]
                == KeyEvent::HeldPress(a) && forall|j: int|
                0 <= j < i ==> event_key(#[trigger] s.tick_events(pins, now)[j]) != b,
{
    lemma_edges_valid(s, pins, now);
    let e = s.after_edges(pins, now);
    lemma_rolling_upto(e, now, a, b, e.n());
    let evs = s.tick_events(pins, now);
    assert(evs == e.resolve(now, e.n()).1);
    let i = choose|i: int|
        0 <= i < evs.len() && #[trigger] evs[i] == KeyEvent::HeldPress(a) && forall|j: int|
            0 <= j < i ==> event_key(#[trigger] evs[j]) != b;
    assert(0 <= i < evs.len() && evs[i] == KeyEvent::HeldPress(a));
}

/// A hold-layer code switches to its layer and marks the tick as holding a
/// layer. It records the layer to return to only when the hold begins (no
/// layer held on the previous tick); while a hold goes on, or when a second
/// hold-layer key joins, the layer to return to stays as it was.
pub proof fn lemma_hold_return_layer(s: EngineState, e: KeyEvent, held: bool, id: usize, i: usize)
    requires
        s.event_mapping(e) matches Some((k, m)) && k == id && m.key.spec_layer_action() == Some(
            LayerAction::Hold(i),
        ),
    ensures
        s.apply_event(e, held).2,
        s.apply_event(e, held).0.layer == i,
        s.is_layer_held || s.layer == i ==> s.apply_event(e, held).0.last_layer == s.last_layer,
        !s.is_layer_held && s.layer != i ==> s.apply_event(e, held).0.last_layer == s.layer
            && s.apply_event(e, held).0.key_states == all_idle(s.n()).update(
            id as int,
            KeyState::Pressed,
        ),
{
}

/// Edge detection over keys `0..k` when every key reads released and every
/// active key read pressed on the previous tick: those keys end idle.
proof fn lemma_edges_all_released(s: EngineState, pins: u64, now: u32, k: nat)
    requires
        s.valid(),
        k <= s.n(),
        forall|j: int|
            0 <= j < s.n() ==> !key_bit(pins, j) && (#[trigger] s.key_states[j] != KeyState::Idle
                ==> s.last_bits[j]),
    ensures
        forall|j: int| 0 <= j < k ==> #[trigger] s.edges(pins, now, k).0.key_states[j] == KeyState::Idle,
        forall|j: int|
            k <= j < s.n() ==> #[trigger] s.edges(pins, now, k).0.key_states[j] == s.key_states[j],
    decreases k,
{
    if k > 0 {
        lemma_edges_all_released(s, pins, now, (k - 1) as nat);
        lemma_edges_frame(s, pins, now, (k - 1) as nat);
        assert(s.key_states[k - 1] != KeyState::Idle ==> s.last_bits[k - 1]);
    }
}

/// Layer rollback: when every key reads released and every active key read
/// pressed on the previous tick (the hold-layer key among them), the tick
/// ends on the layer to return to, with every key idle, and queues no event.
pub proof fn lemma_layer_rollback(s: EngineState, pins: u64, now: u32)
    requires
        s.valid(),
        forall|j: int|
            0 <= j < s.n() ==> !key_bit(pins, j) && (#[trigger] s.key_states[j] != KeyState::Idle
                ==> s.last_bits[j]),
    ensures
        s.tick_events(pins, now).len() == 0,
        s.tick(pins, now).0.layer == s.last_layer,
        s.tick(pins, now).0.last_layer == s.last_layer,
        s.tick(pins, now).0.key_states == all_idle(s.n()),
{
    lemma_edges_all_released(s, pins, now, s.n());
    lemma_edges_valid(s, pins, now);
    let e = s.after_edges(pins, now);
    assert forall|j: int| 0 <= j < e.n() implies #[trigger] e.key_states[j] == KeyState::Idle by {
        assert(s.edges(pins, now, s.n()).0.key_states[j] == KeyState::Idle);
    }
    lemma_resolve_all_idle(e, now, e.n());
    assert(e.key_states =~= all_idle(s.n()));
}

} // verus!
