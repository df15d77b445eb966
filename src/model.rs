//! The layered keyboard engine as a mathematical state machine: one tick maps a
//! state, a combined key-state word and a timestamp to the next state and the
//! usage codes sent.
use vstd::prelude::*;
use crate::types::{mapping_usages, KeyEvent, KeyMapping, KeyState, LayerAction, LayerKeyMap};
use crate::queue::{EVENT_CAPACITY, REPORT_CAPACITY};

verus! {

/// Minimum time between two accepted presses of one key, in microseconds.
pub const DEBOUNCE_US: u32 = 20_000;

/// Time a key must be held before its hold action fires, in microseconds.
pub const HOLD_PRESS_MIN_US: u32 = 500_000;

/// Number of layers in a layer table.
pub const N_LAYERS: usize = 5;

/// Microseconds from `then` to `now` on the free-running 32-bit counter, across a rollover.
pub open spec fn elapsed(now: u32, then: u32) -> u32 {
    now.wrapping_sub(then)
}

/// Whether key `id` reads as pressed in a combined key-state word.
pub open spec fn key_bit(pins: u64, id: int) -> bool {
    (pins >> (id as u64)) & 1u64 == 1u64
}

/// An event queue after an attempt to add `e`: a full queue keeps what it holds.
pub open spec fn push_event(evs: Seq<KeyEvent>, e: KeyEvent) -> Seq<KeyEvent> {
    if evs.len() < EVENT_CAPACITY {
        evs.push(e)
    } else {
        evs
    }
}

/// A report queue after an attempt to add each of `xs` in turn: what does not fit is dropped.
pub open spec fn report_after(q: Seq<u8>, xs: Seq<u8>) -> Seq<u8>
    decreases xs.len(),
{
    if xs.len() == 0 {
        q
    } else {
        let r = report_after(q, xs.drop_last());
        if r.len() < REPORT_CAPACITY {
            r.push(xs.last())
        } else {
            r
        }
    }
}

/// Adding `a` and then `b` to a report queue is adding `a + b`.
pub proof fn lemma_report_after_concat(q: Seq<u8>, a: Seq<u8>, b: Seq<u8>)
    ensures
        report_after(q, a + b) == report_after(report_after(q, a), b),
    decreases b.len(),
{
    if b.len() == 0 {
        assert(a + b =~= a);
    } else {
        lemma_report_after_concat(q, a, b.drop_last());
        assert((a + b).drop_last() =~= a + b.drop_last());
    }
}

/// A report queue after `xs` is added holds its old codes followed by the
/// first codes of `xs`, as many as fit.
pub proof fn lemma_report_after_fits(q: Seq<u8>, xs: Seq<u8>)
    requires
        q.len() <= REPORT_CAPACITY,
    ensures
        report_after(q, xs) == (q + xs).take(
            if q.len() + xs.len() <= REPORT_CAPACITY {
                q.len() + xs.len() as int
            } else {
                REPORT_CAPACITY as int
            },
        ),
    decreases xs.len(),
{
    if xs.len() == 0 {
        assert((q + xs).take(q.len() as int) =~= q);
    } else {
        lemma_report_after_fits(q, xs.drop_last());
        let r = report_after(q, xs.drop_last());
        assert(q + xs.drop_last() =~= (q + xs).drop_last());
        if r.len() < REPORT_CAPACITY {
            assert(r.push(xs.last()) =~= (q + xs).take(q.len() + xs.len() as int));
        } else {
            assert(r =~= (q + xs).take(REPORT_CAPACITY as int));
        }
    }
}

/// The key that an event is about.
pub open spec fn event_key(e: KeyEvent) -> usize {
    match e {
        KeyEvent::Pressed(id) => id,
        KeyEvent::DoublePress(id) => id,
        KeyEvent::HeldPress(id) => id,
    }
}

/// Every key in the idle state.
pub open spec fn all_idle(n: nat) -> Seq<KeyState> {
    Seq::new(n, |i: int| KeyState::Idle)
}

/// The engine's state between ticks.
pub struct EngineState {
    /// `layers[l][id]`: what key `id` does on layer `l`.
    pub layers: Seq<Seq<Option<LayerKeyMap>>>,
    pub key_states: Seq<KeyState>,
    /// The key bits seen on the previous tick.
    pub last_bits: Seq<bool>,
    /// When each key's last press was accepted.
    pub last_press: Seq<u32>,
    /// The key whose tap-or-hold choice is still open.
    pub held_key: Option<usize>,
    pub layer: usize,
    /// The layer to return to when a held layer is let go.
    pub last_layer: usize,
    /// Whether a hold-layer code was processed on the previous tick.
    pub is_layer_held: bool,
}

impl EngineState {
    /// Number of keys.
    pub open spec fn n(self) -> nat {
        self.key_states.len()
    }

    pub open spec fn valid(self) -> bool {
        &&& self.n() <= 64
        &&& self.layers.len() == N_LAYERS
        &&& forall|l: int| 0 <= l < N_LAYERS ==> #[trigger] self.layers[l].len() == self.n()
        &&& self.last_bits.len() == self.n()
        &&& self.last_press.len() == self.n()
        &&& self.held_key matches Some(h) ==> h < self.n()
        &&& self.layer < N_LAYERS
        &&& self.last_layer < N_LAYERS
    }

    /// What key `id` does on the current layer, falling back to the base layer.
    pub open spec fn mapping(self, id: int) -> Option<LayerKeyMap> {
        match self.layers[self.layer as int][id] {
            Some(m) => Some(m),
            None => self.layers[0][id],
        }
    }

    pub open spec fn with_key_state(self, id: int, st: KeyState) -> EngineState {
        EngineState { key_states: self.key_states.update(id, st), ..self }
    }

    /// The tap usages sent when key `id` is released at `now`: only a key with a
    /// hold action that is released before the hold threshold fires its tap here.
    pub open spec fn tap_on_release(self, id: int, now: u32) -> Seq<u8> {
        match self.mapping(id) {
            Some(km) => if km.held_press is Some && (self.key_states[id] == KeyState::Pressed
                || self.key_states[id] == KeyState::FirstPress) && elapsed(
                now,
                self.last_press[id],
            ) < HOLD_PRESS_MIN_US {
                mapping_usages(km.pressed)
            } else {
                Seq::empty()
            },
            None => Seq::empty(),
        }
    }

    /// The state after key `id` is released.
    pub open spec fn release(self, id: int) -> EngineState {
        EngineState {
            held_key: if self.held_key == Some(id as usize) {
                None
            } else {
                self.held_key
            },
            key_states: self.key_states.update(id, KeyState::Idle),
            ..self
        }
    }

    /// Edge detection for key `id`: a falling edge releases it, a rising edge
    /// outside the debounce interval starts a press.
    pub open spec fn edge_step(self, pins: u64, now: u32, id: int) -> (EngineState, Seq<u8>) {
        if !key_bit(pins, id) {
            if self.last_bits[id] {
                (self.release(id), self.tap_on_release(id, now))
            } else {
                (self, Seq::empty())
            }
        } else if !self.last_bits[id] && elapsed(now, self.last_press[id]) > DEBOUNCE_US {
            (
                EngineState {
                    last_press: self.last_press.update(id, now),
                    key_states: self.key_states.update(id, KeyState::FirstPress),
                    ..self
                },
                Seq::empty(),
            )
        } else {
            (self, Seq::empty())
        }
    }

    /// Edge detection over keys `0..k`, with the usages that releases sent.
    pub open spec fn edges(self, pins: u64, now: u32, k: nat) -> (EngineState, Seq<u8>)
        decreases k,
    {
        if k == 0 {
            (self, Seq::empty())
        } else {
            let (s, out) = self.edges(pins, now, (k - 1) as nat);
            let (s2, more) = s.edge_step(pins, now, k - 1);
            (s2, out + more)
        }
    }

    /// The state once the bits of `pins` are remembered for the next tick.
    pub open spec fn remember_bits(self, pins: u64) -> EngineState {
        EngineState { last_bits: Seq::new(self.n(), |i: int| key_bit(pins, i)), ..self }
    }

    /// Resolution of key `id`: the events it queues and its next state.
    pub open spec fn resolve_step(self, evs: Seq<KeyEvent>, now: u32, id: int) -> (
        EngineState,
        Seq<KeyEvent>,
    ) {
        let st = self.key_states[id];
        match self.mapping(id) {
            None => (self, evs),
            Some(km) => if st == KeyState::Idle {
                (self, evs)
            } else if st == KeyState::HeldPressed {
                (self, push_event(evs, KeyEvent::HeldPress(id as usize)))
            } else {
                let (s1, evs1) = if self.held_key is Some && self.held_key.unwrap() != id {
                    let h = self.held_key.unwrap();
                    (
                        EngineState {
                            key_states: self.key_states.update(h as int, KeyState::HeldPressed),
                            held_key: None,
                            ..self
                        },
                        push_event(evs, KeyEvent::HeldPress(h)),
                    )
                } else if km.held_press is Some {
                    (EngineState { held_key: Some(id as usize), ..self }, evs)
                } else {
                    (self, push_event(evs, KeyEvent::Pressed(id as usize)))
                };
                if st == KeyState::Pressed && elapsed(now, self.last_press[id])
                    >= HOLD_PRESS_MIN_US {
                    (s1.with_key_state(id, KeyState::HeldPressed), evs1)
                } else if st == KeyState::FirstPress {
                    (s1.with_key_state(id, KeyState::Pressed), evs1)
                } else {
                    (s1, evs1)
                }
            },
        }
    }

    /// The resolution pass over keys `0..k`, with the events queued.
    pub open spec fn resolve(self, now: u32, k: nat) -> (EngineState, Seq<KeyEvent>)
        decreases k,
    {
        if k == 0 {
            (self, Seq::empty())
        } else {
            let (s, evs) = self.resolve(now, (k - 1) as nat);
            s.resolve_step(evs, now, k - 1)
        }
    }

    /// The key and mapping that event `e` fires on the current layer, if any.
    pub open spec fn event_mapping(self, e: KeyEvent) -> Option<(usize, KeyMapping)> {
        match e {
            KeyEvent::Pressed(id) => match self.mapping(id as int) {
                Some(km) => match km.pressed {
                    Some(m) => Some((id, m)),
                    None => None,
                },
                None => None,
            },
            KeyEvent::HeldPress(id) => match self.mapping(id as int) {
                Some(km) => match km.held_press {
                    Some(m) => Some((id, m)),
                    None => match km.pressed {
                        Some(m) => Some((id, m)),
                        None => None,
                    },
                },
                None => None,
            },
            KeyEvent::DoublePress(_) => None,
        }
    }

    /// Processing of one event: a layer change, or the usages it sends.
    /// `held` says whether a hold-layer code was processed earlier in the tick.
    pub open spec fn apply_event(self, e: KeyEvent, held: bool) -> (EngineState, Seq<u8>, bool) {
        match self.event_mapping(e) {
            None => (self, Seq::empty(), held),
            Some((id, m)) => match m.key.spec_layer_action() {
                Some(LayerAction::Latch(i)) => (
                    EngineState {
                        layer: i,
                        key_states: all_idle(self.n()),
                        last_layer: i,
                        ..self
                    },
                    Seq::empty(),
                    held,
                ),
                Some(LayerAction::Hold(i)) => if self.layer == i {
                    (self, Seq::empty(), true)
                } else if self.is_layer_held {
                    (EngineState { layer: i, ..self }, Seq::empty(), true)
                } else {
                    (
                        EngineState {
                            last_layer: self.layer,
                            key_states: all_idle(self.n()).update(id as int, KeyState::Pressed),
                            layer: i,
                            ..self
                        },
                        Seq::empty(),
                        true,
                    )
                },
                None => (self, m.spec_usages(), held),
            },
        }
    }

    /// Processing of the first `k` events of `evs`, in order.
    pub open spec fn drain(self, evs: Seq<KeyEvent>, k: nat) -> (EngineState, Seq<u8>, bool)
        decreases k,
    {
        if k == 0 {
            (self, Seq::empty(), false)
        } else {
            let (s, out, held) = self.drain(evs, (k - 1) as nat);
            let (s2, more, held2) = s.apply_event(evs[k - 1], held);
            (s2, out + more, held2)
        }
    }

    /// End of a tick: a layer that is no longer held rolls back, and key states reset.
    pub open spec fn finish(self, held: bool) -> EngineState {
        if !held && self.last_layer != self.layer {
            EngineState {
                layer: self.last_layer,
                key_states: all_idle(self.n()),
                is_layer_held: held,
                ..self
            }
        } else {
            EngineState { is_layer_held: held, ..self }
        }
    }

    /// The state after edge detection and remembering the bits.
    pub open spec fn after_edges(self, pins: u64, now: u32) -> EngineState {
        self.edges(pins, now, self.n()).0.remember_bits(pins)
    }

    /// The events that the resolution pass of a tick queues.
    pub open spec fn tick_events(self, pins: u64, now: u32) -> Seq<KeyEvent> {
        self.after_edges(pins, now).resolve(now, self.n()).1
    }

    /// The state and usages after all events of a tick are processed.
    pub open spec fn after_drain(self, pins: u64, now: u32) -> (EngineState, Seq<u8>, bool) {
        let evs = self.tick_events(pins, now);
        self.after_edges(pins, now).resolve(now, self.n()).0.drain(evs, evs.len())
    }

    /// One whole tick: the next state, and the usage codes sent, in order.
    pub open spec fn tick(self, pins: u64, now: u32) -> (EngineState, Seq<u8>) {
        let (s, out, held) = self.after_drain(pins, now);
        (s.finish(held), self.edges(pins, now, self.n()).1 + out)
    }
}

} // verus!
