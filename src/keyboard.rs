//! The layered keyboard engine: once per tick it turns the combined key-state
//! word into key events, resolves layers and tap-or-hold keys, and queues the
//! resulting usage codes for the HID report.
use heapless::spsc::Queue;
use vstd::prelude::*;
use crate::model::{
    all_idle, event_key, key_bit, lemma_report_after_concat, report_after, EngineState,
    DEBOUNCE_US, HOLD_PRESS_MIN_US, N_LAYERS,
};
use crate::queue::{
    dequeue_event, dequeue_usage, enqueue_event, enqueue_usage, new_event_queue, new_report_queue,
    pending_events, queued_usages, REPORT_CAPACITY,
};
use crate::types::{
    mapping_usages, report_entry, KeyEvent, KeyMapping, KeyState, LayerAction, LayerKeyMap,
};

verus! {

/// The engine for `N` keys, with a layer table of `N_LAYERS` layers.
pub struct LayeredKeyboard<const N: usize> {
    report: Queue<u8, 32>,
    layers: [[Option<LayerKeyMap>; N]; N_LAYERS],
    key_states: Vec<KeyState>,
    last_state_b: Vec<bool>,
    event_queue: Queue<KeyEvent, 64>,
    // The key with a hold mapping whose tap-or-hold choice is still open; of
    // several such keys, the most recent.
    held_key: Option<usize>,
    // When each key's last press was accepted.
    last_press_t: Vec<u32>,
    layer: usize,
    last_layer: usize,
    is_layer_held: bool,
}

impl<const N: usize> View for LayeredKeyboard<N> {
    type V = EngineState;

    closed spec fn view(&self) -> EngineState {
        EngineState {
            layers: Seq::new(N_LAYERS as nat, |l: int| self.layers@[l]@),
            key_states: self.key_states@,
            last_bits: self.last_state_b@,
            last_press: self.last_press_t@,
            held_key: self.held_key,
            layer: self.layer,
            last_layer: self.last_layer,
            is_layer_held: self.is_layer_held,
        }
    }
}

impl<const N: usize> LayeredKeyboard<N> {
    /// The usage codes waiting in the report queue, oldest first.
    pub closed spec fn report(&self) -> Seq<u8> {
        queued_usages(self.report)
    }

    /// What holds at every point of a tick.
    closed spec fn inv(&self) -> bool {
        &&& self@.valid()
        &&& self@.n() == N
        &&& self.report().len() <= REPORT_CAPACITY
    }

    /// What holds between ticks: the event queue is empty as well.
    pub closed spec fn wf(&self) -> bool {
        &&& self.inv()
        &&& pending_events(self.event_queue).len() == 0
    }

    /// An engine on the base layer with every key idle, as if each key's last
    /// press had been accepted at `now`.
    pub fn new(layers: [[Option<LayerKeyMap>; N]; N_LAYERS], now: u32) -> (r: Self)
        requires
            N <= 64,
        ensures
            r.wf(),
            r@.layers == Seq::new(N_LAYERS as nat, |l: int| layers@[l]@),
            r@.key_states == all_idle(N as nat),
            r@.last_bits == Seq::new(N as nat, |i: int| false),
            r@.last_press == Seq::new(N as nat, |i: int| now),
            r@.held_key is None,
            r@.layer == 0,
            r@.last_layer == 0,
            !r@.is_layer_held,
            r.report() == Seq::<u8>::empty(),
    {
        let mut key_states: Vec<KeyState> = Vec::new();
        let mut last_state_b: Vec<bool> = Vec::new();
        let mut last_press_t: Vec<u32> = Vec::new();
        let mut i: usize = 0;
        while i < N
            invariant
                i <= N,
                key_states@ == all_idle(i as nat),
                last_state_b@ == Seq::new(i as nat, |j: int| false),
                last_press_t@ == Seq::new(i as nat, |j: int| now),
            decreases N - i,
        {
            key_states.push(KeyState::Idle);
            last_state_b.push(false);
            last_press_t.push(now);
            i = i + 1;
            assert(key_states@ =~= all_idle(i as nat));
            assert(last_state_b@ =~= Seq::new(i as nat, |j: int| false));
            assert(last_press_t@ =~= Seq::new(i as nat, |j: int| now));
        }
        LayeredKeyboard {
            report: new_report_queue(),
            layers,
            key_states,
            last_state_b,
            event_queue: new_event_queue(),
            held_key: None,
            last_press_t,
            layer: 0,
            last_layer: 0,
            is_layer_held: false,
        }
    }

    /// What key `id` does on the current layer, falling back to the base layer.
    fn get_key_map(&self, id: usize) -> (r: Option<LayerKeyMap>)
        requires
            self.inv(),
            id < N,
        ensures
            r == self@.mapping(id as int),
    {
        let row = self.layers[self.layer];
        match row[id] {
            Some(m) => Some(m),
            None => {
                let base = self.layers[0];
                base[id]
            },
        }
    }

    /// Queues usage code `u` for the report unless it is the no-event code.
    fn send_usage(&mut self, u: u8)
        requires
            old(self).inv(),
        ensures
            final(self).inv(),
            final(self)@ == old(self)@,
            final(self).report() == report_after(old(self).report(), report_entry(u)),
            final(self).event_queue == old(self).event_queue,
    {
        let ghost q0 = self.report();
        assert(report_after(q0, Seq::empty()) == q0);
        if u != 0 {
            let _ = enqueue_usage(&mut self.report, u);
            assert(report_entry(u).drop_last() =~= Seq::<u8>::empty());
        }
    }

    /// Queues the usage codes of mapping `m`, key first.
    fn send_mapping(&mut self, m: Option<KeyMapping>)
        requires
            old(self).inv(),
        ensures
            final(self).inv(),
            final(self)@ == old(self)@,
            final(self).report() == report_after(old(self).report(), mapping_usages(m)),
            final(self).event_queue == old(self).event_queue,
    {
        if let Some(k) = m {
            let (a, b) = k.usage_pair();
            let ghost q0 = self.report();
            self.send_usage(a);
            self.send_usage(b);
            proof {
                lemma_report_after_concat(q0, report_entry(a), report_entry(b));
            }
        }
    }

    /// Sets every key to idle.
    fn clear_key_states(&mut self)
        requires
            old(self).inv(),
        ensures
            final(self).inv(),
            final(self)@ == (EngineState { key_states: all_idle(N as nat), ..old(self)@ }),
            final(self).report == old(self).report,
            final(self).event_queue == old(self).event_queue,
    {
        let mut i: usize = 0;
        while i < N
            invariant
                i <= N,
                self.key_states@.len() == N,
                forall|j: int| 0 <= j < i ==> self.key_states@[j] == KeyState::Idle,
                self.layers == old(self).layers,
                self.last_state_b == old(self).last_state_b,
                self.last_press_t == old(self).last_press_t,
                self.held_key == old(self).held_key,
                self.layer == old(self).layer,
                self.last_layer == old(self).last_layer,
                self.is_layer_held == old(self).is_layer_held,
                self.report == old(self).report,
                self.event_queue == old(self).event_queue,
            decreases N - i,
        {
            self.key_states.set(i, KeyState::Idle);
            i = i + 1;
        }
        assert(self.key_states@ =~= all_idle(N as nat));
    }

    /// Handles the release of key `id`: a key with a hold action released
    /// before the hold threshold sends its tap action now.
    fn key_released(&mut self, id: usize, now: u32)
        requires
            old(self).inv(),
            id < N,
        ensures
            final(self).inv(),
            final(self)@ == old(self)@.release(id as int),
            final(self).report() == report_after(
                old(self).report(),
                old(self)@.tap_on_release(id as int, now),
            ),
            final(self).event_queue == old(self).event_queue,
    {
        let key_map = self.get_key_map(id);
        let state = self.key_states[id];
        let held_for = now.wrapping_sub(self.last_press_t[id]);
        if let Some(h) = self.held_key {
            if h == id {
                self.held_key = None;
            }
        }
        if let Some(km) = key_map {
            if km.held_press.is_some() && (state == KeyState::Pressed || state
                == KeyState::FirstPress) && held_for < HOLD_PRESS_MIN_US {
                self.send_mapping(km.pressed);
            }
        }
        self.key_states.set(id, KeyState::Idle);
    }
    /// Edge detection over all keys: falling edges release keys, rising edges
    /// outside the debounce interval start presses.
    fn detect_edges(&mut self, pin_states: u64, now: u32)
        requires
            old(self).inv(),
        ensures
            final(self).inv(),
            final(self)@ == old(self)@.edges(pin_states, now, N as nat).0,
            final(self).report() == report_after(
                old(self).report(),
                old(self)@.edges(pin_states, now, N as nat).1,
            ),
            final(self).event_queue == old(self).event_queue,
    {
        let ghost s0 = self@;
        let ghost q0 = self.report();
        let mut id: usize = 0;
        while id < N
            invariant
                id <= N,
                self.inv(),
                self@ == s0.edges(pin_states, now, id as nat).0,
                self.report() == report_after(q0, s0.edges(pin_states, now, id as nat).1),
                self.event_queue == old(self).event_queue,
            decreases N - id,
        {
            let ghost out = s0.edges(pin_states, now, id as nat).1;
            let ghost more = self@.edge_step(pin_states, now, id as int).1;
            proof {
                lemma_report_after_concat(q0, out, more);
            }
            let is_pressed = (pin_states >> (id as u64)) & 1u64 == 1u64;
            if !is_pressed {
                if self.last_state_b[id] {
                    self.key_released(id, now);
                }
            } else if !self.last_state_b[id] && now.wrapping_sub(self.last_press_t[id])
                > DEBOUNCE_US {
                self.last_press_t.set(id, now);
                self.key_states.set(id, KeyState::FirstPress);
            }
            proof {
                if !is_pressed && !s0.edges(pin_states, now, id as nat).0.last_bits[id as int] {
                    assert(out + more =~= out);
                } else if is_pressed {
                    assert(out + more =~= out);
                }
            }
            id = id + 1;
        }
    }

    /// Remembers the bits of `pin_states` for the next tick's edge detection.
    fn update_last_state(&mut self, pin_states: u64)
        requires
            old(self).inv(),
        ensures
            final(self).inv(),
            final(self)@ == old(self)@.remember_bits(pin_states),
            final(self).report == old(self).report,
            final(self).event_queue == old(self).event_queue,
    {
        let mut i: usize = 0;
        while i < N
            invariant
                i <= N,
                N <= 64,
                self.last_state_b@.len() == N,
                forall|j: int| 0 <= j < i ==> self.last_state_b@[j] == key_bit(pin_states, j),
                self.layers == old(self).layers,
                self.key_states == old(self).key_states,
                self.last_press_t == old(self).last_press_t,
                self.held_key == old(self).held_key,
                self.layer == old(self).layer,
                self.last_layer == old(self).last_layer,
                self.is_layer_held == old(self).is_layer_held,
                self.report == old(self).report,
                self.event_queue == old(self).event_queue,
            decreases N - i,
        {
            let bit = (pin_states >> (i as u64)) & 1u64 == 1u64;
            self.last_state_b.set(i, bit);
            i = i + 1;
        }
        assert(self.last_state_b@ =~= Seq::new(N as nat, |j: int| key_bit(pin_states, j)));
    }
    /// The resolution pass: queues each key's events in ascending key order and
    /// advances key states.
    fn resolve_states(&mut self, now: u32)
        requires
            old(self).wf(),
        ensures
            final(self).inv(),
            final(self)@ == old(self)@.resolve(now, N as nat).0,
            pending_events(final(self).event_queue) == old(self)@.resolve(now, N as nat).1,
            forall|i: int|
                0 <= i < pending_events(final(self).event_queue).len() ==> event_key(
                    #[trigger] pending_events(final(self).event_queue)[i],
                ) < N,
            final(self).report == old(self).report,
    {
        let ghost s0 = self@;
        let mut id: usize = 0;
        while id < N
            invariant
                id <= N,
                self.inv(),
                self@ == s0.resolve(now, id as nat).0,
                pending_events(self.event_queue) == s0.resolve(now, id as nat).1,
                forall|i: int|
                    0 <= i < pending_events(self.event_queue).len() ==> event_key(
                        #[trigger] pending_events(self.event_queue)[i],
                    ) < N,
                self.report == old(self).report,
            decreases N - id,
        {
            let state = self.key_states[id];
            let key_map = self.get_key_map(id);
            if let Some(km) = key_map {
                if state == KeyState::HeldPressed {
                    let _ = enqueue_event(&mut self.event_queue, KeyEvent::HeldPress(id));
                } else if state != KeyState::Idle {
                    // A second key pressed while a tap-or-hold key is undecided
                    // fires that key's hold action at once.
                    if self.held_key.is_some() && self.held_key.unwrap() != id {
                        let held_id = self.held_key.unwrap();
                        self.key_states.set(held_id, KeyState::HeldPressed);
                        let _ = enqueue_event(&mut self.event_queue, KeyEvent::HeldPress(held_id));
                        self.held_key = None;
                    } else if km.held_press.is_some() {
                        self.held_key = Some(id);
                    } else {
                        let _ = enqueue_event(&mut self.event_queue, KeyEvent::Pressed(id));
                    }
                    if state == KeyState::Pressed && now.wrapping_sub(self.last_press_t[id])
                        >= HOLD_PRESS_MIN_US {
                        self.key_states.set(id, KeyState::HeldPressed);
                    } else if state == KeyState::FirstPress {
                        self.key_states.set(id, KeyState::Pressed);
                    }
                }
            }
            id = id + 1;
        }
    }
    /// Processes one event against the current layer; `held` says whether a
    /// hold-layer code was processed earlier in this tick, and the result
    /// whether one has been by now.
    fn process_event(&mut self, event: KeyEvent, held: bool) -> (r: bool)
        requires
            old(self).inv(),
            event_key(event) < N,
        ensures
            final(self).inv(),
            (final(self)@, r) == (old(self)@.apply_event(event, held).0, old(self)@.apply_event(
                event,
                held,
            ).2),
            final(self).report() == report_after(
                old(self).report(),
                old(self)@.apply_event(event, held).1,
            ),
            final(self).event_queue == old(self).event_queue,
    {
        let ghost q0 = self.report();
        assert(report_after(q0, Seq::empty()) == q0);
        let (id, mapping) = match event {
            KeyEvent::Pressed(id) => match self.get_key_map(id) {
                Some(km) => match km.pressed {
                    Some(m) => (id, m),
                    None => {
                        return held;
                    },
                },
                None => {
                    return held;
                },
            },
            KeyEvent::HeldPress(id) => match self.get_key_map(id) {
                Some(km) => match km.held_press {
                    Some(m) => (id, m),
                    None => match km.pressed {
                        Some(m) => (id, m),
                        None => {
                            return held;
                        },
                    },
                },
                None => {
                    return held;
                },
            },
            KeyEvent::DoublePress(_) => {
                return held;
            },
        };
        match mapping.key.layer_action() {
            Some(LayerAction::Latch(layer)) => {
                self.layer = layer;
                self.clear_key_states();
                self.last_layer = layer;
                held
            },
            Some(LayerAction::Hold(layer)) => {
                if self.layer != layer {
                    // Only the first hold of a layer remembers where to return;
                    // a second held layer key must not make its layer stick.
                    if !self.is_layer_held {
                        self.last_layer = self.layer;
                        self.clear_key_states();
                        self.key_states.set(id, KeyState::Pressed);
                    }
                    self.layer = layer;
                }
                true
            },
            None => {
                self.send_mapping(Some(mapping));
                held
            },
        }
    }

    /// Processes the queued events in order until the queue is empty; returns
    /// whether a hold-layer code was among them.
    fn drain_events(&mut self) -> (r: bool)
        requires
            old(self).inv(),
            forall|i: int|
                0 <= i < pending_events(old(self).event_queue).len() ==> event_key(
                    #[trigger] pending_events(old(self).event_queue)[i],
                ) < N,
        ensures
            final(self).wf(),
            ({
                let evs = pending_events(old(self).event_queue);
                let (s, out, held) = old(self)@.drain(evs, evs.len());
                &&& final(self)@ == s
                &&& r == held
                &&& final(self).report() == report_after(old(self).report(), out)
            }),
    {
        let ghost s0 = self@;
        let ghost q0 = self.report();
        let ghost evs = pending_events(self.event_queue);
        let ghost mut k: nat = 0;
        let mut is_layer_held = false;
        loop
            invariant
                self.inv(),
                k <= evs.len(),
                pending_events(self.event_queue) == evs.skip(k as int),
                forall|i: int| 0 <= i < evs.len() ==> event_key(#[trigger] evs[i]) < N,
                self@ == s0.drain(evs, k).0,
                is_layer_held == s0.drain(evs, k).2,
                self.report() == report_after(q0, s0.drain(evs, k).1),
            ensures
                self.inv(),
                pending_events(self.event_queue).len() == 0,
                k == evs.len(),
                self@ == s0.drain(evs, k).0,
                is_layer_held == s0.drain(evs, k).2,
                self.report() == report_after(q0, s0.drain(evs, k).1),
            decreases evs.len() - k,
        {
            match dequeue_event(&mut self.event_queue) {
                None => {
                    break;
                },
                Some(event) => {
                    assert(event == evs[k as int]);
                    proof {
                        lemma_report_after_concat(
                            q0,
                            s0.drain(evs, k).1,
                            self@.apply_event(event, is_layer_held).1,
                        );
                    }
                    is_layer_held = self.process_event(event, is_layer_held);
                    proof {
                        k = k + 1;
                        assert(evs.skip(k - 1).drop_first() =~= evs.skip(k as int));
                    }
                },
            }
        }
        is_layer_held
    }

    /// Takes the combined key-state word of this tick and the time `now`, and
    /// queues the tick's usage codes for the HID report: releases' taps first,
    /// then the usages of the resolved events in order. A layer held on the
    /// previous tick and no longer held now rolls back.
    pub fn get_report(&mut self, pin_states: u64, now: u32)
        requires
            old(self).wf(),
        ensures
            final(self).wf(),
            final(self)@ == old(self)@.tick(pin_states, now).0,
            final(self).report() == report_after(
                old(self).report(),
                old(self)@.tick(pin_states, now).1,
            ),
    {
        let ghost s0 = self@;
        let ghost q0 = self.report();
        self.detect_edges(pin_states, now);
        self.update_last_state(pin_states);
        self.resolve_states(now);
        let held = self.drain_events();
        proof {
            lemma_report_after_concat(q0, s0.edges(pin_states, now, N as nat).1, s0.after_drain(pin_states, now).1);
        }
        self.is_layer_held = held;
        // A layer that was held and is no longer held rolls back.
        if !self.is_layer_held && self.last_layer != self.layer {
            self.layer = self.last_layer;
            self.clear_key_states();
        }
    }
    /// Takes the oldest usage code out of the report queue, if any.
    pub fn next_usage(&mut self) -> (r: Option<u8>)
        requires
            old(self).wf(),
        ensures
            final(self).wf(),
            final(self)@ == old(self)@,
            old(self).report().len() == 0 ==> r is None
                && final(self).report() == old(self).report(),
            old(self).report().len() > 0 ==> r == Some(old(self).report()[0])
                && final(self).report() == old(self).report().drop_first(),
    {
        dequeue_usage(&mut self.report)
    }

    /// The logical state of key `id`.
    pub fn key_state(&self, id: usize) -> (r: KeyState)
        requires
            self.wf(),
            id < N,
        ensures
            r == self@.key_states[id as int],
    {
        self.key_states[id]
    }

    /// The current layer.
    pub fn layer(&self) -> (r: usize)
        ensures
            r == self@.layer,
    {
        self.layer
    }

    /// The layer that the engine returns to when a held layer is let go.
    pub fn last_layer(&self) -> (r: usize)
        ensures
            r == self@.last_layer,
    {
        self.last_layer
    }
}

} // verus!
