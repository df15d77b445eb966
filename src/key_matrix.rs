//! The key-matrix scanner of one half: per-key debounce of the column samples
//! taken while a row is driven. Driving the pins and waiting for them to settle
//! is left to the caller, which hands over what it read.
use vstd::prelude::*;
use crate::model::elapsed;

verus! {

pub const N_ROWS: usize = 3;

pub const N_COLS: usize = 7;

pub const N_KEYS: usize = 21;

/// How long a driven row is left to settle before its columns are sampled.
pub const PIN_SETTLE_TIME_US: u32 = 200;

/// Minimum time between two accepted transitions of one key, in microseconds.
pub const DEBOUNCE_US: u32 = 50_000;

/// Bit `j` of a key mask.
pub open spec fn mask_bit(mask: u32, j: u32) -> bool {
    (mask >> j) & 1u32 == 1u32
}

/// Debounce of one key: a sample that differs from the accepted state is
/// accepted, with its time, only once the debounce interval has passed since
/// the last accepted transition. Returns the accepted state and its time.
pub open spec fn scan_key(state: bool, last_event: u32, sample: bool, now: u32) -> (bool, u32) {
    if sample != state && elapsed(now, last_event) > DEBOUNCE_US {
        (sample, now)
    } else {
        (state, last_event)
    }
}

/// Whether key `j` sits in row `row` among its first `n_cols` columns.
pub open spec fn in_row(j: int, row: int, n_cols: int) -> bool {
    row * N_COLS <= j < row * N_COLS + n_cols
}

/// Debounce: once a key's transition has been accepted at `t1`, a second
/// transition sampled less than the debounce interval later is not accepted,
/// so the two collapse into the one accepted transition.
pub proof fn lemma_debounce(state: bool, last_event: u32, s1: bool, t1: u32, s2: bool, t2: u32)
    requires
        scan_key(state, last_event, s1, t1).0 != state,
        elapsed(t2, t1) < DEBOUNCE_US,
    ensures
        scan_key(scan_key(state, last_event, s1, t1).0, scan_key(state, last_event, s1, t1).1, s2, t2)
            == scan_key(state, last_event, s1, t1),
{
}

/// Key `j` after row `row` was polled with samples `cols` at `now`: its
/// accepted state and the time of its last accepted transition.
pub open spec fn scanned(
    states: Seq<bool>,
    times: Seq<u32>,
    row: int,
    cols: Seq<bool>,
    now: u32,
    j: int,
) -> (bool, u32) {
    if in_row(j, row, cols.len() as int) {
        scan_key(states[j], times[j], cols[j - row * N_COLS], now)
    } else {
        (states[j], times[j])
    }
}

proof fn lemma_set_bit(a: u32, p: u32, j: u32)
    requires
        p < 32,
        j < 32,
    ensures
        mask_bit(a | (1u32 << p), j) <==> (mask_bit(a, j) || j == p),
{
    assert(((a | (1u32 << p)) >> j) & 1u32 == 1u32 <==> ((a >> j) & 1u32 == 1u32 || j == p))
        by (bit_vector)
        requires
            p < 32,
            j < 32,
    ;
}

proof fn lemma_or_bits(a: u32, b: u32, j: u32)
    requires
        j < 32,
    ensures
        mask_bit(a | b, j) <==> (mask_bit(a, j) || mask_bit(b, j)),
{
    assert(((a | b) >> j) & 1u32 == 1u32 <==> ((a >> j) & 1u32 == 1u32 || (b >> j) & 1u32
        == 1u32)) by (bit_vector)
        requires
            j < 32,
    ;
}

proof fn lemma_row_of(j: int, r: int, n: int)
    requires
        0 <= j,
        0 <= r,
        0 <= n <= N_COLS,
    ensures
        in_row(j, r, n) <==> (j / (N_COLS as int) == r && j - r * N_COLS < n),
{
    assert(in_row(j, r, n) ==> j / 7 == r) by (nonlinear_arith)
        requires
            0 <= j,
            0 <= r,
            0 <= n <= 7,
            in_row(j, r, n) ==> r * 7 <= j < r * 7 + n,
    ;
    assert(j / 7 == r ==> r * 7 <= j < r * 7 + 7) by (nonlinear_arith)
        requires
            0 <= j,
            0 <= r,
    ;
}

proof fn lemma_empty_mask(j: u32)
    requires
        j < 32,
    ensures
        !mask_bit(0, j),
{
    assert((0u32 >> j) & 1u32 != 1u32) by (bit_vector);
}

/// Whether a row driven at `driven` has settled by `now`.
pub fn row_settled(driven: u32, now: u32) -> (r: bool)
    ensures
        r == (elapsed(now, driven) >= PIN_SETTLE_TIME_US),
{
    now.wrapping_sub(driven) >= PIN_SETTLE_TIME_US
}

/// The debounced state of the keys of one half.
pub struct KeyMatrix {
    // When each key's last transition was accepted.
    last_events: Vec<u32>,
    last_key_states: Vec<bool>,
}

impl KeyMatrix {
    /// The accepted state of each key; `true` is pressed.
    pub closed spec fn key_states(&self) -> Seq<bool> {
        self.last_key_states@
    }

    /// When each key's last transition was accepted.
    pub closed spec fn event_times(&self) -> Seq<u32> {
        self.last_events@
    }

    pub closed spec fn wf(&self) -> bool {
        &&& self.last_key_states@.len() == N_KEYS
        &&& self.last_events@.len() == N_KEYS
    }

    /// A scanner with every key released, as if each had changed at `now`.
    pub fn new(now: u32) -> (r: Self)
        ensures
            r.wf(),
            r.key_states() == Seq::new(N_KEYS as nat, |j: int| false),
            r.event_times() == Seq::new(N_KEYS as nat, |j: int| now),
    {
        let mut last_events: Vec<u32> = Vec::new();
        let mut last_key_states: Vec<bool> = Vec::new();
        let mut i: usize = 0;
        while i < N_KEYS
            invariant
                i <= N_KEYS,
                last_events@ == Seq::new(i as nat, |j: int| now),
                last_key_states@ == Seq::new(i as nat, |j: int| false),
            decreases N_KEYS - i,
        {
            last_events.push(now);
            last_key_states.push(false);
            i = i + 1;
            assert(last_events@ =~= Seq::new(i as nat, |j: int| now));
            assert(last_key_states@ =~= Seq::new(i as nat, |j: int| false));
        }
        KeyMatrix { last_events, last_key_states }
    }

    /// Debounces the column samples of row `row`, read at `now` while the row
    /// was driven (`true` is pressed). Returns the row's accepted key states as
    /// a mask with bit `row * N_COLS + col` for each column.
    pub fn poll_row_state(&mut self, row: usize, cols: &[bool], now: u32) -> (r: u32)
        requires
            old(self).wf(),
            row < N_ROWS,
            cols@.len() <= N_COLS,
        ensures
            final(self).wf(),
            forall|j: int|
                0 <= j < N_KEYS ==> (final(self).key_states()[j], final(self).event_times()[j])
                    == #[trigger] scanned(
                    old(self).key_states(),
                    old(self).event_times(),
                    row as int,
                    cols@,
                    now,
                    j,
                ),
            forall|j: u32|
                j < 32 ==> (mask_bit(r, j) <==> in_row(j as int, row as int, cols@.len() as int)
                    && final(self).key_states()[j as int]),
    {
        let mut key_states: u32 = 0;
        let mut col: usize = 0;
        proof {
            assert forall|j: u32| j < 32 implies !mask_bit(0, j) by {
                lemma_empty_mask(j);
            }
            assert forall|j: int| 0 <= j < N_KEYS implies (self.key_states()[j], self.event_times()[j])
                == #[trigger] scanned(
                old(self).key_states(),
                old(self).event_times(),
                row as int,
                cols@.subrange(0, 0),
                now,
                j,
            ) by {}
        }
        while col < cols.len()
            invariant
                self.wf(),
                row < N_ROWS,
                cols@.len() <= N_COLS,
                col <= cols@.len(),
                forall|j: int|
                    0 <= j < N_KEYS ==> (self.key_states()[j], self.event_times()[j])
                        == #[trigger] scanned(
                        old(self).key_states(),
                        old(self).event_times(),
                        row as int,
                        cols@.subrange(0, col as int),
                        now,
                        j,
                    ),
                forall|j: u32|
                    j < 32 ==> (mask_bit(key_states, j) <==> in_row(j as int, row as int, col as int)
                        && self.key_states()[j as int]),
            decreases cols@.len() - col,
        {
            let id = col + row * N_COLS;
            let key_state = cols[col];
            let ghost prev_states = self.key_states();
            let ghost prev_times = self.event_times();
            if key_state != self.last_key_states[id] && now.wrapping_sub(self.last_events[id])
                > DEBOUNCE_US {
                self.last_events.set(id, now);
                self.last_key_states.set(id, key_state);
            }
            let ghost before = key_states;
            if self.last_key_states[id] {
                key_states = key_states | (1u32 << id as u32);
            }
            proof {
                let next = cols@.subrange(0, col + 1);
                assert forall|j: int| 0 <= j < N_KEYS implies (self.key_states()[j],
                    self.event_times()[j]) == #[trigger] scanned(
                    old(self).key_states(),
                    old(self).event_times(),
                    row as int,
                    next,
                    now,
                    j,
                ) by {
                    assert(scanned(old(self).key_states(), old(self).event_times(), row as int,
                        cols@.subrange(0, col as int), now, j) == (prev_states[j], prev_times[j]));
                    if j == id {
                        assert(next[j - row * N_COLS] == cols@[col as int]);
                    }
                }
                assert forall|j: u32| j < 32 implies (mask_bit(key_states, j) <==> in_row(
                    j as int,
                    row as int,
                    col + 1,
                ) && self.key_states()[j as int]) by {
                    if self.last_key_states@[id as int] {
                        lemma_set_bit(before, id as u32, j);
                    }
                }
            }
            col = col + 1;
        }
        assert(cols@.subrange(0, col as int) =~= cols@);
        key_states
    }
    /// Polls rows `0..rows.len()` in turn, row `r` with the column samples
    /// `rows[r]` read at `times[r]`, as `poll_row_state` does for each. Returns
    /// the accepted states of the polled keys as one mask.
    pub fn poll_row_states(&mut self, rows: &[Vec<bool>], times: &[u32]) -> (r: u32)
        requires
            old(self).wf(),
            rows@.len() <= N_ROWS,
            times@.len() == rows@.len(),
            forall|i: int| 0 <= i < rows@.len() ==> #[trigger] rows@[i]@.len() <= N_COLS,
        ensures
            final(self).wf(),
            forall|j: int|
                0 <= j < N_KEYS ==> (final(self).key_states()[j], final(self).event_times()[j])
                    == if j / (N_COLS as int) < rows@.len() {
                    scanned(
                        old(self).key_states(),
                        old(self).event_times(),
                        j / (N_COLS as int),
                        rows@[j / (N_COLS as int)]@,
                        times@[j / (N_COLS as int)],
                        j,
                    )
                } else {
                    (old(self).key_states()[j], old(self).event_times()[j])
                },
            forall|j: u32|
                j < 32 ==> (mask_bit(r, j) <==> ((j as int) / (N_COLS as int) < rows@.len()
                    && in_row(j as int, (j as int) / (N_COLS as int), rows@[(j as int) / (
                    N_COLS as int)]@.len() as int) && final(self).key_states()[j as int])),
    {
        let mut key_states: u32 = 0;
        let mut row: usize = 0;
        proof {
            assert forall|j: u32| j < 32 implies !mask_bit(0, j) by {
                lemma_empty_mask(j);
            }
        }
        while row < rows.len()
            invariant
                self.wf(),
                row <= rows@.len(),
                rows@.len() <= N_ROWS,
                times@.len() == rows@.len(),
                forall|i: int| 0 <= i < rows@.len() ==> #[trigger] rows@[i]@.len() <= N_COLS,
                forall|j: int|
                    0 <= j < N_KEYS ==> (self.key_states()[j], self.event_times()[j]) == if j / (
                    N_COLS as int) < row {
                        scanned(
                            old(self).key_states(),
                            old(self).event_times(),
                            j / (N_COLS as int),
                            rows@[j / (N_COLS as int)]@,
                            times@[j / (N_COLS as int)],
                            j,
                        )
                    } else {
                        (old(self).key_states()[j], old(self).event_times()[j])
                    },
                forall|j: u32|
                    j < 32 ==> (mask_bit(key_states, j) <==> ((j as int) / (N_COLS as int) < row
                        && in_row(j as int, (j as int) / (N_COLS as int), rows@[(j as int) / (
                        N_COLS as int)]@.len() as int) && self.key_states()[j as int])),
            decreases rows@.len() - row,
        {
            let ghost prev = key_states;
            let ghost ks0 = self.key_states();
            let ghost et0 = self.event_times();
            let row_mask = self.poll_row_state(row, rows[row].as_slice(), times[row]);
            key_states = key_states | row_mask;
            proof {
                let n = rows@[row as int]@.len() as int;
                assert forall|j: int| 0 <= j < N_KEYS implies (self.key_states()[j],
                    self.event_times()[j]) == if j / (N_COLS as int) < row + 1 {
                    scanned(
                        old(self).key_states(),
                        old(self).event_times(),
                        j / (N_COLS as int),
                        rows@[j / (N_COLS as int)]@,
                        times@[j / (N_COLS as int)],
                        j,
                    )
                } else {
                    (old(self).key_states()[j], old(self).event_times()[j])
                } by {
                    lemma_row_of(j, row as int, n);
                    assert(0 <= j / (N_COLS as int));
                    assert((self.key_states()[j], self.event_times()[j]) == scanned(
                        ks0,
                        et0,
                        row as int,
                        rows@[row as int]@,
                        times@[row as int],
                        j,
                    ));
                    if j / (N_COLS as int) < rows@.len() {
                        lemma_row_of(j, j / (N_COLS as int), rows@[j / (N_COLS as int)]@.len() as int);
                    }
                }
                assert forall|j: u32| j < 32 implies (mask_bit(key_states, j) <==> ((j as int) / (
                    N_COLS as int) < row + 1 && in_row(j as int, (j as int) / (N_COLS as int), rows@[(
                j as int) / (N_COLS as int)]@.len() as int) && self.key_states()[j as int])) by {
                    lemma_or_bits(prev, row_mask, j);
                    lemma_row_of(j as int, row as int, n);
                    assert(0 <= (j as int) / (N_COLS as int));
                    if (j as int) / (N_COLS as int) < rows@.len() {
                        lemma_row_of(j as int, (j as int) / (N_COLS as int), rows@[(j as int) / (
                            N_COLS as int)]@.len() as int);
                    }
                }
            }
            row = row + 1;
        }
        key_states
    }
}

} // verus!
