//! Fill policy of the delivery ring between the production thread and the
//! hardware callback: watermarks in seconds of audio, what the production
//! thread does on each pass, how much it writes at a time, and how the
//! callback covers a shortfall.
use vstd::prelude::*;

verus! {

/// Low watermark of the delivery ring, in milliseconds of audio.
pub const RING_LOW_MILLIS: u32 = 500;

/// High watermark of the delivery ring, in milliseconds of audio.
pub const RING_HIGH_MILLIS: u32 = 2000;

/// Frames synthesised per production chunk.
pub const WORKER_BLOCK_FRAMES: usize = 512;

/// `ceil(a / b)`.
pub open spec fn ceil_div(a: nat, b: nat) -> nat
    recommends
        b > 0,
{
    if a % b == 0 { a / b } else { a / b + 1 }
}

/// Interleaved samples in `millis` ms of audio, saturated at `usize::MAX`.
pub open spec fn samples_for_millis_spec(sample_rate: nat, millis: nat, channels: nat) -> nat {
    let n = ceil_div(sample_rate * millis, 1000) * channels;
    if n <= usize::MAX { n } else { usize::MAX as nat }
}

/// Interleaved samples in `millis` milliseconds at `sample_rate`: whole
/// frames, rounded up, times the channel count (saturating).
pub fn samples_for_millis(sample_rate: u32, millis: u32, channels: usize) -> (r: usize)
    ensures
        r == samples_for_millis_spec(sample_rate as nat, millis as nat, channels as nat),
{
    assert(sample_rate as u64 * millis as u64 <= u64::MAX) by (nonlinear_arith)
        requires
            sample_rate <= u32::MAX,
            millis <= u32::MAX,
    ;
    let total: u64 = sample_rate as u64 * millis as u64;
    let frames: u64 = if total % 1000 == 0 { total / 1000 } else { total / 1000 + 1 };
    assert(frames == ceil_div(sample_rate as nat * millis as nat, 1000));
    if channels == 0 {
        return 0;
    }
    if frames > (usize::MAX / channels) as u64 {
        assert(frames * channels > usize::MAX) by (nonlinear_arith)
            requires
                frames > usize::MAX / channels,
                channels >= 1,
        {
            vstd::arithmetic::div_mod::lemma_fundamental_div_mod(usize::MAX as int, channels as int);
        }
        usize::MAX
    } else {
        assert(frames * channels <= usize::MAX) by (nonlinear_arith)
            requires
                frames <= usize::MAX / channels,
                channels >= 1,
        {
            vstd::arithmetic::div_mod::lemma_fundamental_div_mod(usize::MAX as int, channels as int);
        }
        frames as usize * channels
    }
}

/// The ring's low and high watermarks, in interleaved samples.
pub open spec fn watermarks_spec(sample_rate: nat, channels: nat) -> (nat, nat) {
    let low = samples_for_millis_spec(sample_rate, RING_LOW_MILLIS as nat, channels);
    let high = samples_for_millis_spec(sample_rate, RING_HIGH_MILLIS as nat, channels);
    let block = WORKER_BLOCK_FRAMES * channels;
    (low, if high >= block { high } else { block as nat })
}

/// The ring's watermarks: refill below half a second of audio, up to two
/// seconds, and never less than one production chunk.
pub fn ring_watermarks(sample_rate: u32, channels: usize) -> (r: (usize, usize))
    requires
        WORKER_BLOCK_FRAMES * channels <= usize::MAX,
    ensures
        r.0 as nat == watermarks_spec(sample_rate as nat, channels as nat).0,
        r.1 as nat == watermarks_spec(sample_rate as nat, channels as nat).1,
{
    let low = samples_for_millis(sample_rate, RING_LOW_MILLIS, channels);
    let high = samples_for_millis(sample_rate, RING_HIGH_MILLIS, channels);
    let block = WORKER_BLOCK_FRAMES * channels;
    (low, if high >= block { high } else { block })
}

/// What the production thread does on one pass of its loop.
pub enum WorkerAction {
    /// The session is over.
    Stop,
    /// The ring is full enough: sleep briefly.
    Sleep,
    /// Synthesise chunks until the ring holds `target` samples.
    Fill { target: usize },
}

/// The production thread's decision, from the stop flag and the ring's
/// occupancy: below the low watermark it fills up to the high watermark
/// (bounded by the ring's capacity); otherwise it sleeps.
pub fn worker_action(stopped: bool, occupied: usize, capacity: usize, low: usize, high: usize) -> (r:
    WorkerAction)
    ensures
        stopped ==> r is Stop,
        !stopped && occupied < low ==> r == (WorkerAction::Fill {
            target: if high <= capacity { high } else { capacity },
        }),
        !stopped && occupied >= low ==> r is Sleep,
{
    if stopped {
        WorkerAction::Stop
    } else if occupied < low {
        WorkerAction::Fill { target: if high <= capacity { high } else { capacity } }
    } else {
        WorkerAction::Sleep
    }
}

/// Samples of the next chunk while filling (zero ends the fill).
pub open spec fn next_chunk_spec(
    occupied: nat,
    vacant: nat,
    target: nat,
    block_len: nat,
    channels: nat,
) -> nat {
    if occupied >= target || vacant == 0 {
        0
    } else {
        let a = if vacant <= block_len { vacant } else { block_len };
        let want = (target - occupied) as nat;
        let b = if a <= want { a } else { want };
        (b / channels) * channels
    }
}

/// The size of the next chunk to synthesise and push: as much as fits in
/// the ring, in one block and under the target, in whole frames. Zero ends
/// the fill.
pub fn next_chunk(occupied: usize, vacant: usize, target: usize, block_len: usize, channels: usize) -> (r:
    usize)
    requires
        channels >= 1,
    ensures
        r == next_chunk_spec(
            occupied as nat,
            vacant as nat,
            target as nat,
            block_len as nat,
            channels as nat,
        ),
        r <= vacant,
        r <= block_len,
        occupied + r <= target || r == 0,
        r % channels == 0,
        occupied < target && vacant >= channels && block_len >= channels && target - occupied
            >= channels ==> r > 0,
{
    if occupied >= target || vacant == 0 {
        return 0;
    }
    let a = if vacant <= block_len { vacant } else { block_len };
    let want = target - occupied;
    let b = if a <= want { a } else { want };
    let q = b / channels;
    assert(q * channels <= b) by {
        vstd::arithmetic::div_mod::lemma_fundamental_div_mod(b as int, channels as int);
    }
    let r = q * channels;
    assert(r <= b && r % channels == 0 && (b >= channels ==> r > 0)) by (nonlinear_arith)
        requires
            r == q * channels,
            q == b / channels,
            channels >= 1,
    {
        vstd::arithmetic::div_mod::lemma_fundamental_div_mod(b as int, channels as int);
        vstd::arithmetic::div_mod::lemma_mod_multiples_basic((b / channels) as int, channels as int);
    }
    r
}

/// How the hardware callback fills its buffer from what the ring gave.
pub struct CallbackPlan {
    /// Blend the copied samples in from the last delivered sample: playback
    /// resumes after a shortfall.
    pub fade_in: bool,
    /// From this index on, repeat the last delivered sample.
    pub hold_from: usize,
    /// The last copied sample becomes the new last delivered sample.
    pub update_last: bool,
    /// This callback fell short: the next one that gets samples fades in.
    pub starved: bool,
}

/// The callback's plan after copying `copied` of `requested` samples, given
/// whether playback was starved so far: any shortfall repeats the last
/// delivered sample, and the first samples after a shortfall are faded in
/// from it.
pub fn callback_plan(was_starved: bool, copied: usize, requested: usize) -> (r: CallbackPlan)
    requires
        copied <= requested,
    ensures
        r.fade_in == (was_starved && copied > 0),
        r.hold_from == copied,
        r.update_last == (copied > 0),
        r.starved == (copied < requested || (was_starved && copied == 0)),
{
    CallbackPlan {
        fade_in: was_starved && copied > 0,
        hold_from: copied,
        update_last: copied > 0,
        starved: copied < requested || (was_starved && copied == 0),
    }
}

/// One operation on the delivery ring.
pub enum RingOp {
    Push(nat),
    Pop(nat),
}

/// Occupied and vacant counts of a ring of `capacity` slots after `ops`,
/// starting empty.
pub open spec fn levels_after(capacity: nat, ops: Seq<RingOp>) -> (int, int)
    decreases ops.len(),
{
    if ops.len() == 0 {
        (0, capacity as int)
    } else {
        let (occ, vac) = levels_after(capacity, ops.drop_last());
        match ops.last() {
            RingOp::Push(n) => (occ + n, vac - n),
            RingOp::Pop(n) => (occ - n, vac + n),
        }
    }
}

/// Every operation of `ops` fits: a push into the vacant slots, a pop from
/// the occupied ones.
pub open spec fn ops_bounded(capacity: nat, ops: Seq<RingOp>) -> bool {
    forall|k: int|
        #![trigger ops[k]]
        0 <= k < ops.len() ==> match ops[k] {
            RingOp::Push(n) => n <= levels_after(capacity, ops.take(k)).1,
            RingOp::Pop(n) => n <= levels_after(capacity, ops.take(k)).0,
        }
}

/// Ring accounting: after any sequence of pushes and pops bounded by what
/// the ring holds, occupied plus vacant is the capacity, and both stay in
/// `0..=capacity`.
pub proof fn lemma_levels_conserved(capacity: nat, ops: Seq<RingOp>)
    requires
        ops_bounded(capacity, ops),
    ensures
        levels_after(capacity, ops).0 + levels_after(capacity, ops).1 == capacity,
        0 <= levels_after(capacity, ops).0 <= capacity,
        0 <= levels_after(capacity, ops).1 <= capacity,
    decreases ops.len(),
{
    if ops.len() > 0 {
        let prefix = ops.drop_last();
        assert forall|k: int| 0 <= k < prefix.len() implies match #[trigger] prefix[k] {
            RingOp::Push(n) => n <= levels_after(capacity, prefix.take(k)).1,
            RingOp::Pop(n) => n <= levels_after(capacity, prefix.take(k)).0,
        } by {
            assert(prefix.take(k) == ops.take(k));
            assert(prefix[k] == ops[k]);
        }
        lemma_levels_conserved(capacity, prefix);
        let last = ops.len() - 1;
        assert(ops.take(last) == prefix);
        assert(ops[last] == ops.last());
    }
}

/// One step of a fill cycle, as the ring sees it.
pub enum FillEvent {
    /// The production thread pushes the chunk that [`next_chunk`] sizes
    /// from the current levels.
    Produce,
    /// The callback pops up to this many samples.
    Consume(nat),
}

/// The ring operations of a fill cycle toward `target` that starts with
/// `start` samples in the ring, under any interleaving of `events`.
pub open spec fn fill_ops(
    capacity: nat,
    target: nat,
    block_len: nat,
    channels: nat,
    start: nat,
    events: Seq<FillEvent>,
) -> Seq<RingOp>
    decreases events.len(),
{
    if events.len() == 0 {
        seq![RingOp::Push(start)]
    } else {
        let prev = fill_ops(capacity, target, block_len, channels, start, events.drop_last());
        let occ = levels_after(capacity, prev).0;
        let vac = levels_after(capacity, prev).1;
        match events.last() {
            FillEvent::Produce => prev.push(
                RingOp::Push(next_chunk_spec(occ as nat, vac as nat, target, block_len, channels)),
            ),
            FillEvent::Consume(n) => prev.push(RingOp::Pop(if n <= occ { n } else { occ as nat })),
        }
    }
}

proof fn lemma_next_chunk_bounds(occupied: nat, vacant: nat, target: nat, block_len: nat, channels: nat)
    requires
        channels >= 1,
    ensures
        next_chunk_spec(occupied, vacant, target, block_len, channels) <= vacant,
        next_chunk_spec(occupied, vacant, target, block_len, channels) == 0 || occupied
            + next_chunk_spec(occupied, vacant, target, block_len, channels) <= target,
{
    if !(occupied >= target || vacant == 0) {
        let a = if vacant <= block_len { vacant } else { block_len };
        let want = (target - occupied) as nat;
        let b = if a <= want { a } else { want };
        vstd::arithmetic::div_mod::lemma_fundamental_div_mod(b as int, channels as int);
        assert((b / channels) * channels <= b) by (nonlinear_arith)
            requires
                b == channels * (b / channels) + b % channels,
                b % channels >= 0,
        ;
    }
}

/// Fill cycle of the delivery ring: the production thread fills toward
/// `target = min(high watermark, capacity)` with chunks sized by
/// [`next_chunk`] while the callback pops at will, in any interleaving.
/// Every push fits the vacant slots and every pop the occupied ones,
/// occupied plus vacant is the capacity at every point, and the ring never
/// holds more than the larger of its starting level and the target. (The
/// cycle itself starts only below the low watermark: see [`worker_action`].)
pub proof fn lemma_fill_cycle(
    capacity: nat,
    sample_rate: nat,
    channels: nat,
    block_len: nat,
    start: nat,
    events: Seq<FillEvent>,
)
    requires
        channels >= 1,
        start <= capacity,
    ensures
        ({
            let high = watermarks_spec(sample_rate, channels).1;
            let target = if high <= capacity { high } else { capacity };
            let ops = fill_ops(capacity, target, block_len, channels, start, events);
            let occ = levels_after(capacity, ops).0;
            &&& ops_bounded(capacity, ops)
            &&& occ + levels_after(capacity, ops).1 == capacity
            &&& 0 <= occ <= capacity
            &&& occ <= start || occ <= target
        }),
    decreases events.len(),
{
    let high = watermarks_spec(sample_rate, channels).1;
    let target = if high <= capacity { high } else { capacity };
    let ops = fill_ops(capacity, target, block_len, channels, start, events);
    if events.len() == 0 {
        let first = RingOp::Push(start);
        assert(ops == seq![first]);
        assert(ops.drop_last() =~= Seq::<RingOp>::empty());
        assert(ops.take(0) =~= Seq::<RingOp>::empty());
        assert(levels_after(capacity, Seq::<RingOp>::empty()) == (0int, capacity as int));
        assert(levels_after(capacity, ops.drop_last()) == (0int, capacity as int));
        assert(ops.last() == first);
        assert(levels_after(capacity, ops) == (start as int, capacity - start));
        assert forall|k: int| 0 <= k < ops.len() implies match #[trigger] ops[k] {
            RingOp::Push(n) => n <= levels_after(capacity, ops.take(k)).1,
            RingOp::Pop(n) => n <= levels_after(capacity, ops.take(k)).0,
        } by {
            assert(k == 0);
        }
    } else {
        let prev_events = events.drop_last();
        lemma_fill_cycle(capacity, sample_rate, channels, block_len, start, prev_events);
        let prev = fill_ops(capacity, target, block_len, channels, start, prev_events);
        let occ = levels_after(capacity, prev).0;
        let vac = levels_after(capacity, prev).1;
        lemma_next_chunk_bounds(occ as nat, vac as nat, target, block_len, channels);
        let last_op = ops.last();
        assert(ops == prev.push(last_op));
        assert(ops.drop_last() =~= prev);
        assert forall|k: int| 0 <= k < ops.len() implies match #[trigger] ops[k] {
            RingOp::Push(n) => n <= levels_after(capacity, ops.take(k)).1,
            RingOp::Pop(n) => n <= levels_after(capacity, ops.take(k)).0,
        } by {
            if k < prev.len() {
                assert(ops.take(k) =~= prev.take(k));
                assert(ops[k] == prev[k]);
                assert(match prev[k] {
                    RingOp::Push(n) => n <= levels_after(capacity, prev.take(k)).1,
                    RingOp::Pop(n) => n <= levels_after(capacity, prev.take(k)).0,
                });
            } else {
                assert(ops.take(k) =~= prev);
            }
        }
    }
}

proof fn lemma_ceil_div_monotone(a: nat, b: nat, d: nat)
    requires
        a <= b,
        d > 0,
    ensures
        ceil_div(a, d) <= ceil_div(b, d),
{
    vstd::arithmetic::div_mod::lemma_fundamental_div_mod(a as int, d as int);
    vstd::arithmetic::div_mod::lemma_fundamental_div_mod(b as int, d as int);
    let qa = a / d;
    let qb = b / d;
    let ra = a % d;
    let rb = b % d;
    assert(qa <= qb) by (nonlinear_arith)
        requires
            a == d * qa + ra,
            b == d * qb + rb,
            ra < d,
            rb < d,
            a <= b,
            d > 0,
    ;
    if qa == qb {
        assert(ra <= rb);
    }
}

/// The low watermark never exceeds the high one.
pub proof fn lemma_low_below_high(sample_rate: nat, channels: nat)
    ensures
        watermarks_spec(sample_rate, channels).0 <= watermarks_spec(sample_rate, channels).1,
{
    let lo = sample_rate * (RING_LOW_MILLIS as nat);
    let hi = sample_rate * (RING_HIGH_MILLIS as nat);
    assert(lo <= hi) by (nonlinear_arith)
        requires
            lo == sample_rate * 500,
            hi == sample_rate * 2000,
    ;
    lemma_ceil_div_monotone(lo, hi, 1000);
    let cl = ceil_div(lo, 1000);
    let ch = ceil_div(hi, 1000);
    assert(cl * channels <= ch * channels) by (nonlinear_arith)
        requires
            cl <= ch,
    ;
}

/// Refill cycle of the delivery ring. The production thread starts a fill
/// only below the low watermark ([`worker_action`]); from there, under any
/// interleaving with the callback's pops, every push fits the vacant slots
/// and every pop the occupied ones, occupied plus vacant is the capacity at
/// every point, and the ring never holds more than
/// `min(max(high watermark, one chunk), capacity)`.
pub proof fn lemma_refill_cycle(
    capacity: nat,
    sample_rate: nat,
    channels: nat,
    block_len: nat,
    start: nat,
    events: Seq<FillEvent>,
)
    requires
        channels >= 1,
        start < watermarks_spec(sample_rate, channels).0,
        watermarks_spec(sample_rate, channels).0 <= capacity,
    ensures
        ({
            let high = watermarks_spec(sample_rate, channels).1;
            let target = if high <= capacity { high } else { capacity };
            let ops = fill_ops(capacity, target, block_len, channels, start, events);
            &&& ops_bounded(capacity, ops)
            &&& levels_after(capacity, ops).0 + levels_after(capacity, ops).1 == capacity
            &&& 0 <= levels_after(capacity, ops).0 <= target
        }),
{
    lemma_low_below_high(sample_rate, channels);
    lemma_fill_cycle(capacity, sample_rate, channels, block_len, start, events);
}

} // verus!
