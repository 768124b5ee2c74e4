//! Position bookkeeping of the overlap-add (OLA) sweep engine: where each
//! base-noise sample goes in the input ring, which ring slots make up the
//! next block, where a processed block is accumulated, and which
//! accumulator slot the next output sample is read from.
//!
//! Blocks of `BLOCK_SIZE` samples start every `HOP_SIZE` samples; the sample
//! and window-weight sums live in two-block accumulator rings held by the
//! caller, indexed by the slots computed here.
use vstd::prelude::*;

verus! {

/// Samples per synthesis block.
pub const BLOCK_SIZE: usize = 2048;

/// Distance between consecutive block starts (50% overlap).
pub const HOP_SIZE: usize = 1024;

/// Slots of each accumulator ring.
pub const ACC_SIZE: usize = 4096;

/// Input-ring slot of base sample `n`.
pub open spec fn input_slot(n: int) -> int {
    n % (BLOCK_SIZE as int)
}

/// Accumulator slot of output sample `n`.
pub open spec fn acc_slot(n: int) -> int {
    n % (ACC_SIZE as int)
}

/// Cursor state of the overlap-add engine.
pub struct OlaCursor {
    /// Next input-ring slot to fill.
    pub input_write_pos: usize,
    /// Input samples held for the next block.
    pub input_buffered: usize,
    /// Next accumulator slot to read.
    pub acc_read_pos: usize,
    /// Accumulator slot where the next block starts.
    pub acc_write_pos: usize,
    /// Output samples complete and not yet read.
    pub samples_ready: usize,
    /// Base-sample index at which the next block starts.
    pub absolute_block_start: usize,
    /// Output samples read so far.
    pub total_output: usize,
    /// Base samples taken so far.
    pub total_input: Ghost<nat>,
    /// The base-sample index last written to each input-ring slot.
    pub input_src: Ghost<Seq<nat>>,
}

impl OlaCursor {
    pub open spec fn wf(&self) -> bool {
        &&& self.input_src@.len() == BLOCK_SIZE
        &&& self.input_buffered <= BLOCK_SIZE
        &&& self.input_write_pos == input_slot(self.total_input@ as int)
        &&& self.absolute_block_start + self.input_buffered == self.total_input@
        &&& self.acc_write_pos == acc_slot(self.absolute_block_start as int)
        &&& self.acc_read_pos == acc_slot(self.total_output as int)
        &&& self.total_output + self.samples_ready == self.absolute_block_start
        &&& self.samples_ready <= HOP_SIZE
        &&& forall|n: nat|
            #![trigger self.input_src@[input_slot(n as int)]]
            self.total_input@ - self.input_buffered <= n < self.total_input@
                ==> self.input_src@[input_slot(n as int)] == n
    }

    /// One past the last output index that some processed block has
    /// contributed to.
    pub open spec fn written_end(&self) -> int {
        if self.absolute_block_start == 0 { 0 } else { self.absolute_block_start + HOP_SIZE }
    }

    /// Output index `k` has contributions in the accumulators and has not
    /// been read yet.
    pub open spec fn pending(&self, k: int) -> bool {
        self.total_output <= k < self.written_end()
    }

    /// Input-ring slot of sample `i` of the next block.
    pub open spec fn block_slot_spec(&self, i: int) -> int {
        input_slot(self.absolute_block_start + i)
    }

    /// Accumulator slot of sample `i` of the next block.
    pub open spec fn accumulate_slot_spec(&self, i: int) -> int {
        acc_slot(self.absolute_block_start + i)
    }

    /// An engine that has taken no input and produced no output.
    pub fn new() -> (r: OlaCursor)
        ensures
            r.wf(),
            r.total_output == 0,
            r.absolute_block_start == 0,
            r.input_buffered == 0,
            r.samples_ready == 0,
    {
        OlaCursor {
            input_write_pos: 0,
            input_buffered: 0,
            acc_read_pos: 0,
            acc_write_pos: 0,
            samples_ready: 0,
            absolute_block_start: 0,
            total_output: 0,
            total_input: Ghost(0),
            input_src: Ghost(Seq::new(BLOCK_SIZE as nat, |i: int| 0nat)),
        }
    }

    /// Whether the input ring still lacks samples for the next block.
    pub fn needs_input(&self) -> (r: bool)
        ensures
            r == (self.input_buffered < BLOCK_SIZE),
    {
        self.input_buffered < BLOCK_SIZE
    }

    /// Takes the next base sample: returns the input-ring slot to store it in.
    pub fn push_input(&mut self) -> (slot: usize)
        requires
            old(self).wf(),
            old(self).input_buffered < BLOCK_SIZE,
        ensures
            final(self).wf(),
            slot < BLOCK_SIZE,
            slot == input_slot(old(self).total_input@ as int),
            final(self).input_src@[slot as int] == old(self).total_input@,
            final(self).total_input@ == old(self).total_input@ + 1,
            final(self).input_buffered == old(self).input_buffered + 1,
            final(self).samples_ready == old(self).samples_ready,
            final(self).total_output == old(self).total_output,
            final(self).absolute_block_start == old(self).absolute_block_start,
    {
        let slot = self.input_write_pos;
        let ghost before = self.total_input@;
        self.input_src = Ghost(self.input_src@.update(slot as int, before));
        self.total_input = Ghost(before + 1);
        self.input_write_pos = (self.input_write_pos + 1) % BLOCK_SIZE;
        self.input_buffered = self.input_buffered + 1;
        assert forall|n: nat|
            #![trigger self.input_src@[input_slot(n as int)]]
            self.total_input@ - self.input_buffered <= n < self.total_input@ implies
                self.input_src@[input_slot(n as int)] == n by {
            if n != before {
                assert(input_slot(n as int) != input_slot(before as int)) by {
                    lemma_distinct_mod(n as int, before as int, BLOCK_SIZE as int);
                }
            }
        }
        slot
    }

    /// Input-ring slot holding sample `i` of the next block: base sample
    /// `absolute_block_start + i`.
    pub fn block_slot(&self, i: usize) -> (slot: usize)
        requires
            self.wf(),
            self.input_buffered == BLOCK_SIZE,
            i < BLOCK_SIZE,
        ensures
            slot < BLOCK_SIZE,
            slot == self.block_slot_spec(i as int),
            self.input_src@[slot as int] == self.absolute_block_start + i,
    {
        let ghost n = (self.absolute_block_start + i) as nat;
        assert(self.input_src@[input_slot(n as int)] == n);
        assert((self.input_write_pos + BLOCK_SIZE - self.input_buffered + i) as int % (
        BLOCK_SIZE as int) == input_slot(n as int)) by {
            lemma_shift_mod(self.total_input@ as int, self.absolute_block_start as int, i as int);
        }
        (self.input_write_pos + BLOCK_SIZE - self.input_buffered + i) % BLOCK_SIZE
    }

    /// Accumulator slot of sample `i` of the next block.
    pub fn accumulate_slot(&self, i: usize) -> (slot: usize)
        requires
            self.wf(),
            i < BLOCK_SIZE,
        ensures
            slot < ACC_SIZE,
            slot == self.accumulate_slot_spec(i as int),
    {
        assert((self.acc_write_pos + i) as int % (ACC_SIZE as int) == acc_slot(
            self.absolute_block_start + i,
        )) by {
            lemma_add_mod(self.absolute_block_start as int, i as int, ACC_SIZE as int);
        }
        (self.acc_write_pos + i) % ACC_SIZE
    }

    /// Records that the next block was processed and accumulated: the next
    /// block starts one hop later, and one hop of output is complete.
    pub fn finish_block(&mut self)
        requires
            old(self).wf(),
            old(self).input_buffered == BLOCK_SIZE,
            old(self).samples_ready == 0,
            old(self).absolute_block_start + HOP_SIZE <= usize::MAX,
        ensures
            final(self).wf(),
            final(self).absolute_block_start == old(self).absolute_block_start + HOP_SIZE,
            final(self).samples_ready == HOP_SIZE,
            final(self).input_buffered == BLOCK_SIZE - HOP_SIZE,
            final(self).total_output == old(self).total_output,
            final(self).total_input@ == old(self).total_input@,
    {
        assert((self.acc_write_pos + HOP_SIZE) as int % (ACC_SIZE as int) == acc_slot(
            self.absolute_block_start + HOP_SIZE,
        )) by {
            lemma_add_mod(self.absolute_block_start as int, HOP_SIZE as int, ACC_SIZE as int);
        }
        self.acc_write_pos = (self.acc_write_pos + HOP_SIZE) % ACC_SIZE;
        self.samples_ready = self.samples_ready + HOP_SIZE;
        self.absolute_block_start = self.absolute_block_start + HOP_SIZE;
        self.input_buffered = BLOCK_SIZE - HOP_SIZE;
    }

    /// Reads the next output sample: returns the accumulator slot to
    /// normalise and clear.
    pub fn emit(&mut self) -> (slot: usize)
        requires
            old(self).wf(),
            old(self).samples_ready > 0,
        ensures
            final(self).wf(),
            slot < ACC_SIZE,
            slot == acc_slot(old(self).total_output as int),
            final(self).total_output == old(self).total_output + 1,
            final(self).samples_ready == old(self).samples_ready - 1,
            final(self).absolute_block_start == old(self).absolute_block_start,
            final(self).input_buffered == old(self).input_buffered,
            final(self).total_input@ == old(self).total_input@,
    {
        let slot = self.acc_read_pos;
        assert((slot + 1) as int % (ACC_SIZE as int) == acc_slot(self.total_output + 1)) by {
            lemma_add_mod(self.total_output as int, 1, ACC_SIZE as int);
        }
        self.acc_read_pos = (self.acc_read_pos + 1) % ACC_SIZE;
        self.samples_ready = self.samples_ready - 1;
        self.total_output = self.total_output + 1;
        slot
    }
}

/// Overlap-add alignment: when a block is processed, its sample `i` is base
/// sample `absolute_block_start + i`; it is summed into the accumulator slot
/// that is read when output sample `absolute_block_start + i` is emitted,
/// which is not yet emitted and lies within one turn of the ring; two
/// samples of one block never share a slot; and the slot holds no pending
/// contribution of any other output index: the first half of the block adds
/// to what the previous block left for the same index, the second half
/// writes slots that were drained when last read. Divided by the summed
/// window weight, output sample `k` is thus built from input sample `k`
/// alone.
pub proof fn lemma_block_alignment(c: OlaCursor, i: int, j: int)
    requires
        c.wf(),
        c.input_buffered == BLOCK_SIZE,
        c.samples_ready == 0,
        0 <= i < BLOCK_SIZE,
        0 <= j < BLOCK_SIZE,
        i != j,
    ensures
        c.input_src@[c.block_slot_spec(i)] == c.absolute_block_start + i,
        c.accumulate_slot_spec(i) == acc_slot(c.absolute_block_start + i),
        c.total_output <= c.absolute_block_start + i < c.total_output + ACC_SIZE,
        c.accumulate_slot_spec(i) != c.accumulate_slot_spec(j),
        forall|k: int|
            c.pending(k) && acc_slot(k) == c.accumulate_slot_spec(i) ==> k == c.absolute_block_start
                + i,
        c.pending(c.absolute_block_start + i) <==> (i < HOP_SIZE && c.absolute_block_start > 0),
{
    let n = c.absolute_block_start + i;
    assert(c.total_input@ - c.input_buffered <= n < c.total_input@);
    assert(c.input_src@[input_slot(n as int)] == n);
    lemma_distinct_mod(
        c.absolute_block_start + i,
        c.absolute_block_start + j,
        ACC_SIZE as int,
    );
    assert forall|k: int|
        c.pending(k) && acc_slot(k) == c.accumulate_slot_spec(i) implies k == c.absolute_block_start
            + i by {
        if k != c.absolute_block_start + i {
            lemma_distinct_mod(k, c.absolute_block_start + i, ACC_SIZE as int);
        }
    }
}

proof fn lemma_distinct_mod(a: int, b: int, m: int)
    requires
        m > 0,
        a >= 0,
        b >= 0,
        a != b,
        b < a + m,
        a < b + m,
    ensures
        a % m != b % m,
{
    assert(a % m != b % m) by (nonlinear_arith)
        requires
            m > 0,
            a != b,
            b < a + m,
            a < b + m,
    {
        vstd::arithmetic::div_mod::lemma_fundamental_div_mod(a, m);
        vstd::arithmetic::div_mod::lemma_fundamental_div_mod(b, m);
    }
}

proof fn lemma_add_mod(a: int, b: int, m: int)
    requires
        m > 0,
        a >= 0,
        b >= 0,
    ensures
        (a % m + b) % m == (a + b) % m,
{
    vstd::arithmetic::div_mod::lemma_add_mod_noop(a, b, m);
    vstd::arithmetic::div_mod::lemma_mod_twice(b, m);
    vstd::arithmetic::div_mod::lemma_add_mod_noop(a % m, b, m);
    vstd::arithmetic::div_mod::lemma_mod_twice(a, m);
}

proof fn lemma_shift_mod(total: int, start: int, i: int)
    requires
        start >= 0,
        i >= 0,
        start + BLOCK_SIZE == total,
    ensures
        (total % (BLOCK_SIZE as int) + BLOCK_SIZE - BLOCK_SIZE + i) % (BLOCK_SIZE as int) == (start
            + i) % (BLOCK_SIZE as int),
{
    lemma_add_mod(total, i, BLOCK_SIZE as int);
    vstd::arithmetic::div_mod::lemma_mod_add_multiples_vanish(start + i, BLOCK_SIZE as int);
}

} // verus!
