//! Cascade-stage rules of the notch sweeps: default cascade counts, the
//! stage capacity a sweep is provisioned with, the per-sample clamp of a
//! requested count, and which parameter updates the provisioned filter
//! state can take.
use vstd::prelude::*;

verus! {

/// Cascade count of a sweep whose configuration leaves it unset.
pub const DEFAULT_CASCADE: usize = 10;

/// A sweep's start and end cascade counts, with unset (zero) values
/// defaulted: the start to `DEFAULT_CASCADE`, the end to the start.
pub open spec fn cascade_pair_spec(start: usize, end: usize) -> (usize, usize) {
    let s = if start > 0 { start } else { DEFAULT_CASCADE };
    (s, if end > 0 { end } else { s })
}

/// Start and end cascade counts of a sweep, defaults applied.
pub fn cascade_pair(start: usize, end: usize) -> (r: (usize, usize))
    ensures
        r == cascade_pair_spec(start, end),
        r.0 >= 1 && r.1 >= 1,
{
    let s = if start > 0 { start } else { DEFAULT_CASCADE };
    (s, if end > 0 { end } else { s })
}

/// Stages of filter state a sweep needs: the larger of its two cascade
/// counts, and at least one.
pub open spec fn stage_capacity_spec(start: usize, end: usize) -> usize {
    let m = if start >= end { start } else { end };
    if m >= 1 { m } else { 1 }
}

/// Stages of filter state to provision for a sweep.
pub fn stage_capacity(start: usize, end: usize) -> (r: usize)
    ensures
        r == stage_capacity_spec(start, end),
        r >= 1,
        r >= start && r >= end,
{
    let m = if start >= end { start } else { end };
    if m >= 1 { m } else { 1 }
}

/// The cascade count applied to one sample: the requested count clamped to
/// `1..=max_stages`.
pub fn clamp_cascade(requested: usize, max_stages: usize) -> (r: usize)
    requires
        max_stages >= 1,
    ensures
        1 <= r <= max_stages,
        1 <= requested <= max_stages ==> r == requested,
        requested < 1 ==> r == 1,
        requested > max_stages ==> r == max_stages,
{
    if requested < 1 {
        1
    } else if requested > max_stages {
        max_stages
    } else {
        requested
    }
}

/// Filter-state provisioning of a set of sweeps: for each sweep, the stages
/// allocated when the engine was built and the cascade bound now in force.
pub struct SweepStages {
    allocated: Vec<usize>,
    active: Vec<usize>,
}

impl SweepStages {
    pub closed spec fn allocated_spec(&self) -> Seq<usize> {
        self.allocated@
    }

    pub closed spec fn active_spec(&self) -> Seq<usize> {
        self.active@
    }

    pub open spec fn wf(&self) -> bool {
        &&& self.allocated_spec().len() == self.active_spec().len()
        &&& forall|i: int|
            0 <= i < self.active_spec().len() ==> 1 <= #[trigger] self.active_spec()[i]
                <= self.allocated_spec()[i]
    }

    /// Whether an update to sweeps of these (start, end) cascade counts,
    /// defaults applied, fits the provisioned state.
    pub open spec fn admits(&self, counts: Seq<(usize, usize)>) -> bool {
        &&& counts.len() == self.allocated_spec().len()
        &&& forall|i: int|
            0 <= i < counts.len() ==> {
                let p = cascade_pair_spec(#[trigger] counts[i].0, counts[i].1);
                stage_capacity_spec(p.0, p.1) <= self.allocated_spec()[i]
            }
    }

    /// Provisions one sweep per (start, end) cascade pair, defaults applied.
    pub fn provision(counts: &Vec<(usize, usize)>) -> (r: SweepStages)
        ensures
            r.wf(),
            r.allocated_spec().len() == counts@.len(),
            forall|i: int|
                0 <= i < counts@.len() ==> {
                    let p = cascade_pair_spec(#[trigger] counts@[i].0, counts@[i].1);
                    r.allocated_spec()[i] == stage_capacity_spec(p.0, p.1)
                },
            r.active_spec() == r.allocated_spec(),
    {
        let mut allocated: Vec<usize> = Vec::new();
        let mut i: usize = 0;
        while i < counts.len()
            invariant
                i <= counts@.len(),
                allocated@.len() == i,
                forall|j: int|
                    0 <= j < i ==> {
                        let p = cascade_pair_spec(#[trigger] counts@[j].0, counts@[j].1);
                        allocated@[j] == stage_capacity_spec(p.0, p.1)
                    },
            decreases counts@.len() - i,
        {
            let (s, e) = cascade_pair(counts[i].0, counts[i].1);
            let need = stage_capacity(s, e);
            allocated.push(need);
            assert(allocated@[i as int] == need);
            i = i + 1;
        }
        let active = allocated.clone();
        let r = SweepStages { allocated, active };
        assert forall|j: int| 0 <= j < r.active_spec().len() implies 1 <= #[trigger] r.active_spec()[j]
            <= r.allocated_spec()[j] by {
            let p = cascade_pair_spec(counts@[j].0, counts@[j].1);
            assert(r.allocated_spec()[j] == stage_capacity_spec(p.0, p.1));
        }
        r
    }

    /// Stages allocated for sweep `i`.
    pub fn allocated(&self, i: usize) -> (r: usize)
        requires
            self.wf(),
            i < self.allocated_spec().len(),
        ensures
            r == self.allocated_spec()[i as int],
    {
        self.allocated[i]
    }

    /// Cascade bound in force for sweep `i`.
    pub fn active(&self, i: usize) -> (r: usize)
        requires
            self.wf(),
            i < self.active_spec().len(),
        ensures
            r == self.active_spec()[i as int],
            r >= 1,
    {
        self.active[i]
    }

    /// Applies a parameter update: accepted only when it has as many sweeps
    /// and no sweep needs more stages than were allocated; then each sweep's
    /// bound becomes its new stage need. A refused update changes nothing.
    pub fn update(&mut self, counts: &Vec<(usize, usize)>) -> (accepted: bool)
        requires
            old(self).wf(),
        ensures
            final(self).wf(),
            accepted == old(self).admits(counts@),
            final(self).allocated_spec() == old(self).allocated_spec(),
            accepted ==> forall|i: int|
                0 <= i < counts@.len() ==> {
                    let p = cascade_pair_spec(#[trigger] counts@[i].0, counts@[i].1);
                    final(self).active_spec()[i] == stage_capacity_spec(p.0, p.1)
                },
            accepted ==> final(self).active_spec().len() == counts@.len(),
            !accepted ==> final(self).active_spec() == old(self).active_spec(),
    {
        if counts.len() != self.allocated.len() {
            return false;
        }
        let mut needs: Vec<usize> = Vec::new();
        let mut i: usize = 0;
        while i < counts.len()
            invariant
                i <= counts@.len(),
                *self == *old(self),
                old(self).wf(),
                counts@.len() == self.allocated@.len(),
                needs@.len() == i,
                forall|j: int|
                    0 <= j < i ==> {
                        let p = cascade_pair_spec(#[trigger] counts@[j].0, counts@[j].1);
                        &&& needs@[j] == stage_capacity_spec(p.0, p.1)
                        &&& needs@[j] <= self.allocated@[j]
                    },
            decreases counts@.len() - i,
        {
            let (s, e) = cascade_pair(counts[i].0, counts[i].1);
            let need = stage_capacity(s, e);
            if need > self.allocated[i] {
                assert(!old(self).admits(counts@)) by {
                    assert(counts@[i as int] == counts@[i as int]);
                }
                return false;
            }
            needs.push(need);
            assert(needs@[i as int] == need);
            i = i + 1;
        }
        let ghost nd = needs@;
        assert forall|j: int| 0 <= j < counts@.len() implies 1 <= #[trigger] nd[j] <= old(
            self,
        ).allocated_spec()[j] && nd[j] == stage_capacity_spec(
            cascade_pair_spec(counts@[j].0, counts@[j].1).0,
            cascade_pair_spec(counts@[j].0, counts@[j].1).1,
        ) by {
            let p = cascade_pair_spec(counts@[j].0, counts@[j].1);
            assert(nd[j] == stage_capacity_spec(p.0, p.1));
            assert(nd[j] <= self.allocated@[j]);
            assert(self.allocated@ == old(self).allocated_spec());
        }
        self.active = needs;
        assert(old(self).admits(counts@)) by {
            assert forall|j: int| 0 <= j < counts@.len() implies {
                let p = cascade_pair_spec(#[trigger] counts@[j].0, counts@[j].1);
                stage_capacity_spec(p.0, p.1) <= old(self).allocated_spec()[j]
            } by {
                assert(nd[j] <= old(self).allocated_spec()[j]);
            }
        }
        assert forall|j: int| 0 <= j < self.active_spec().len() implies 1 <= #[trigger] self.active_spec()[j]
            <= self.allocated_spec()[j] by {
            assert(nd[j] <= old(self).allocated_spec()[j]);
        }
        true
    }
}

} // verus!
