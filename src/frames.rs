//! Conversion between stereo frames and the flat interleaved sample layout
//! used by the synthesis chain.
use vstd::prelude::*;

verus! {

/// The interleaved layout of `frames`: left, right, left, right, ...
pub open spec fn interleaved<T>(frames: Seq<(T, T)>) -> Seq<T> {
    Seq::new(2 * frames.len(), |k: int| if k % 2 == 0 { frames[k / 2].0 } else { frames[k / 2].1 })
}

/// Flattens stereo frames into interleaved samples.
pub fn interleave<T: Copy>(frames: &[(T, T)]) -> (r: Vec<T>)
    requires
        2 * frames@.len() <= usize::MAX,
    ensures
        r@ == interleaved(frames@),
{
    let mut out: Vec<T> = Vec::new();
    let mut i: usize = 0;
    while i < frames.len()
        invariant
            i <= frames@.len(),
            2 * frames@.len() <= usize::MAX,
            out@ == interleaved(frames@.take(i as int)),
        decreases frames@.len() - i,
    {
        let (l, r) = frames[i];
        out.push(l);
        out.push(r);
        assert(out@ =~= interleaved(frames@.take(i + 1)));
        i = i + 1;
    }
    assert(frames@.take(frames@.len() as int) =~= frames@);
    out
}

/// Writes interleaved samples back into stereo frames: frame `i` takes
/// samples `2i` and `2i + 1`.
pub fn deinterleave_into<T: Copy>(frames: &mut [(T, T)], flat: &[T])
    requires
        flat@.len() == 2 * old(frames)@.len(),
    ensures
        final(frames)@.len() == old(frames)@.len(),
        interleaved(final(frames)@) == flat@,
{
    let n = frames.len();
    let m = flat.len();
    let mut i: usize = 0;
    while i < n
        invariant
            i <= n,
            m == 2 * n,
            n == frames@.len(),
            flat@.len() == 2 * n,
            forall|j: int|
                0 <= j < i ==> #[trigger] frames@[j] == (flat@[2 * j], flat@[2 * j + 1]),
        decreases n - i,
    {
        frames[i] = (flat[2 * i], flat[2 * i + 1]);
        i = i + 1;
    }
    assert(interleaved(frames@) =~= flat@) by {
        assert forall|k: int| 0 <= k < flat@.len() implies #[trigger] interleaved(frames@)[k] == flat@[k] by {
            let j = k / 2;
            assert(frames@[j] == (flat@[2 * j], flat@[2 * j + 1]));
            assert(k == 2 * j || k == 2 * j + 1);
        }
    }
}

} // verus!
