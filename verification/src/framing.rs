use vstd::prelude::*;

verus! {

/// The number of samples in one frame of the spectral gate.
pub const SPECTRAL_FRAME_SIZE: usize = 2048;

/// The number of frames of `frame_size` samples that a buffer of `len`
/// samples is cut into: `len / frame_size`, rounded up.
pub open spec fn frame_count(len: int, frame_size: int) -> int {
    (len + frame_size - 1) / frame_size
}

/// The `k`-th frame, as the half-open range `[start, end)` of sample indices:
/// it starts at `k * frame_size` and holds `frame_size` samples, or fewer where
/// the buffer ends.
pub open spec fn frame_at(len: int, frame_size: int, k: int) -> (int, int) {
    let start = k * frame_size;
    let end = if (k + 1) * frame_size <= len { (k + 1) * frame_size } else { len };
    (start, end)
}

/// The frames of a buffer of `len` samples, in order.
pub open spec fn spec_frames(len: int, frame_size: int) -> Seq<(int, int)> {
    Seq::new(frame_count(len, frame_size) as nat, |k: int| frame_at(len, frame_size, k))
}

proof fn lemma_ceil_div(len: int, size: int, k: int)
    requires
        size > 0,
        len >= 0,
        k >= 0,
        k * size >= len,
        k == 0 || (k - 1) * size < len,
    ensures
        k == frame_count(len, size),
{
    if k == 0 {
        assert(len == 0);
        assert((size - 1) / size == 0) by (nonlinear_arith)
            requires size > 0;
    } else {
        assert(k * size <= len + size - 1 < (k + 1) * size) by (nonlinear_arith)
            requires (k - 1) * size < len, k * size >= len, size > 0;
        assert((len + size - 1) / size == k) by (nonlinear_arith)
            requires k * size <= len + size - 1 < (k + 1) * size, size > 0;
    }
}

/// The frames in which the spectral gate walks over a buffer of `len`
/// samples: consecutive pieces of `frame_size` samples, the last one shorter
/// where `len` is not a multiple of `frame_size`. Each frame is the pair of
/// its first index and the index just past its end.
pub fn frame_bounds(len: usize, frame_size: usize) -> (frames: Vec<(usize, usize)>)
    requires
        frame_size > 0,
    ensures
        frames@.len() == frame_count(len as int, frame_size as int),
        forall|k: int| 0 <= k < frames@.len() ==>
            (#[trigger] frames@[k]).0 as int == frame_at(len as int, frame_size as int, k).0
            && frames@[k].1 as int == frame_at(len as int, frame_size as int, k).1,
{
    let mut frames: Vec<(usize, usize)> = Vec::new();
    let mut start: usize = 0;
    assert(frames@.len() * frame_size == 0) by (nonlinear_arith)
        requires frames@.len() == 0;
    while start < len
        invariant
            frame_size > 0,
            start <= len,
            start as int == (if frames@.len() * frame_size <= len { frames@.len() * frame_size } else { len as int }),
            frames@.len() == 0 || (frames@.len() - 1) * frame_size < len,
            forall|k: int| 0 <= k < frames@.len() ==>
                (#[trigger] frames@[k]).0 as int == frame_at(len as int, frame_size as int, k).0
                && frames@[k].1 as int == frame_at(len as int, frame_size as int, k).1,
        decreases len - start,
    {
        let ghost k = frames@.len() as int;
        assert(k * frame_size <= len);
        let end: usize = if len - start > frame_size { start + frame_size } else { len };
        assert((k + 1) * frame_size == k * frame_size + frame_size) by (nonlinear_arith);
        frames.push((start, end));
        start = end;
        assert(frames@.len() == k + 1);
        assert((k + 1) * frame_size > len ==> start == len);
    }
    proof {
        let n = frames@.len() as int;
        assert(n * frame_size >= len);
        lemma_ceil_div(len as int, frame_size as int, n);
    }
    frames
}

/// The frames partition the buffer: the first starts at index 0, the last ends
/// at `len`, each starts where the one before it ends, no frame is empty or
/// longer than `frame_size`, every frame but the last holds exactly
/// `frame_size` samples, and sample `i` lies in frame `i / frame_size`.
pub proof fn lemma_frames_partition(len: int, frame_size: int)
    requires
        len >= 0,
        frame_size > 0,
    ensures
        ({
            let f = spec_frames(len, frame_size);
            &&& (f.len() == 0 <==> len == 0)
            &&& f.len() > 0 ==> f[0].0 == 0 && f.last().1 == len
            &&& forall|k: int| 0 <= k < f.len() - 1 ==> (#[trigger] f[k]).1 == f[k + 1].0
            &&& forall|k: int| 0 <= k < f.len() ==> (#[trigger] f[k]).0 < f[k].1 <= f[k].0 + frame_size
            &&& forall|k: int| 0 <= k < f.len() - 1 ==> (#[trigger] f[k]).1 - f[k].0 == frame_size
            &&& forall|i: int| 0 <= i < len ==>
                0 <= #[trigger] (i / frame_size) < f.len() && f[i / frame_size].0 <= i < f[i / frame_size].1
        }),
{
    let f = spec_frames(len, frame_size);
    let n = frame_count(len, frame_size);
    assert(n >= 0) by (nonlinear_arith)
        requires n == (len + frame_size - 1) / frame_size, len >= 0, frame_size > 0;
    assert(n * frame_size >= len && (n == 0 || (n - 1) * frame_size < len)) by (nonlinear_arith)
        requires n == (len + frame_size - 1) / frame_size, len >= 0, frame_size > 0;
    if len == 0 {
        assert(n == 0) by (nonlinear_arith)
            requires n == (len + frame_size - 1) / frame_size, len == 0, frame_size > 0;
    } else {
        assert(n > 0) by (nonlinear_arith)
            requires n * frame_size >= len, len > 0, n >= 0;
        assert(f[0].0 == 0);
        assert(f.last().1 == len) by {
            assert((n - 1 + 1) * frame_size == n * frame_size);
        }
    }
    assert forall|k: int| 0 <= k < f.len() - 1 implies (#[trigger] f[k]).1 == f[k + 1].0
        && f[k].1 - f[k].0 == frame_size by {
        assert((k + 1) * frame_size <= (n - 1) * frame_size) by (nonlinear_arith)
            requires k + 1 <= n - 1, frame_size > 0;
        assert((k + 1) * frame_size == k * frame_size + frame_size) by (nonlinear_arith);
    }
    assert forall|k: int| 0 <= k < f.len() implies (#[trigger] f[k]).0 < f[k].1 <= f[k].0 + frame_size by {
        assert((k + 1) * frame_size == k * frame_size + frame_size) by (nonlinear_arith);
        assert(k * frame_size <= (n - 1) * frame_size) by (nonlinear_arith)
            requires k <= n - 1, frame_size > 0;
    }
    assert forall|i: int| 0 <= i < len implies
        0 <= #[trigger] (i / frame_size) < f.len() && f[i / frame_size].0 <= i < f[i / frame_size].1 by {
        let q = i / frame_size;
        assert(q * frame_size <= i < (q + 1) * frame_size && q >= 0) by (nonlinear_arith)
            requires q == i / frame_size, i >= 0, frame_size > 0;
        assert(q < n) by (nonlinear_arith)
            requires q * frame_size <= i, i < len, len <= n * frame_size, frame_size > 0;
    }
}

} // verus!
