//! Interleaved frames of several channels, reduced to one channel.

use vstd::prelude::*;
use vstd::slice::slice_subrange;

verus! {

/// Number of frames in `len` interleaved samples of `channels` channels; a
/// last frame that is cut short counts.
pub open spec fn frame_count(len: nat, channels: u16) -> nat {
    ((len + channels - 1) / channels as int) as nat
}

/// The samples of frame `k`.
pub open spec fn frame_of<T>(data: Seq<T>, channels: u16, k: int) -> Seq<T> {
    data.subrange(
        k * channels,
        if (k + 1) * channels <= data.len() {
            (k + 1) * channels
        } else {
            data.len() as int
        },
    )
}

/// `out` is what `average` gave for the samples `frame`.
pub open spec fn averaged<T, F: Fn(&[T]) -> T>(average: &F, frame: Seq<T>, out: T) -> bool {
    exists|samples: &[T]| samples@ == frame && #[trigger] average.ensures((samples,), out)
}

/// Reduces interleaved samples to one channel. A single channel is passed
/// through unchanged; otherwise each frame of `channels` samples gives one
/// sample, which `average` makes of it.
pub fn downmix<T: Copy, F: Fn(&[T]) -> T>(data: &[T], channels: u16, average: &F) -> (mono: Vec<T>)
    requires
        channels >= 1,
        forall|frame: &[T]| average.requires((frame,)),
    ensures
        channels == 1 ==> mono@ == data@,
        channels > 1 ==> {
            &&& mono@.len() == frame_count(data@.len(), channels)
            &&& forall|k: int|
                #![trigger mono@[k]]
                0 <= k < mono@.len() ==> averaged(average, frame_of(data@, channels, k), mono@[k])
        },
{
    let len: usize = data.len();
    let mut mono: Vec<T> = Vec::new();
    if channels == 1 {
        let mut i: usize = 0;
        while i < len
            invariant
                i <= len,
                len == data@.len(),
                mono@ == data@.take(i as int),
            decreases len - i,
        {
            mono.push(data[i]);
            assert(mono@ =~= data@.take(i + 1));
            i = i + 1;
        }
        assert(data@.take(len as int) =~= data@);
        return mono;
    }
    let width: usize = channels as usize;
    let mut start: usize = 0;
    proof {
        if len == 0 {
            assert(frame_count(0, channels) == 0) by (nonlinear_arith)
                requires
                    channels > 1,
            ;
        }
    }
    while start < len
        invariant
            width == channels,
            channels > 1,
            len == data@.len(),
            start <= len,
            start < len ==> start == mono@.len() * width,
            start == len ==> mono@.len() == frame_count(len as nat, channels),
            forall|frame: &[T]| average.requires((frame,)),
            forall|k: int|
                #![trigger mono@[k]]
                0 <= k < mono@.len() ==> averaged(average, frame_of(data@, channels, k), mono@[k]),
        decreases len - start,
    {
        let end: usize = if len - start >= width {
            start + width
        } else {
            len
        };
        let frame = slice_subrange(data, start, end);
        let ghost k = mono@.len() as int;
        proof {
            assert(k * channels == start);
            assert((k + 1) * channels == start + width) by (nonlinear_arith)
                requires
                    k * channels == start,
                    width == channels,
            ;
            assert(frame@ == frame_of(data@, channels, k));
            if end == len {
                lemma_last_frame(len as nat, channels, k);
            }
        }
        let sample = average(frame);
        mono.push(sample);
        start = end;
    }
    mono
}

/// The frame that reaches the end of the data is the last one.
proof fn lemma_last_frame(len: nat, channels: u16, k: int)
    requires
        channels >= 1,
        0 <= k,
        k * channels < len <= (k + 1) * channels,
    ensures
        frame_count(len, channels) == k + 1,
{
    let c = channels as int;
    let q = (len + c - 1) / c;
    assert(q == k + 1) by (nonlinear_arith)
        requires
            c >= 1,
            0 <= k,
            k * c < len <= (k + 1) * c,
            q == (len + c - 1) / c,
    ;
}

} // verus!
