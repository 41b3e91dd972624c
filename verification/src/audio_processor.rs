//! The two ends of the sample transport, and the steps of the analysis
//! around the transform: the capture callback queues what the audio backend
//! delivers; the analysis takes one transform's worth of samples out per
//! cycle, windows it, and folds the transform's magnitudes into the amplitude
//! history from which the next row of the spectrogram is made.
//!
//! The arithmetic on the samples themselves (the window, the transform, the
//! smoothing and the decibel scale) is the caller's. It is plugged in as
//! functions on bit patterns; what is decided here is which value goes where.

use crate::fft_buffer::FFTDimensions;
use crate::ring::{SampleConsumer, SampleProducer, SampleRing};
use vstd::prelude::*;

verus! {

/// The sample that stands in for one the queue could not deliver.
pub const SILENCE: u32 = 0;

/// `sub` is `full` with some of its elements left out, the others in order.
pub open spec fn is_subsequence(sub: Seq<u32>, full: Seq<u32>) -> bool
    decreases full.len(),
{
    if sub.len() == 0 {
        true
    } else if full.len() == 0 {
        false
    } else if sub.last() == full.last() && is_subsequence(sub.drop_last(), full.drop_last()) {
        true
    } else {
        is_subsequence(sub, full.drop_last())
    }
}

/// A subsequence is no longer than the whole, and one as long as the whole is
/// the whole.
pub proof fn lemma_subsequence_len(sub: Seq<u32>, full: Seq<u32>)
    requires
        is_subsequence(sub, full),
    ensures
        sub.len() <= full.len(),
        sub.len() == full.len() ==> sub == full,
    decreases full.len(),
{
    if sub.len() == 0 {
        assert(full.len() == 0 ==> sub =~= full);
    } else {
        if sub.last() == full.last() && is_subsequence(sub.drop_last(), full.drop_last()) {
            lemma_subsequence_len(sub.drop_last(), full.drop_last());
            if sub.len() == full.len() {
                assert(sub =~= sub.drop_last().push(sub.last()));
                assert(full =~= full.drop_last().push(full.last()));
            }
        } else {
            lemma_subsequence_len(sub, full.drop_last());
        }
    }
}

proof fn lemma_suffix_after_push(tail: Seq<u32>, seen: Seq<u32>, whole: Seq<u32>, sample: u32)
    requires
        tail.len() > 0,
        tail.last() == sample,
        tail.drop_last().is_suffix_of(seen),
        seen.is_suffix_of(whole),
    ensures
        tail.is_suffix_of(whole.push(sample)),
{
    let grown = whole.push(sample);
    let from = grown.len() - tail.len();
    assert forall|i: int| 0 <= i < tail.len() implies tail[i] == grown[from + i] by {
        if i < tail.len() - 1 {
            assert(tail[i] == tail.drop_last()[i]);
            assert(tail.drop_last()[i] == seen[seen.len() - (tail.len() - 1) + i]);
            let j = seen.len() - (tail.len() - 1) + i;
            assert(seen[j] == whole[whole.len() - seen.len() + j]);
        }
    }
    assert(tail =~= grown.subrange(from, grown.len() as int));
}

/// Queues one block of captured samples, in order, without ever waiting.
///
/// A sample that finds the queue full is dropped, and the block is then
/// reported as fallen behind; the samples after it are still tried. The
/// consumer may take samples out while this runs, so the queue afterwards is
/// a suffix of what it held followed by the samples that got in, and it ends
/// with the last of them. A block that is known to fit gets in whole.
pub fn capture_block(producer: &mut SampleProducer, data: &[u32]) -> (fell_behind: bool)
    ensures
        final(producer).spec_capacity() == old(producer).spec_capacity(),
        old(producer).queued().len() + data@.len() <= old(producer).spec_capacity()
            ==> !fell_behind,
        !fell_behind ==> final(producer).queued().is_suffix_of(old(producer).queued() + data@),
        !fell_behind && data@.len() > 0 ==> final(producer).queued().len() > 0
            && final(producer).queued().last() == data@.last(),
        exists|accepted: Seq<u32>|
            {
                &&& is_subsequence(accepted, data@)
                &&& #[trigger] final(producer).queued().is_suffix_of(
                    old(producer).queued() + accepted,
                )
                &&& accepted.len() > 0 ==> final(producer).queued().len() > 0
                    && final(producer).queued().last() == accepted.last()
                &&& fell_behind <==> accepted.len() < data@.len()
            },
{
    let mut fell_behind = false;
    let ghost start = producer.queued();
    let ghost mut accepted: Seq<u32> = Seq::empty();
    let mut i: usize = 0;
    proof {
        assert(start + accepted =~= start);
        assert(data@.take(0) =~= Seq::<u32>::empty());
    }
    while i < data.len()
        invariant
            i <= data.len(),
            start == old(producer).queued(),
            producer.spec_capacity() == old(producer).spec_capacity(),
            start.len() + data@.len() <= producer.spec_capacity() ==> !fell_behind,
            is_subsequence(accepted, data@.take(i as int)),
            accepted.len() <= i,
            producer.queued().is_suffix_of(start + accepted),
            accepted.len() > 0 ==> producer.queued().len() > 0 && producer.queued().last()
                == accepted.last(),
            fell_behind <==> accepted.len() < i,
        decreases data.len() - i,
    {
        let sample = data[i];
        let ghost seen = producer.queued();
        let r = producer.push(sample);
        proof {
            let next = data@.take(i + 1);
            assert(next.drop_last() =~= data@.take(i as int));
            assert(next.last() == sample);
            match r {
                Ok(_) => {
                    lemma_suffix_after_push(producer.queued(), seen, start + accepted, sample);
                    assert((start + accepted).push(sample) =~= start + accepted.push(sample));
                    assert(accepted.push(sample).drop_last() =~= accepted);
                    accepted = accepted.push(sample);
                },
                Err(_) => {},
            }
        }
        if r.is_err() {
            fell_behind = true;
        }
        i = i + 1;
    }
    proof {
        assert(data@.take(i as int) =~= data@);
        lemma_subsequence_len(accepted, data@);
    }
    fell_behind
}

/// The number of frames per capture block to ask the backend for: one
/// transform's worth where the backend lets the size be chosen and the number
/// fits its 32-bit count, and `None`, the backend's own size, otherwise.
pub fn capture_buffer_frames(size_can_be_chosen: bool, fft_size: usize) -> (frames: Option<u32>)
    ensures
        frames == if size_can_be_chosen && fft_size <= u32::MAX {
            Some(fft_size as u32)
        } else {
            None
        },
{
    if size_can_be_chosen && fft_size <= u32::MAX as usize {
        Some(fft_size as u32)
    } else {
        None
    }
}

/// What the analysis takes for a sample that the queue did or did not
/// deliver: the sample itself, or silence together with the mark of an
/// underrun.
pub fn sample_or_silence(popped: Option<u32>) -> (taken: (u32, bool))
    ensures
        taken == match popped {
            Some(sample) => (sample, false),
            None => (SILENCE, true),
        },
{
    match popped {
        Some(sample) => (sample, false),
        None => (SILENCE, true),
    }
}

/// The smaller of two lengths.
pub open spec fn shorter(a: nat, b: nat) -> nat {
    if a <= b {
        a
    } else {
        b
    }
}

/// Fills `frame` with the next samples of the queue, oldest first, without
/// ever waiting: one pop per slot, and silence in each slot whose pop found
/// the queue empty.
///
/// The samples that the consumer knew to be queued come out first and in
/// order, and those of them that the frame has no room for stay at the front
/// of the queue. With a whole frame of them known there is no underrun. A
/// reported underrun has left silence in some slot past the known samples.
/// The other slots past them hold what the producer delivered meanwhile.
pub fn drain_frame(consumer: &mut SampleConsumer, frame: &mut Vec<u32>) -> (underrun: bool)
    ensures
        final(frame)@.len() == old(frame)@.len(),
        final(frame)@.take(shorter(old(frame)@.len(), old(consumer).pending().len()) as int)
            == old(consumer).pending().take(
            shorter(old(frame)@.len(), old(consumer).pending().len()) as int,
        ),
        old(consumer).pending().skip(
            shorter(old(frame)@.len(), old(consumer).pending().len()) as int,
        ).is_prefix_of(final(consumer).pending()),
        old(consumer).pending().len() >= old(frame)@.len() ==> !underrun,
        underrun ==> exists|i: int|
            old(consumer).pending().len() <= i < final(frame)@.len() && #[trigger] final(frame)@[i]
                == SILENCE,
{
    let n = frame.len();
    let ghost known = consumer.pending();
    let mut underrun = false;
    let mut i: usize = 0;
    proof {
        assert(known.skip(0) =~= known);
    }
    while i < n
        invariant
            i <= n,
            n == frame@.len(),
            n == old(frame)@.len(),
            known == old(consumer).pending(),
            frame@.take(shorter(i as nat, known.len()) as int) == known.take(
                shorter(i as nat, known.len()) as int,
            ),
            known.skip(shorter(i as nat, known.len()) as int).is_prefix_of(consumer.pending()),
            underrun ==> exists|j: int| known.len() <= j < i && #[trigger] frame@[j] == SILENCE,
        decreases n - i,
    {
        let ghost before = consumer.pending();
        let ghost filled = frame@;
        let ghost low = shorter(i as nat, known.len()) as int;
        let popped = consumer.pop();
        let (sample, missed) = sample_or_silence(popped);
        frame.set(i, sample);
        proof {
            let high = shorter((i + 1) as nat, known.len()) as int;
            if i < known.len() {
                assert(high == low + 1);
                assert(known.skip(low).len() > 0);
                assert(before.len() > 0);
                assert(before.first() == known.skip(low)[0]);
                assert(popped == Some(known[i as int]));
                assert(known.skip(high) =~= known.skip(low).drop_first());
                assert(known.skip(low).drop_first().is_prefix_of(before.drop_first()));
                assert(frame@.take(high) =~= filled.take(low).push(sample));
                assert(known.take(high) =~= known.take(low).push(known[i as int]));
            } else {
                assert(high == low);
                assert(frame@.take(high) =~= filled.take(low));
                assert(known.skip(high) =~= Seq::<u32>::empty());
            }
            if underrun {
                let j = choose|j: int| known.len() <= j < i && #[trigger] filled[j] == SILENCE;
                assert(frame@[j] == SILENCE);
            }
            if missed {
                assert(frame@[i as int] == SILENCE);
            }
        }
        if missed {
            underrun = true;
        }
        i = i + 1;
    }
    underrun
}

/// Weighs every sample of a frame by a window function, in place. The
/// window is handed the sample, its index in the frame and the frame's
/// length, and answers with the weighted sample; any window of that shape
/// can be plugged in.
pub fn apply_window<W: Fn(u32, usize, usize) -> u32>(frame: &mut Vec<u32>, window: W)
    requires
        forall|sample: u32, n: usize, len: usize|
            n < len ==> #[trigger] call_requires(window, (sample, n, len)),
    ensures
        final(frame)@.len() == old(frame)@.len(),
        forall|n: int|
            0 <= n < old(frame)@.len() ==> call_ensures(
                window,
                (old(frame)@[n], n as usize, old(frame)@.len() as usize),
                #[trigger] final(frame)@[n],
            ),
{
    let len = frame.len();
    let mut n: usize = 0;
    while n < len
        invariant
            n <= len,
            len == frame@.len(),
            len == old(frame)@.len(),
            forall|sample: u32, k: usize, of: usize|
                k < of ==> #[trigger] call_requires(window, (sample, k, of)),
            forall|k: int| n <= k < len ==> frame@[k] == old(frame)@[k],
            forall|k: int|
                0 <= k < n ==> call_ensures(
                    window,
                    (old(frame)@[k], k as usize, len),
                    #[trigger] frame@[k],
                ),
        decreases len - n,
    {
        let weighted = window(frame[n], n, len);
        frame[n] = weighted;
        n = n + 1;
    }
}

/// The amplitude history at start-up: one smoothed magnitude for each bin of
/// the lower half of the spectrum, all zero.
pub fn amplitude_history(dimensions: &FFTDimensions) -> (history: Vec<u32>)
    ensures
        history@ == silence(dimensions.fft_size as nat / 2),
{
    let bins = dimensions.fft_size / 2;
    let mut history: Vec<u32> = Vec::with_capacity(bins);
    while history.len() < bins
        invariant
            history@.len() <= bins,
            history@ == silence(history@.len()),
        decreases bins - history@.len(),
    {
        history.push(SILENCE);
    }
    history
}

/// Folds the magnitudes of one transform into the amplitude history: bin by
/// bin, the smoothing function is handed the bin's previous value and its new
/// magnitude, and what it answers becomes the bin's value. Bins for which no
/// magnitude is given keep their value.
pub fn smooth_into<S: Fn(u32, u32) -> u32>(history: &mut Vec<u32>, magnitudes: &[u32], smooth: S)
    requires
        magnitudes@.len() <= old(history)@.len(),
        forall|previous: u32, magnitude: u32| #[trigger] call_requires(smooth, (previous, magnitude)),
    ensures
        final(history)@.len() == old(history)@.len(),
        forall|i: int|
            0 <= i < magnitudes@.len() ==> call_ensures(
                smooth,
                (old(history)@[i], magnitudes@[i]),
                #[trigger] final(history)@[i],
            ),
        forall|i: int|
            magnitudes@.len() <= i < old(history)@.len() ==> final(history)@[i] == old(history)@[i],
{
    let mut i: usize = 0;
    while i < magnitudes.len()
        invariant
            i <= magnitudes@.len() <= history@.len(),
            history@.len() == old(history)@.len(),
            forall|previous: u32, magnitude: u32| #[trigger] call_requires(smooth, (previous, magnitude)),
            forall|k: int| i <= k < history@.len() ==> history@[k] == old(history)@[k],
            forall|k: int|
                0 <= k < i ==> call_ensures(
                    smooth,
                    (old(history)@[k], magnitudes@[k]),
                    #[trigger] history@[k],
                ),
        decreases magnitudes@.len() - i,
    {
        let smoothed = smooth(history[i], magnitudes[i]);
        history[i] = smoothed;
        i = i + 1;
    }
}

/// Makes the spectrum to publish out of the amplitude history: cell by cell,
/// the normalizing function is handed the smoothed magnitude of the bin and
/// answers with the cell's value. The row covers the first bins of the
/// history.
pub fn normalize_into<N: Fn(u32) -> u32>(row: &mut Vec<u32>, history: &[u32], normalize: N)
    requires
        old(row)@.len() <= history@.len(),
        forall|amplitude: u32| #[trigger] call_requires(normalize, (amplitude,)),
    ensures
        final(row)@.len() == old(row)@.len(),
        forall|i: int|
            0 <= i < old(row)@.len() ==> call_ensures(
                normalize,
                (history@[i],),
                #[trigger] final(row)@[i],
            ),
{
    let width = row.len();
    let mut i: usize = 0;
    while i < width
        invariant
            i <= width <= history@.len(),
            width == row@.len(),
            width == old(row)@.len(),
            forall|amplitude: u32| #[trigger] call_requires(normalize, (amplitude,)),
            forall|k: int|
                0 <= k < i ==> call_ensures(normalize, (history@[k],), #[trigger] row@[k]),
        decreases width - i,
    {
        let cell = normalize(history[i]);
        row[i] = cell;
        i = i + 1;
    }
}

/// A sequence of `n` silent samples.
pub open spec fn silence(n: nat) -> Seq<u32> {
    Seq::new(n, |i: int| SILENCE)
}

/// Sets up the transport between capture and analysis: a queue of
/// `ring_size` samples, filled with silence so that the first cycles of the
/// analysis find samples to take, and parted into its two halves.
///
/// A queue needs room for at least one sample, and its storage has to fit the
/// address space.
pub fn sample_transport(dimensions: &FFTDimensions) -> (halves: (SampleProducer, SampleConsumer))
    requires
        dimensions.wf(),
        0 < dimensions.spec_ring_size(),
        4 * dimensions.spec_ring_size() <= isize::MAX,
    ensures
        halves.0.spec_capacity() == dimensions.spec_ring_size(),
        halves.0.queued() == silence(dimensions.spec_ring_size()),
        halves.1.pending() == silence(dimensions.spec_ring_size()),
{
    let ring = SampleRing::filled(dimensions.ring_size());
    ring.split()
}

} // verus!
