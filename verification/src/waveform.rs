//! The amplitude summary of a song: a fixed number of peaks over time.
//!
//! Samples are integers. A peak is kept as it was measured, together with the
//! highest peak of the summary; a bar's height is the one divided by the other.

use vstd::prelude::*;

verus! {

/// The number of peaks in a summary.
pub const WAVEFORM_LENGTH: usize = 230;

/// One moment of decoded audio: a sample for each of the two channels.
#[derive(Clone, Copy, PartialEq, Eq, Structural, Debug)]
pub struct Frame {
    pub left: i32,
    pub right: i32,
}

/// How far the two channels of a frame, mixed to one, are from silence: the size
/// of their sum, which is twice the size of their mean. The factor is the same for
/// every frame and drops out when peaks are divided by the highest peak.
pub open spec fn amplitude(frame: Frame) -> int {
    let sum = frame.left + frame.right;
    if sum < 0 {
        -sum
    } else {
        sum
    }
}

/// `peak` is the highest amplitude among `frames[from..to]`, and 0 where that
/// range is empty.
pub open spec fn is_peak(frames: Seq<Frame>, from: int, to: int, peak: int) -> bool {
    &&& forall|k: int| from <= k < to ==> amplitude(#[trigger] frames[k]) <= peak
    &&& if from < to {
        exists|k: int| from <= k < to && amplitude(#[trigger] frames[k]) == peak
    } else {
        peak == 0
    }
}

/// `top` is the highest of the values.
pub open spec fn is_top(values: Seq<u64>, top: u64) -> bool {
    &&& forall|i: int| 0 <= i < values.len() ==> #[trigger] values[i] <= top
    &&& exists|i: int| 0 <= i < values.len() && #[trigger] values[i] == top
}

/// The length of one chunk when `count` frames are cut into `WAVEFORM_LENGTH`
/// chunks of one length; the frames that are left over at the end are in no chunk.
pub open spec fn chunk_size(count: nat) -> int {
    count as int / WAVEFORM_LENGTH as int
}

/// `peaks` and `full_scale` are the summary of `frames`: peak `i` is the highest
/// amplitude in chunk `i`, and `full_scale` is the highest peak.
pub open spec fn summarizes(frames: Seq<Frame>, peaks: Seq<u64>, full_scale: u64) -> bool {
    let size = chunk_size(frames.len());
    &&& peaks.len() == WAVEFORM_LENGTH
    &&& forall|i: int|
        0 <= i < WAVEFORM_LENGTH ==> is_peak(frames, i * size, (i + 1) * size, #[trigger] peaks[i] as int)
    &&& is_top(peaks, full_scale)
}

/// The amplitude summary of a song.
#[derive(Clone, Debug)]
pub struct Waveform {
    /// The peak of each chunk.
    pub peaks: Vec<u64>,
    /// The value that stands for a bar of full height.
    pub full_scale: u64,
}

impl Waveform {
    /// The summary has `WAVEFORM_LENGTH` peaks.
    pub open spec fn wf(&self) -> bool {
        self.peaks@.len() == WAVEFORM_LENGTH
    }

    /// Every bar is between nothing and full height.
    pub open spec fn in_unit_range(&self) -> bool {
        forall|i: int| 0 <= i < self.peaks@.len() ==> #[trigger] self.peaks@[i] <= self.full_scale
    }

    /// Every bar has no height.
    pub open spec fn is_flat(&self) -> bool {
        forall|i: int| 0 <= i < self.peaks@.len() ==> #[trigger] self.peaks@[i] == 0
    }

    /// The height of bar `i` as a fraction, numerator and denominator. The
    /// denominator is never 0: a summary whose highest peak is 0 has bars of height 0.
    pub open spec fn spec_fraction(&self, i: int) -> (u64, u64) {
        if self.full_scale == 0 {
            (0, 1)
        } else {
            (self.peaks@[i], self.full_scale)
        }
    }

    /// The summary of the given peaks, if there are `WAVEFORM_LENGTH` of them;
    /// the flat summary for any other number.
    pub fn new(peaks: Vec<u64>, full_scale: u64) -> (r: Waveform)
        ensures
            r.wf(),
            peaks@.len() == WAVEFORM_LENGTH ==> r.peaks@ == peaks@ && r.full_scale == full_scale,
            peaks@.len() != WAVEFORM_LENGTH ==> r.is_flat() && r.full_scale == 0,
    {
        if peaks.len() == WAVEFORM_LENGTH {
            Waveform { peaks, full_scale }
        } else {
            Waveform::default()
        }
    }

    /// A summary with the same peaks.
    pub fn duplicate(&self) -> (r: Waveform)
        ensures
            r.peaks@ == self.peaks@,
            r.full_scale == self.full_scale,
    {
        let peaks = self.peaks.clone();
        assert(peaks@ =~= self.peaks@);
        Waveform { peaks, full_scale: self.full_scale }
    }

    /// The height of bar `i` as a fraction, numerator and denominator.
    pub fn fraction(&self, i: usize) -> (r: (u64, u64))
        requires
            self.wf(),
            i < WAVEFORM_LENGTH,
        ensures
            r == self.spec_fraction(i as int),
            r.1 > 0,
            self.in_unit_range() ==> r.0 <= r.1,
    {
        if self.full_scale == 0 {
            (0, 1)
        } else {
            (self.peaks[i], self.full_scale)
        }
    }

    /// Summarizes decoded audio. The frames are cut into `WAVEFORM_LENGTH` chunks
    /// of one length, the frames left over at the end are dropped, and each chunk
    /// gives its highest amplitude. Fewer frames than chunks, or silence, give the
    /// flat summary.
    pub fn analyze(frames: &Vec<Frame>) -> (r: Waveform)
        ensures
            summarizes(frames@, r.peaks@, r.full_scale),
            r.wf(),
            r.in_unit_range(),
            frames@.len() < WAVEFORM_LENGTH ==> r.is_flat() && r.full_scale == 0,
            (forall|k: int| 0 <= k < frames@.len() ==> amplitude(#[trigger] frames@[k]) == 0)
                ==> r.is_flat() && r.full_scale == 0,
    {
        let size: usize = frames.len() / WAVEFORM_LENGTH;
        let mut peaks: Vec<u64> = Vec::new();
        let mut top: u64 = 0;
        let mut from: usize = 0;
        let mut i: usize = 0;
        while i < WAVEFORM_LENGTH
            invariant
                i <= WAVEFORM_LENGTH,
                size == chunk_size(frames@.len()),
                frames@.len() <= usize::MAX,
                from == i * size,
                peaks@.len() == i,
                forall|j: int|
                    0 <= j < i ==> is_peak(
                        frames@,
                        j * size,
                        (j + 1) * size,
                        #[trigger] peaks@[j] as int,
                    ),
                forall|j: int| 0 <= j < i ==> #[trigger] peaks@[j] <= top,
                if i == 0 {
                    top == 0
                } else {
                    exists|j: int| 0 <= j < i && #[trigger] peaks@[j] == top
                },
            decreases WAVEFORM_LENGTH - i,
        {
            assert((i + 1) * size == i * size + size && (i + 1) * size <= frames@.len()) by (nonlinear_arith)
                requires
                    i < 230,
                    size == frames@.len() as int / 230,
            ;
            let to: usize = from + size;
            let peak = chunk_peak(frames, from, to);
            let ghost before = peaks@;
            peaks.push(peak);
            if peak > top {
                top = peak;
            }
            proof {
                assert(peaks@[i as int] == peak);
                assert forall|j: int| 0 <= j < i + 1 implies is_peak(
                    frames@,
                    j * size,
                    (j + 1) * size,
                    #[trigger] peaks@[j] as int,
                ) by {
                    if j < i {
                        assert(peaks@[j] == before[j]);
                    }
                }
                if top != peak {
                    let j = choose|j: int| 0 <= j < i && #[trigger] before[j] == top;
                    assert(peaks@[j] == top);
                }
            }
            from = to;
            i += 1;
        }
        let r = Waveform { peaks, full_scale: top };
        proof {
            if frames@.len() < WAVEFORM_LENGTH {
                lemma_short_is_flat(frames@, r.peaks@, r.full_scale);
            }
            if forall|k: int| 0 <= k < frames@.len() ==> amplitude(#[trigger] frames@[k]) == 0 {
                lemma_silent_is_flat(frames@, r.peaks@, r.full_scale);
            }
        }
        r
    }
}

impl Default for Waveform {
    /// The flat summary.
    fn default() -> (r: Waveform)
        ensures
            r.wf(),
            r.is_flat(),
            r.full_scale == 0,
    {
        let mut peaks: Vec<u64> = Vec::new();
        let mut i: usize = 0;
        while i < WAVEFORM_LENGTH
            invariant
                i <= WAVEFORM_LENGTH,
                peaks@.len() == i,
                forall|j: int| 0 <= j < i ==> #[trigger] peaks@[j] == 0,
            decreases WAVEFORM_LENGTH - i,
        {
            peaks.push(0);
            i += 1;
        }
        Waveform { peaks, full_scale: 0 }
    }
}

/// How far a frame, mixed to one channel, is from silence.
pub fn frame_amplitude(frame: &Frame) -> (r: u64)
    ensures
        r == amplitude(*frame),
{
    let sum: i64 = frame.left as i64 + frame.right as i64;
    if sum < 0 {
        (-sum) as u64
    } else {
        sum as u64
    }
}

/// The highest amplitude among `frames[from..to]`.
pub fn chunk_peak(frames: &Vec<Frame>, from: usize, to: usize) -> (peak: u64)
    requires
        from <= to <= frames@.len(),
    ensures
        is_peak(frames@, from as int, to as int, peak as int),
{
    let mut peak: u64 = 0;
    let mut k: usize = from;
    while k < to
        invariant
            from <= k <= to <= frames@.len(),
            forall|j: int| from <= j < k ==> amplitude(#[trigger] frames@[j]) <= peak,
            if from < k {
                exists|j: int| from <= j < k && amplitude(#[trigger] frames@[j]) == peak
            } else {
                peak == 0
            },
        decreases to - k,
    {
        let here = frame_amplitude(&frames[k]);
        if here > peak {
            peak = here;
        } else if from < k {
            let ghost j = choose|j: int| from <= j < k && amplitude(#[trigger] frames@[j]) == peak;
            assert(from <= j < k + 1 && amplitude(frames@[j]) == peak);
        } else {
            assert(here == 0);
        }
        assert(amplitude(frames@[k as int]) == here);
        k += 1;
    }
    peak
}

/// The summary of fewer frames than there are chunks is flat.
pub proof fn lemma_short_is_flat(frames: Seq<Frame>, peaks: Seq<u64>, full_scale: u64)
    requires
        summarizes(frames, peaks, full_scale),
        frames.len() < WAVEFORM_LENGTH,
    ensures
        forall|i: int| 0 <= i < peaks.len() ==> #[trigger] peaks[i] == 0,
        full_scale == 0,
{
    assert(chunk_size(frames.len()) == 0);
    assert forall|i: int| 0 <= i < peaks.len() implies #[trigger] peaks[i] == 0 by {
        assert(is_peak(frames, i * 0, (i + 1) * 0, peaks[i] as int));
    }
}

/// The summary of silence is flat: no peak is above 0, and none is undefined.
pub proof fn lemma_silent_is_flat(frames: Seq<Frame>, peaks: Seq<u64>, full_scale: u64)
    requires
        summarizes(frames, peaks, full_scale),
        forall|k: int| 0 <= k < frames.len() ==> amplitude(#[trigger] frames[k]) == 0,
    ensures
        forall|i: int| 0 <= i < peaks.len() ==> #[trigger] peaks[i] == 0,
        full_scale == 0,
{
    let size = chunk_size(frames.len());
    assert(WAVEFORM_LENGTH * size <= frames.len()) by (nonlinear_arith)
        requires
            size == frames.len() as int / 230,
    ;
    assert forall|i: int| 0 <= i < peaks.len() implies #[trigger] peaks[i] == 0 by {
        assert(is_peak(frames, i * size, (i + 1) * size, peaks[i] as int));
        assert(0 <= i * size && (i + 1) * size <= WAVEFORM_LENGTH * size) by (nonlinear_arith)
            requires
                0 <= i < 230,
                size >= 0,
        ;
        if i * size < (i + 1) * size {
            let k = choose|k: int|
                i * size <= k < (i + 1) * size && amplitude(#[trigger] frames[k]) == peaks[i] as int;
            assert(amplitude(frames[k]) == 0);
        }
    }
}

/// Every peak of a summary is at most the highest, so every bar is between
/// nothing and full height.
pub proof fn lemma_summary_in_unit_range(frames: Seq<Frame>, peaks: Seq<u64>, full_scale: u64)
    requires
        summarizes(frames, peaks, full_scale),
    ensures
        peaks.len() == WAVEFORM_LENGTH,
        forall|i: int| 0 <= i < peaks.len() ==> 0 <= #[trigger] peaks[i] <= full_scale,
{
}

/// Frames have one summary only.
pub proof fn lemma_summary_is_unique(
    frames: Seq<Frame>,
    peaks: Seq<u64>,
    full_scale: u64,
    other_peaks: Seq<u64>,
    other_full_scale: u64,
)
    requires
        summarizes(frames, peaks, full_scale),
        summarizes(frames, other_peaks, other_full_scale),
    ensures
        peaks == other_peaks,
        full_scale == other_full_scale,
{
    let size = chunk_size(frames.len());
    assert forall|i: int| 0 <= i < peaks.len() implies peaks[i] == other_peaks[i] by {
        let from = i * size;
        let to = (i + 1) * size;
        assert(is_peak(frames, from, to, peaks[i] as int));
        assert(is_peak(frames, from, to, other_peaks[i] as int));
        if from < to {
            let k = choose|k: int| from <= k < to && amplitude(#[trigger] frames[k]) == peaks[i];
            let j = choose|j: int|
                from <= j < to && amplitude(#[trigger] frames[j]) == other_peaks[i];
            assert(amplitude(frames[k]) <= other_peaks[i]);
            assert(amplitude(frames[j]) <= peaks[i]);
        }
    }
    assert(peaks =~= other_peaks);
    let i = choose|i: int| 0 <= i < peaks.len() && #[trigger] peaks[i] == full_scale;
    let j = choose|j: int| 0 <= j < other_peaks.len() && #[trigger] other_peaks[j]
        == other_full_scale;
    assert(other_peaks[i] <= other_full_scale);
    assert(peaks[j] <= full_scale);
}

} // verus!
