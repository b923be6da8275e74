//! The mixing and segmentation engine of one capture run.
//!
//! The microphone is the clock: each of its chunks is mixed with what the
//! system stream has delivered so far and lands in the segment that is open.
//! The engine decides when a segment opens and closes; its owner waits for
//! chunks, reads the clock and ships what the engine hands out.

use vstd::prelude::*;
use vstd::arithmetic::div_mod::{lemma_basic_div_specific_divisor, lemma_div_plus_one};
use crate::mixer::{blended, consumed, mix_chunk, partner, within_peak, PCM_PEAK};

verus! {

/// Longest time a segment stays open, in seconds.
pub const MAX_SEGMENT_DURATION_SECS: u64 = 300;

/// Longest wait for a microphone chunk before the flag is read again, in
/// milliseconds.
pub const MICROPHONE_TIMEOUT_MS: u64 = 500;

/// What the owner of the engine does next.
#[derive(Debug, PartialEq, Eq, Clone, Copy, Structural)]
pub enum EngineStep {
    /// No segment is open and recording goes on: open one.
    OpenSegment,
    /// Wait up to `MICROPHONE_TIMEOUT_MS` for a microphone chunk; mix it
    /// if one came.
    AwaitMicrophone,
    /// Recording has ended or the open segment has reached its limit:
    /// close it and ship it.
    CloseSegment,
    /// Nothing is open and recording has ended: the run is over.
    Exit,
}

/// A closed segment, ready to be encoded and shipped.
#[derive(Debug)]
pub struct FinishedSegment {
    pub recording_id: i64,
    pub sequence: i32,
    pub sample_rate: u32,
    pub samples: Vec<i16>,
}

/// The engine as contracts speak of it.
pub ghost struct EngineView<T> {
    pub recording_id: i64,
    /// Number of the open segment, or of the next one to open.
    pub sequence: i32,
    pub sample_rate: u32,
    pub max_segment_secs: u64,
    /// System samples delivered and not yet mixed.
    pub system: Seq<T>,
    /// Samples of the open segment.
    pub pending: Seq<i16>,
    pub open: bool,
    /// Microphone samples mixed since the engine was made.
    pub mixed: nat,
    /// Samples in the segments closed since the engine was made.
    pub shipped: nat,
}

impl<T> EngineView<T> {
    /// Every microphone sample mixed is in a closed segment or in the open
    /// one, and nothing else is.
    pub open spec fn balanced(self) -> bool {
        self.mixed == self.shipped + self.pending.len()
    }
}

/// The step that follows from whether a segment is open, whether the
/// recording flag is set, and how long the open segment has lasted.
pub open spec fn step_of(open: bool, recording: bool, elapsed_secs: u64, max_segment_secs: u64) -> EngineStep {
    if open {
        if recording && elapsed_secs < max_segment_secs {
            EngineStep::AwaitMicrophone
        } else {
            EngineStep::CloseSegment
        }
    } else {
        if recording {
            EngineStep::OpenSegment
        } else {
            EngineStep::Exit
        }
    }
}

pub struct SegmentEngine<T> {
    recording_id: i64,
    sequence: i32,
    sample_rate: u32,
    max_segment_secs: u64,
    system: Vec<T>,
    pcm: Vec<i16>,
    open: bool,
    mixed: Ghost<nat>,
    shipped: Ghost<nat>,
}

impl<T> SegmentEngine<T> {
    pub closed spec fn view(&self) -> EngineView<T> {
        EngineView {
            recording_id: self.recording_id,
            sequence: self.sequence,
            sample_rate: self.sample_rate,
            max_segment_secs: self.max_segment_secs,
            system: self.system@,
            pending: self.pcm@,
            open: self.open,
            mixed: self.mixed@,
            shipped: self.shipped@,
        }
    }

    /// The engine's books are in order: every microphone sample mixed is in
    /// a closed segment or in the open one, every sample lies within the
    /// peak, and there are samples only in an open segment.
    pub open spec fn wf(&self) -> bool {
        &&& self@.balanced()
        &&& within_peak(self@.pending)
        &&& !self@.open ==> self@.pending.len() == 0
    }
}

impl<T: Copy> SegmentEngine<T> {
    /// An engine for `recording_id` whose first segment bears `sequence`.
    pub fn new(recording_id: i64, sequence: i32, sample_rate: u32, max_segment_secs: u64) -> (engine: Self)
        ensures
            engine@ == (EngineView::<T> {
                recording_id,
                sequence,
                sample_rate,
                max_segment_secs,
                system: Seq::empty(),
                pending: Seq::empty(),
                open: false,
                mixed: 0,
                shipped: 0,
            }),
            engine.wf(),
    {
        SegmentEngine {
            recording_id,
            sequence,
            sample_rate,
            max_segment_secs,
            system: Vec::new(),
            pcm: Vec::new(),
            open: false,
            mixed: Ghost(0),
            shipped: Ghost(0),
        }
    }

    /// Number of the open segment, or of the next one to open.
    pub fn sequence(&self) -> (sequence: i32)
        ensures
            sequence == self@.sequence,
    {
        self.sequence
    }

    pub fn is_open(&self) -> (open: bool)
        ensures
            open == self@.open,
    {
        self.open
    }

    /// Number of samples in the open segment.
    pub fn pending_len(&self) -> (len: usize)
        ensures
            len == self@.pending.len(),
    {
        self.pcm.len()
    }

    /// Number of system samples waiting to be mixed.
    pub fn buffered_len(&self) -> (len: usize)
        ensures
            len == self@.system.len(),
    {
        self.system.len()
    }

    /// Says what to do next, given the recording flag and the seconds for
    /// which the open segment has lasted.
    pub fn next_step(&self, recording: bool, elapsed_secs: u64) -> (step: EngineStep)
        ensures
            step == step_of(self@.open, recording, elapsed_secs, self@.max_segment_secs),
    {
        if self.open {
            if recording && elapsed_secs < self.max_segment_secs {
                EngineStep::AwaitMicrophone
            } else {
                EngineStep::CloseSegment
            }
        } else {
            if recording {
                EngineStep::OpenSegment
            } else {
                EngineStep::Exit
            }
        }
    }

    /// Opens a segment unless one is open. The buffered system samples stay.
    pub fn open_segment(&mut self)
        requires
            old(self).wf(),
        ensures
            final(self)@ == (EngineView { open: true, ..old(self)@ }),
            final(self).wf(),
    {
        self.open = true;
    }

    /// Takes in a chunk of system audio for later mixing.
    pub fn push_system(&mut self, chunk: &Vec<T>)
        ensures
            final(self)@ == (EngineView { system: old(self)@.system + chunk@, ..old(self)@ }),
            old(self).wf() ==> final(self).wf(),
    {
        let mut i: usize = 0;
        while i < chunk.len()
            invariant
                i <= chunk@.len(),
                self.system@ == old(self).system@ + chunk@.take(i as int),
                self.recording_id == old(self).recording_id,
                self.sequence == old(self).sequence,
                self.sample_rate == old(self).sample_rate,
                self.max_segment_secs == old(self).max_segment_secs,
                self.pcm == old(self).pcm,
                self.open == old(self).open,
                self.mixed == old(self).mixed,
                self.shipped == old(self).shipped,
            decreases chunk@.len() - i,
        {
            self.system.push(chunk[i]);
            assert(self.system@ =~= old(self).system@ + chunk@.take(i + 1));
            i = i + 1;
        }
        assert(chunk@.take(chunk@.len() as int) =~= chunk@);
    }

    /// Mixes one microphone chunk into the open segment. Sample `i` of the
    /// chunk meets buffered system sample `i`, or nothing where the buffer
    /// is shorter; `blend` gives the scaled sum of the two, which is clipped
    /// to the peak. The system samples that were met leave the buffer.
    /// Without an open segment nothing happens.
    pub fn mix<F: Fn(T, Option<T>) -> i64>(&mut self, mic: &Vec<T>, blend: &F)
        requires
            old(self).wf(),
            forall|m: T, s: Option<T>| blend.requires((m, s)),
        ensures
            !old(self)@.open ==> final(self)@ == old(self)@,
            old(self)@.open ==> {
                &&& final(self)@ == (EngineView {
                    pending: final(self)@.pending,
                    system: old(self)@.system.skip(consumed(mic@.len(), old(self)@.system.len()) as int),
                    mixed: old(self)@.mixed + mic@.len(),
                    ..old(self)@
                })
                &&& final(self)@.pending.len() == old(self)@.pending.len() + mic@.len()
                &&& final(self)@.pending.take(old(self)@.pending.len() as int) == old(self)@.pending
                &&& forall|i: int|
                    #![trigger final(self)@.pending[old(self)@.pending.len() + i]]
                    0 <= i < mic@.len() ==> blended(
                        blend,
                        mic@[i],
                        partner(old(self)@.system, i),
                        final(self)@.pending[old(self)@.pending.len() + i],
                    )
            },
            final(self).wf(),
    {
        if !self.open {
            return ;
        }
        let mut fresh = mix_chunk(mic, &mut self.system, blend);
        let ghost before = self.pcm@;
        let ghost added = fresh@;
        self.pcm.append(&mut fresh);
        proof {
            self.mixed@ = self.mixed@ + mic@.len();
            assert(self.pcm@ == before + added);
            assert(self.pcm@.take(before.len() as int) =~= before);
            assert forall|i: int| 0 <= i < mic@.len() implies blended(
                blend,
                mic@[i],
                partner(old(self)@.system, i),
                #[trigger] self.pcm@[before.len() + i],
            ) by {
                assert(self.pcm@[before.len() + i] == added[i]);
            }
            assert forall|i: int| 0 <= i < self.pcm@.len() implies -PCM_PEAK <= #[trigger] self.pcm@[i]
                <= PCM_PEAK by {
                if i >= before.len() {
                    assert(self.pcm@[i] == added[i - before.len()]);
                }
            }
        }
    }

    /// Closes the open segment and hands it out; the next segment will bear
    /// the following number. Without an open segment nothing happens.
    pub fn close_segment(&mut self) -> (segment: Option<FinishedSegment>)
        requires
            old(self).wf(),
            old(self)@.open ==> old(self)@.sequence < i32::MAX,
        ensures
            !old(self)@.open ==> segment is None && final(self)@ == old(self)@,
            old(self)@.open ==> {
                &&& segment matches Some(closed)
                &&& closed.recording_id == old(self)@.recording_id
                &&& closed.sequence == old(self)@.sequence
                &&& closed.sample_rate == old(self)@.sample_rate
                &&& closed.samples@ == old(self)@.pending
                &&& within_peak(closed.samples@)
                &&& final(self)@.sequence > closed.sequence
                &&& final(self)@ == (EngineView {
                    sequence: (old(self)@.sequence + 1) as i32,
                    pending: Seq::empty(),
                    open: false,
                    shipped: old(self)@.shipped + old(self)@.pending.len(),
                    ..old(self)@
                })
            },
            final(self).wf(),
    {
        if !self.open {
            return None;
        }
        let mut samples: Vec<i16> = Vec::new();
        samples.append(&mut self.pcm);
        assert(samples@ =~= old(self).pcm@);
        let segment = FinishedSegment {
            recording_id: self.recording_id,
            sequence: self.sequence,
            sample_rate: self.sample_rate,
            samples,
        };
        proof {
            self.shipped@ = self.shipped@ + old(self).pcm@.len();
        }
        self.sequence = self.sequence + 1;
        self.open = false;
        Some(segment)
    }
}

/// No microphone sample is lost and none is counted twice: whatever has
/// been mixed is in a segment that was closed or in the one that is open.
pub proof fn lemma_samples_conserved<T: Copy>(engine: SegmentEngine<T>)
    requires
        engine.wf(),
    ensures
        engine@.mixed == engine@.shipped + engine@.pending.len(),
        !engine@.open ==> engine@.mixed == engine@.shipped,
{
}

/// The step taken at second `now` of a run whose recording flag is set
/// until second `total`, when the open segment, if there is one, was opened
/// at second `opened`.
pub open spec fn step_at(total: nat, max_segment_secs: u64, now: nat, opened: Option<nat>) -> EngineStep {
    step_of(
        opened is Some,
        now < total,
        match opened {
            Some(since) => (now - since) as u64,
            None => 0,
        },
        max_segment_secs,
    )
}

/// Number of segments closed from second `now` on in a run that is polled
/// once a second, whose recording flag is set until second `total`.
pub open spec fn segments_closed(total: nat, max_segment_secs: u64, now: nat, opened: Option<nat>) -> nat
    decreases total - now, step_rank(step_at(total, max_segment_secs, now, opened)),
    when max_segment_secs > 0
{
    match step_at(total, max_segment_secs, now, opened) {
        EngineStep::OpenSegment => segments_closed(total, max_segment_secs, now, Some(now)),
        EngineStep::AwaitMicrophone => segments_closed(total, max_segment_secs, now + 1, opened),
        EngineStep::CloseSegment => 1 + segments_closed(total, max_segment_secs, now, None),
        EngineStep::Exit => 0,
    }
}

/// How many further steps can follow a step within the same second.
pub open spec fn step_rank(step: EngineStep) -> nat {
    match step {
        EngineStep::CloseSegment => 2,
        EngineStep::OpenSegment => 1,
        _ => 0,
    }
}

/// `total` divided by `max`, rounded up.
pub open spec fn segments_needed(total: nat, max: nat) -> nat {
    ((total + max - 1) / max as int) as nat
}

proof fn lemma_segments_needed(rest: nat, max: nat)
    requires
        max > 0,
    ensures
        segments_needed(0, max) == 0,
        1 <= rest <= max ==> segments_needed(rest, max) == 1,
        segments_needed(rest + max, max) == 1 + segments_needed(rest, max),
{
    lemma_basic_div_specific_divisor(max as int);
    lemma_div_plus_one(rest + max - 1, max as int);
    if 1 <= rest <= max {
        lemma_div_plus_one(rest - 1, max as int);
    }
}

proof fn lemma_segments_from(total: nat, max_segment_secs: u64, now: nat, opened: Option<nat>)
    requires
        max_segment_secs > 0,
        total <= u64::MAX,
        now <= total,
        opened matches Some(since) ==> since <= now && since < total && now - since <= max_segment_secs,
    ensures
        segments_closed(total, max_segment_secs, now, opened) == segments_needed(
            match opened {
                Some(since) => (total - since) as nat,
                None => (total - now) as nat,
            },
            max_segment_secs as nat,
        ),
    decreases total - now, step_rank(step_at(total, max_segment_secs, now, opened)),
{
    let max = max_segment_secs as nat;
    match step_at(total, max_segment_secs, now, opened) {
        EngineStep::OpenSegment => {
            lemma_segments_from(total, max_segment_secs, now, Some(now));
        },
        EngineStep::AwaitMicrophone => {
            lemma_segments_from(total, max_segment_secs, now + 1, opened);
        },
        EngineStep::CloseSegment => {
            lemma_segments_from(total, max_segment_secs, now, None);
            let since = opened->0;
            if now < total {
                assert(now - since == max);
                lemma_segments_needed((total - now) as nat, max);
            } else {
                lemma_segments_needed((total - since) as nat, max);
            }
        },
        EngineStep::Exit => {
            lemma_segments_needed(0, max);
        },
    }
}

/// A run that records for `total` seconds and is polled once a second
/// closes as many segments as `total` holds spans of the longest segment
/// time, the last span counted though it be shorter.
pub proof fn lemma_segment_count(total: nat, max_segment_secs: u64)
    requires
        max_segment_secs > 0,
        total <= u64::MAX,
    ensures
        segments_closed(total, max_segment_secs, 0, None) == segments_needed(total, max_segment_secs as nat),
{
    lemma_segments_from(total, max_segment_secs, 0, None);
}

/// No segment outlasts the limit: once the open segment has lasted
/// `max_segment_secs`, the only step is to close it, and no chunk is
/// awaited for it whatever the recording flag says.
pub proof fn lemma_limit_closes_segment(recording: bool, elapsed_secs: u64, max_segment_secs: u64)
    requires
        elapsed_secs >= max_segment_secs,
    ensures
        step_of(true, recording, elapsed_secs, max_segment_secs) == EngineStep::CloseSegment,
{
}

} // verus!
