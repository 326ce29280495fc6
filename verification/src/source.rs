//! The playable-source model: a finite run of samples with its format
//! metadata. Queued items, the initial placeholder and the synthesized
//! silence filler are all values of [`SoundSource`].

use vstd::prelude::*;

verus! {

/// Channel count of the synthesized silence filler.
pub const SILENCE_CHANNELS: u16 = 1;

/// Sample rate of the synthesized silence filler, in Hz.
pub const SILENCE_SAMPLE_RATE: u32 = 44000;

/// Length of the synthesized silence filler in samples: about 10 ms at
/// [`SILENCE_SAMPLE_RATE`], mono. This bounds how long an empty queue keeps
/// playing silence before the pending list is polled again.
pub const SILENCE_SAMPLE_COUNT: usize = 440;

/// A playable source: the samples it has yet to produce, in production
/// order, and the format they are in.
pub struct SoundSource {
    /// Samples not yet produced; the front one is produced next.
    pub samples: Vec<i16>,
    /// Number of interleaved channels.
    pub channels: u16,
    /// Samples per second.
    pub sample_rate: u32,
}

/// The sample sequence of the silence filler: all zero-valued.
pub open spec fn silence_seq() -> Seq<i16> {
    Seq::new(SILENCE_SAMPLE_COUNT as nat, |i: int| 0i16)
}

impl SoundSource {
    /// A source over the given samples.
    pub fn new(samples: Vec<i16>, channels: u16, sample_rate: u32) -> (r: SoundSource)
        ensures
            r.samples@ == samples@,
            r.channels == channels,
            r.sample_rate == sample_rate,
    {
        SoundSource { samples, channels, sample_rate }
    }

    /// A source with no samples at all: the placeholder a fresh queue
    /// output starts from.
    pub fn empty() -> (r: SoundSource)
        ensures
            r.samples@ == Seq::<i16>::empty(),
            r.channels == SILENCE_CHANNELS,
            r.sample_rate == SILENCE_SAMPLE_RATE,
    {
        SoundSource { samples: Vec::new(), channels: SILENCE_CHANNELS, sample_rate: SILENCE_SAMPLE_RATE }
    }

    /// Produces the next sample, or reports exhaustion. The metadata never
    /// changes; an exhausted source is left untouched.
    pub fn next_sample(&mut self) -> (r: Option<i16>)
        ensures
            old(self).samples@.len() > 0 ==> {
                &&& r == Some(old(self).samples@[0])
                &&& final(self).samples@ == old(self).samples@.skip(1)
            },
            old(self).samples@.len() == 0 ==> {
                &&& r is None
                &&& *final(self) == *old(self)
            },
            final(self).channels == old(self).channels,
            final(self).sample_rate == old(self).sample_rate,
    {
        if self.samples.len() > 0 {
            let s = self.samples.remove(0);
            proof {
                assert(self.samples@ =~= old(self).samples@.skip(1));
            }
            Some(s)
        } else {
            None
        }
    }

    /// Length of the block of samples this source can still produce.
    pub fn current_frame_len(&self) -> (r: Option<usize>)
        ensures
            r == Some((self.samples@.len() as usize)),
    {
        Some(self.samples.len())
    }

    /// Total remaining duration in microseconds, when the format gives one:
    /// remaining samples divided by samples consumed per second
    /// (channels times sample rate).
    pub fn total_duration_micros(&self) -> (r: Option<u128>)
        ensures
            self.channels == 0 || self.sample_rate == 0 ==> r is None,
            self.channels > 0 && self.sample_rate > 0 ==> r == Some(
                (((self.samples@.len() * 1000000) as int / (self.channels as int
                    * self.sample_rate as int)) as u128),
            ),
    {
        if self.channels == 0 || self.sample_rate == 0 {
            return None;
        }
        proof {
            assert((self.channels as int) * (self.sample_rate as int) > 0
                && (self.channels as int) * (self.sample_rate as int) <= 65535 * 4294967295)
                by (nonlinear_arith)
                requires
                    0 < self.channels <= 65535,
                    0 < self.sample_rate <= 4294967295,
            ;
        }
        let len = self.samples.len() as u128;
        let per_second = (self.channels as u128) * (self.sample_rate as u128);
        Some((len * 1000000) / per_second)
    }
}

/// The silence filler: [`SILENCE_SAMPLE_COUNT`] zero-valued samples, mono,
/// at [`SILENCE_SAMPLE_RATE`].
pub fn silence_source() -> (r: SoundSource)
    ensures
        r.samples@ == silence_seq(),
        r.channels == SILENCE_CHANNELS,
        r.sample_rate == SILENCE_SAMPLE_RATE,
{
    let mut samples: Vec<i16> = Vec::new();
    let mut i: usize = 0;
    while i < SILENCE_SAMPLE_COUNT
        invariant
            i <= SILENCE_SAMPLE_COUNT,
            samples@ == Seq::new(i as nat, |j: int| 0i16),
        decreases SILENCE_SAMPLE_COUNT - i,
    {
        samples.push(0);
        i = i + 1;
        proof {
            assert(samples@ =~= Seq::new(i as nat, |j: int| 0i16));
        }
    }
    SoundSource { samples, channels: SILENCE_CHANNELS, sample_rate: SILENCE_SAMPLE_RATE }
}

} // verus!
