//! The queue: a producer-facing input handle appending onto a shared,
//! lock-protected pending list, and a consumer-facing output that plays the
//! queued sources in order.
//!
//! The hot path — producing a sample from the current source — takes no lock.
//! Only a transition (the current source is exhausted and the next one must be
//! adopted) briefly acquires the pending-list lock.

use std::sync::Arc;
use std::sync::mpsc::Receiver;
use std::sync::mpsc::Sender;
use vstd::prelude::*;
use vstd::rwlock::RwLock;
use vstd::rwlock::RwLockPredicate;
use crate::signal::new_signal_channel;
use crate::signal::send_signal;
use crate::source::SILENCE_CHANNELS;
use crate::source::SILENCE_SAMPLE_RATE;
use crate::source::SoundSource;
use crate::source::silence_seq;
use crate::source::silence_source;

verus! {

/// One queued element: a source, and optionally the sending end of the
/// one-shot channel that fires when the queue moves past this source.
pub struct QueueEntry {
    pub source: SoundSource,
    pub signal: Option<Sender<()>>,
}

/// The pending list carries no invariant of its own: every list of entries
/// is a valid state of the queue.
pub struct PendingPred {}

impl RwLockPredicate<Vec<QueueEntry>> for PendingPred {
    open spec fn inv(self, v: Vec<QueueEntry>) -> bool {
        true
    }
}

/// The input of the queue: the producer-facing handle. Shared, through an
/// [`Arc`], between any number of producers and the output; all mutation of
/// the pending list happens under its lock.
pub struct SourcesQueueInput {
    pub next_sounds: RwLock<Vec<QueueEntry>, PendingPred>,
}

impl SourcesQueueInput {
    /// Adds a new source to the end of the queue, with no completion signal.
    ///
    /// The linearized effect, between acquiring and releasing the list lock,
    /// is one `push` of the new entry onto the shared pending list; appends
    /// racing from several producers are ordered by the lock.
    pub fn append(&self, source: SoundSource) {
        let (mut list, handle) = self.next_sounds.acquire_write();
        list.push(QueueEntry { source, signal: None });
        handle.release_write(list);
    }

    /// Adds a new source to the end of the queue and returns the receiving
    /// end of a one-shot channel that is signalled when the queue moves past
    /// this source: once every earlier queued sample has been produced and
    /// this entry itself is retired.
    ///
    /// As in [`Self::append`], the linearized effect on the shared pending
    /// list is one `push` of the new entry, which carries the sending end.
    pub fn append_with_signal(&self, source: SoundSource) -> (r: Receiver<()>) {
        let (sender, receiver) = new_signal_channel();
        let (mut list, handle) = self.next_sounds.acquire_write();
        list.push(QueueEntry { source, signal: Some(sender) });
        handle.release_write(list);
        receiver
    }
}

/// Whether an entry's source still has samples to produce.
pub open spec fn playable(e: QueueEntry) -> bool {
    e.source.samples@.len() > 0
}

/// Index of the first playable entry of `l`, or `l.len()` when there is none.
pub open spec fn first_playable(l: Seq<QueueEntry>) -> nat
    decreases l.len(),
{
    if l.len() == 0 {
        0
    } else if playable(l[0]) {
        0
    } else {
        1 + first_playable(l.skip(1))
    }
}

/// The signals of the unplayable entries before the first playable one of
/// `l`, in queue order: the signals that fire when the whole prefix is
/// retired in one transition.
pub open spec fn prefix_signals(l: Seq<QueueEntry>) -> Seq<Sender<()>>
    decreases l.len(),
{
    if l.len() == 0 || playable(l[0]) {
        Seq::empty()
    } else {
        match l[0].signal {
            Some(s) => seq![s] + prefix_signals(l.skip(1)),
            None => prefix_signals(l.skip(1)),
        }
    }
}

/// What `first_playable` names: everything before it is exhausted, and the
/// entry it points at, when inside the sequence, is playable.
pub proof fn lemma_first_playable(l: Seq<QueueEntry>)
    ensures
        first_playable(l) <= l.len(),
        first_playable(l) < l.len() ==> playable(l[first_playable(l) as int]),
        forall|j: int| 0 <= j < first_playable(l) ==> !playable(#[trigger] l[j]),
    decreases l.len(),
{
    if l.len() == 0 {
    } else if playable(l[0]) {
    } else {
        lemma_first_playable(l.skip(1));
        assert forall|j: int| 0 <= j < first_playable(l) implies !playable(#[trigger] l[j]) by {
            if j > 0 {
                assert(l[j] == l.skip(1)[j - 1]);
            }
        }
    }
}

/// Removes from `list` every entry up to and including the first playable
/// one. Returns the signals of the removed unplayable entries, in order —
/// they are retired without ever playing — and the first playable entry,
/// when there is one. What followed that entry stays in the list.
pub fn scan_pending(list: &mut Vec<QueueEntry>) -> (r: (Vec<Sender<()>>, Option<QueueEntry>))
    ensures
        r.0@ == prefix_signals(old(list)@),
        first_playable(old(list)@) < old(list)@.len() ==> {
            &&& r.1 == Some(old(list)@[first_playable(old(list)@) as int])
            &&& final(list)@ == old(list)@.skip(first_playable(old(list)@) + 1int)
        },
        first_playable(old(list)@) == old(list)@.len() ==> {
            &&& r.1 is None
            &&& final(list)@ == Seq::<QueueEntry>::empty()
        },
{
    let mut fired: Vec<Sender<()>> = Vec::new();
    let ghost l0 = list@;
    let ghost mut k: int = 0;
    proof {
        assert(l0.skip(0) =~= l0);
    }
    while list.len() > 0 && list[0].source.samples.len() == 0
        invariant
            0 <= k <= l0.len(),
            list@ == l0.skip(k),
            first_playable(l0) == k + first_playable(l0.skip(k)),
            prefix_signals(l0) == fired@ + prefix_signals(l0.skip(k)),
        decreases list@.len(),
    {
        let entry = list.remove(0);
        if let Some(s) = entry.signal {
            fired.push(s);
        }
        proof {
            assert(list@ =~= l0.skip(k + 1));
            assert(prefix_signals(l0) =~= fired@ + prefix_signals(l0.skip(k + 1)));
            k = k + 1;
        }
    }
    proof {
        if list.len() > 0 {
            assert(first_playable(l0.skip(k)) == 0);
            assert(prefix_signals(l0.skip(k)) =~= Seq::<Sender<()>>::empty());
        } else {
            assert(list@ =~= Seq::<QueueEntry>::empty());
            assert(l0.skip(k).len() == 0);
            assert(first_playable(l0.skip(k)) == 0);
            assert(prefix_signals(l0.skip(k)) =~= Seq::<Sender<()>>::empty());
            assert(k == l0.len());
        }
        assert(fired@ =~= prefix_signals(l0));
    }
    if list.len() > 0 {
        let entry = list.remove(0);
        proof {
            assert(entry == l0.skip(k)[0]);
            assert(l0.skip(k)[0] == l0[first_playable(l0) as int]);
            assert(list@ =~= l0.skip(first_playable(l0) + 1int));
        }
        (fired, Some(entry))
    } else {
        (fired, None)
    }
}

/// What one transition leaves behind, given the pending entries `l0` that the
/// list lock held at the moment it was acquired: the first playable entry is
/// adopted together with its signal; with none pending, either a fresh
/// silence filler is adopted (keep-alive) or the output is exhausted. The
/// signal the output carried before, and the signals of every retired
/// unplayable entry, have been handed to their channels by then.
pub open spec fn transition_result(
    o: SourcesQueueOutput,
    l0: Seq<QueueEntry>,
    f: SourcesQueueOutput,
    r: Result<(), ()>,
) -> bool {
    let k = first_playable(l0) as int;
    &&& f.keep_alive_if_empty == o.keep_alive_if_empty
    &&& f.input == o.input
    &&& if k < l0.len() {
        &&& r is Ok
        &&& f.current == l0[k].source
        &&& f.signal_after_end == l0[k].signal
        &&& !f.exhausted
    } else if o.keep_alive_if_empty {
        &&& r is Ok
        &&& f.current.samples@ == silence_seq()
        &&& f.current.channels == SILENCE_CHANNELS
        &&& f.current.sample_rate == SILENCE_SAMPLE_RATE
        &&& f.signal_after_end is None
        &&& !f.exhausted
    } else {
        &&& r is Err
        &&& f.current == o.current
        &&& f.signal_after_end is None
        &&& f.exhausted
    }
}

/// What one pull leaves behind when it found the current source exhausted,
/// given the pending entries `l0` that the list lock held at the moment it
/// was acquired: the adopted sound — the first playable pending entry, or a
/// fresh silence filler — has produced its first sample, or the output
/// reports the end.
pub open spec fn pull_result(
    o: SourcesQueueOutput,
    l0: Seq<QueueEntry>,
    f: SourcesQueueOutput,
    r: Option<i16>,
) -> bool {
    let k = first_playable(l0) as int;
    &&& f.keep_alive_if_empty == o.keep_alive_if_empty
    &&& f.input == o.input
    &&& if k < l0.len() {
        &&& r == Some(l0[k].source.samples@[0])
        &&& f.current.samples@ == l0[k].source.samples@.skip(1)
        &&& f.current.channels == l0[k].source.channels
        &&& f.current.sample_rate == l0[k].source.sample_rate
        &&& f.signal_after_end == l0[k].signal
        &&& !f.exhausted
    } else if o.keep_alive_if_empty {
        &&& r == Some(0i16)
        &&& f.current.samples@ == silence_seq().skip(1)
        &&& f.current.channels == SILENCE_CHANNELS
        &&& f.current.sample_rate == SILENCE_SAMPLE_RATE
        &&& f.signal_after_end is None
        &&& !f.exhausted
    } else {
        &&& r is None
        &&& f.current == o.current
        &&& f.signal_after_end is None
        &&& f.exhausted
    }
}

/// The output of the queue: the consumer-facing handle, itself a playable
/// source that sequences whatever the producers append.
pub struct SourcesQueueOutput {
    /// The source samples are currently drawn from.
    pub current: SoundSource,
    /// Fired when `current` is retired: the signal of the entry that
    /// `current` came from, when that entry asked for one.
    pub signal_after_end: Option<Sender<()>>,
    /// The shared input holding the pending list.
    pub input: Arc<SourcesQueueInput>,
    /// Chosen at construction: with `true`, an empty queue plays short runs
    /// of silence and never ends; with `false`, it ends.
    pub keep_alive_if_empty: bool,
    /// Whether the output has reported the end of the stream. Terminal: an
    /// exhausted output produces no further samples on any subsequent pull.
    /// Only reachable when `keep_alive_if_empty` is `false`.
    pub exhausted: bool,
}

/// Builds a new queue. It consists of an input and an output.
///
/// The input adds sounds to the end of the queue, while the output plays the
/// sounds one after the other.
///
/// With `keep_alive_if_empty == true` the queue is infinite and plays a
/// silence whenever it runs dry, until a new sound is added; with `false` the
/// queue reports that it has finished playing.
pub fn queue(keep_alive_if_empty: bool) -> (r: (Arc<SourcesQueueInput>, SourcesQueueOutput))
    ensures
        r.1.keep_alive_if_empty == keep_alive_if_empty,
        r.1.current.samples@ == Seq::<i16>::empty(),
        r.1.current.channels == SILENCE_CHANNELS,
        r.1.current.sample_rate == SILENCE_SAMPLE_RATE,
        r.1.signal_after_end is None,
        r.1.input == r.0,
        !r.1.exhausted,
{
    let input = Arc::new(
        SourcesQueueInput { next_sounds: RwLock::new(Vec::new(), Ghost(PendingPred {})) },
    );
    let output = SourcesQueueOutput {
        current: SoundSource::empty(),
        signal_after_end: None,
        input: input.clone(),
        keep_alive_if_empty,
        exhausted: false,
    };
    (input, output)
}

impl SourcesQueueOutput {
    /// Block length reported by the source currently playing.
    pub fn get_current_frame_len(&self) -> (r: Option<usize>)
        ensures
            r == Some((self.current.samples@.len() as usize)),
    {
        self.current.current_frame_len()
    }

    /// Channel count of the source currently playing.
    pub fn get_channels(&self) -> (r: u16)
        ensures
            r == self.current.channels,
    {
        self.current.channels
    }

    /// Sample rate of the source currently playing.
    pub fn get_samples_rate(&self) -> (r: u32)
        ensures
            r == self.current.sample_rate,
    {
        self.current.sample_rate
    }

    /// Total duration in microseconds: always unknown, since the queue can
    /// always receive more sounds.
    pub fn get_total_duration(&self) -> (r: Option<u128>)
        ensures
            r is None,
    {
        None
    }

    /// Bounds on how many samples are left: at least what the current source
    /// still holds, and no known upper bound, since the queue can always
    /// receive more sounds.
    pub fn size_hint(&self) -> (r: (usize, Option<usize>))
        ensures
            r.0 == self.current.samples@.len(),
            r.1 is None,
    {
        (self.current.samples.len(), None)
    }

    /// Called when `current` is exhausted: retires it — firing its signal —
    /// and adopts the next sound. Returns `Ok` when the sound should continue
    /// playing, `Err` when it should stop.
    ///
    /// The adopted sound is the first pending entry that still has samples;
    /// pending entries with none are retired on the way, their signals fired
    /// in queue order. What the lock held at acquisition is not observable
    /// from outside, so the contract holds for some such list of entries.
    fn go_next(&mut self) -> (r: Result<(), ()>)
        ensures
            exists|l0: Seq<QueueEntry>| transition_result(*old(self), l0, *final(self), r),
            final(self).keep_alive_if_empty == old(self).keep_alive_if_empty,
            final(self).input == old(self).input,
            old(self).keep_alive_if_empty ==> r is Ok,
            r is Ok ==> final(self).current.samples@.len() > 0 && !final(self).exhausted,
            r is Err ==> {
                &&& final(self).current == old(self).current
                &&& final(self).signal_after_end is None
                &&& final(self).exhausted
            },
    {
        // The outgoing sound is retired: its one-shot signal fires now,
        // before the next sound is picked.
        let outgoing = self.signal_after_end.take();
        if let Some(s) = outgoing {
            send_signal(s);
        }
        let (mut list, handle) = self.input.next_sounds.acquire_write();
        let ghost l0 = list@;
        let (mut fired, found) = scan_pending(&mut list);
        handle.release_write(list);
        proof {
            lemma_first_playable(l0);
        }
        // Unplayable entries skipped by the scan were retired too: their
        // signals fire now, in queue order.
        while fired.len() > 0
            decreases fired@.len(),
        {
            let s = fired.remove(0);
            send_signal(s);
        }
        match found {
            Some(entry) => {
                self.current = entry.source;
                self.signal_after_end = entry.signal;
                self.exhausted = false;
                proof {
                    assert(transition_result(*old(self), l0, *self, Ok::<(), ()>(())));
                }
                Ok(())
            },
            None => {
                if self.keep_alive_if_empty {
                    // Play a short silence rather than ending, so a sound
                    // appended later is noticed on the next transition.
                    self.current = silence_source();
                    self.signal_after_end = None;
                    self.exhausted = false;
                    proof {
                        assert(transition_result(*old(self), l0, *self, Ok::<(), ()>(())));
                    }
                    Ok(())
                } else {
                    self.exhausted = true;
                    proof {
                        assert(transition_result(*old(self), l0, *self, Err::<(), ()>(())));
                    }
                    Err(())
                }
            },
        }
    }

    /// Produces the next sample, or reports that the queue has finished
    /// playing.
    ///
    /// While the current source has samples, they are produced in order and
    /// nothing else changes: no lock is taken. When it is exhausted, the
    /// output transitions: the retired sound's signal fires, and the first
    /// playable pending entry — for some pending list, as the producers are
    /// free to append concurrently — takes over, or a silence filler does
    /// (keep-alive), or the queue ends. With keep-alive set, a sample is
    /// always produced. The end is terminal: once this has returned `None`,
    /// it returns `None` on every subsequent pull and changes nothing.
    pub fn next(&mut self) -> (r: Option<i16>)
        ensures
            final(self).keep_alive_if_empty == old(self).keep_alive_if_empty,
            final(self).input == old(self).input,
            old(self).exhausted ==> {
                &&& r is None
                &&& *final(self) == *old(self)
            },
            !old(self).exhausted && old(self).current.samples@.len() > 0 ==> {
                &&& r == Some(old(self).current.samples@[0])
                &&& final(self).current.samples@ == old(self).current.samples@.skip(1)
                &&& final(self).current.channels == old(self).current.channels
                &&& final(self).current.sample_rate == old(self).current.sample_rate
                &&& final(self).signal_after_end == old(self).signal_after_end
                &&& final(self).exhausted == old(self).exhausted
            },
            !old(self).exhausted && old(self).current.samples@.len() == 0 ==> (exists|
                l0: Seq<QueueEntry>,
            |
                pull_result(*old(self), l0, *final(self), r)),
            old(self).keep_alive_if_empty && !old(self).exhausted ==> {
                &&& r is Some
                &&& !final(self).exhausted
            },
            r is None ==> final(self).exhausted,
            r is None && !old(self).exhausted ==> !final(self).keep_alive_if_empty,
            r is None ==> final(self).current == old(self).current,
            r is Some ==> !final(self).exhausted,
    {
        // The end of the stream is terminal.
        if self.exhausted {
            return None;
        }
        // Basic situation that will happen most of the time: no lock taken.
        if let Some(sample) = self.current.next_sample() {
            return Some(sample);
        }
        // `current` is exhausted: retire it and adopt the next sound.
        let step = self.go_next();
        let ghost mid = *self;
        let ghost l0 = choose|l0: Seq<QueueEntry>| transition_result(*old(self), l0, mid, step);
        proof {
            assert(transition_result(*old(self), l0, mid, step));
            lemma_first_playable(l0);
        }
        match step {
            Ok(()) => {
                let out = self.current.next_sample();
                proof {
                    assert(pull_result(*old(self), l0, *self, out));
                }
                out
            },
            Err(()) => {
                proof {
                    assert(pull_result(*old(self), l0, *self, None::<i16>));
                }
                None
            },
        }
    }
}

} // verus!
