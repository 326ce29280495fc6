//! A model of draining the queue with no interleaved producer, and the laws
//! it obeys: samples come out in append order, and every completion signal
//! fires exactly once, after all samples of its own source and of every
//! source queued before it, at the moment its entry is retired.
//!
//! The model replays, step for step, what the contracts of
//! [`crate::queue::SourcesQueueOutput::next`] say a pull does, for an output
//! that is not kept alive when empty, starting from a known current source
//! and a known pending list that no producer touches again.

use std::sync::mpsc::Sender;
use vstd::prelude::*;
use crate::queue::QueueEntry;
use crate::queue::first_playable;
use crate::queue::playable;
use crate::queue::prefix_signals;

verus! {

/// One observable step of the draining output: a sample handed to the
/// consumer, or a one-shot completion signal handed to its channel.
pub enum PlayEvent {
    Sample(i16),
    Signal(Sender<()>),
}

/// The samples `s`, in order, as events.
pub open spec fn sample_events(s: Seq<i16>) -> Seq<PlayEvent> {
    Seq::new(s.len(), |i: int| PlayEvent::Sample(s[i]))
}

/// The firing of an optional signal: one event, or none.
pub open spec fn signal_events(sig: Option<Sender<()>>) -> Seq<PlayEvent> {
    match sig {
        Some(s) => seq![PlayEvent::Signal(s)],
        None => Seq::empty(),
    }
}

/// The signal firings of one transition's retired unplayable prefix, in
/// queue order: `prefix_signals` of the pending list, as events.
pub open spec fn fired_events(l: Seq<QueueEntry>) -> Seq<PlayEvent>
    decreases l.len(),
{
    if l.len() == 0 || playable(l[0]) {
        Seq::empty()
    } else {
        signal_events(l[0].signal) + fired_events(l.skip(1))
    }
}

/// Everything one queued entry contributes: all its samples, then its
/// signal, if it carries one.
pub open spec fn entry_events(e: QueueEntry) -> Seq<PlayEvent> {
    sample_events(e.source.samples@) + signal_events(e.signal)
}

/// Everything a pending list contributes, entry after entry in queue order.
pub open spec fn entries_events(l: Seq<QueueEntry>) -> Seq<PlayEvent>
    decreases l.len(),
{
    if l.len() == 0 {
        Seq::empty()
    } else {
        entry_events(l[0]) + entries_events(l.skip(1))
    }
}

/// Every event a queue output emits, pulled until it reports the end, when
/// no producer interleaves: the current source holds the samples `cs` and
/// owes the signal `sig`, the pending list holds `l`, and the output is not
/// kept alive when empty. Each step is the one the contract of a pull names:
/// produce the current source's next sample; or retire it — firing `sig` and
/// the signals of the unplayable pending prefix — and adopt the first
/// playable pending entry; or end.
pub open spec fn drain_events(cs: Seq<i16>, sig: Option<Sender<()>>, l: Seq<QueueEntry>) -> Seq<
    PlayEvent,
>
    decreases l.len(), cs.len(),
{
    if cs.len() > 0 {
        seq![PlayEvent::Sample(cs[0])] + drain_events(cs.skip(1), sig, l)
    } else {
        let k = first_playable(l) as int;
        if k < l.len() {
            signal_events(sig) + fired_events(l) + drain_events(
                l[k].source.samples@,
                l[k].signal,
                l.skip(k + 1),
            )
        } else {
            signal_events(sig) + fired_events(l)
        }
    }
}

/// `fired_events` is exactly `prefix_signals` — what the verified scan of
/// the pending list hands out for firing — turned into events.
pub proof fn lemma_fired_events_are_prefix_signals(l: Seq<QueueEntry>)
    ensures
        fired_events(l) == Seq::new(
            prefix_signals(l).len(),
            |i: int| PlayEvent::Signal(prefix_signals(l)[i]),
        ),
    decreases l.len(),
{
    let want = Seq::new(prefix_signals(l).len(), |i: int| PlayEvent::Signal(prefix_signals(l)[i]));
    if l.len() == 0 || playable(l[0]) {
        assert(fired_events(l) =~= want);
    } else {
        lemma_fired_events_are_prefix_signals(l.skip(1));
        assert(fired_events(l) =~= want);
    }
}

/// Splitting a pending list at its first playable entry: the unplayable
/// prefix contributes only its signal firings, and the rest follows entry
/// after entry.
proof fn lemma_entries_events_split(l: Seq<QueueEntry>)
    ensures
        ({
            let k = first_playable(l) as int;
            if k < l.len() {
                entries_events(l) == fired_events(l) + entry_events(l[k]) + entries_events(
                    l.skip(k + 1),
                )
            } else {
                entries_events(l) == fired_events(l)
            }
        }),
    decreases l.len(),
{
    let k = first_playable(l) as int;
    if l.len() == 0 {
    } else if playable(l[0]) {
        assert(entries_events(l) =~= fired_events(l) + entry_events(l[0]) + entries_events(
            l.skip(1),
        ));
    } else {
        lemma_entries_events_split(l.skip(1));
        assert(sample_events(l[0].source.samples@) =~= Seq::<PlayEvent>::empty());
        assert(entry_events(l[0]) =~= signal_events(l[0].signal));
        let k1 = first_playable(l.skip(1)) as int;
        assert(k == 1 + k1);
        if k < l.len() {
            assert(l.skip(1)[k1] == l[k]);
            assert(l.skip(1).skip(k1 + 1) =~= l.skip(k + 1));
            assert(entries_events(l) =~= fired_events(l) + entry_events(l[k]) + entries_events(
                l.skip(k + 1),
            ));
        } else {
            assert(entries_events(l) =~= fired_events(l));
        }
    }
}

/// The law of the queue, drained with no interleaved producer and no
/// keep-alive: the events are exactly the current source's remaining samples
/// in order, then the signal it owes, then — entry after entry, in append
/// order — every queued source's samples followed by its own signal. So the
/// sources play first-in first-out, and every signal fires exactly once,
/// after all samples of every source queued up to and including its own,
/// exactly when its entry is retired.
pub proof fn lemma_fifo_events(cs: Seq<i16>, sig: Option<Sender<()>>, l: Seq<QueueEntry>)
    ensures
        drain_events(cs, sig, l) == sample_events(cs) + signal_events(sig) + entries_events(l),
    decreases l.len(), cs.len(),
{
    if cs.len() > 0 {
        lemma_fifo_events(cs.skip(1), sig, l);
        assert(sample_events(cs.skip(1)) =~= sample_events(cs).skip(1));
        assert(drain_events(cs, sig, l) =~= sample_events(cs) + signal_events(sig)
            + entries_events(l));
    } else {
        assert(sample_events(cs) =~= Seq::<PlayEvent>::empty());
        let k = first_playable(l) as int;
        lemma_entries_events_split(l);
        if k < l.len() {
            lemma_fifo_events(l[k].source.samples@, l[k].signal, l.skip(k + 1));
            assert(drain_events(cs, sig, l) =~= sample_events(cs) + signal_events(sig)
                + entries_events(l));
        } else {
            assert(drain_events(cs, sig, l) =~= sample_events(cs) + signal_events(sig)
                + entries_events(l));
        }
    }
}

} // verus!
