use std::sync::mpsc::TryRecvError;

use sound_queue::queue::queue;
use sound_queue::queue::scan_pending;
use sound_queue::queue::QueueEntry;
use sound_queue::source::silence_source;
use sound_queue::source::SoundSource;
use sound_queue::source::SILENCE_SAMPLE_COUNT;

fn buffer(samples: Vec<i16>) -> SoundSource {
    SoundSource::new(samples, 2, 44100)
}

#[test]
fn fifo_order() {
    let (input, mut output) = queue(false);
    input.append(buffer(vec![1, 2]));
    input.append(buffer(vec![3]));
    input.append(buffer(vec![4, 5]));
    let mut played: Vec<i16> = Vec::new();
    while let Some(s) = output.next() {
        played.push(s);
    }
    assert_eq!(played, vec![1, 2, 3, 4, 5]);
}

#[test]
fn exhaustion_is_immediate_without_keep_alive() {
    let (_input, mut output) = queue(false);
    assert_eq!(output.next(), None);
}

#[test]
fn exhausted_output_stays_exhausted() {
    let (input, mut output) = queue(false);
    input.append(buffer(vec![9]));
    assert_eq!(output.next(), Some(9));
    assert_eq!(output.next(), None);
    assert_eq!(output.next(), None);
    // The end is terminal: a sound appended afterwards is not played.
    input.append(buffer(vec![10]));
    assert_eq!(output.next(), None);
}

#[test]
fn keep_alive_plays_silence() {
    let (_input, mut output) = queue(true);
    for _ in 0..(3 * SILENCE_SAMPLE_COUNT) {
        assert_eq!(output.next(), Some(0));
    }
}

#[test]
fn keep_alive_picks_up_append_within_one_filler() {
    let (input, mut output) = queue(true);
    // Three pulls into the first silence filler...
    assert_eq!(output.next(), Some(0));
    assert_eq!(output.next(), Some(0));
    assert_eq!(output.next(), Some(0));
    // ...a sound arrives; the rest of the filler plays out first.
    input.append(buffer(vec![7]));
    for _ in 0..(SILENCE_SAMPLE_COUNT - 3) {
        assert_eq!(output.next(), Some(0));
    }
    assert_eq!(output.next(), Some(7));
}

#[test]
fn signal_fires_exactly_once_when_entry_is_retired() {
    let (input, mut output) = queue(false);
    let receiver = input.append_with_signal(buffer(vec![7, 8]));
    input.append(buffer(vec![9]));
    assert_eq!(output.next(), Some(7));
    assert_eq!(output.next(), Some(8));
    // All its samples are out, but the entry is only retired on the next pull.
    assert_eq!(receiver.try_recv(), Err(TryRecvError::Empty));
    assert_eq!(output.next(), Some(9));
    assert_eq!(receiver.try_recv(), Ok(()));
    // Exactly once: nothing more ever arrives.
    assert!(receiver.try_recv().is_err());
}

#[test]
fn signal_fires_when_queue_ends() {
    let (input, mut output) = queue(false);
    let receiver = input.append_with_signal(buffer(vec![1]));
    assert_eq!(output.next(), Some(1));
    assert_eq!(receiver.try_recv(), Err(TryRecvError::Empty));
    assert_eq!(output.next(), None);
    assert_eq!(receiver.try_recv(), Ok(()));
}

#[test]
fn signal_fires_after_all_earlier_sources() {
    let (input, mut output) = queue(false);
    input.append(buffer(vec![1, 2, 3]));
    let receiver = input.append_with_signal(buffer(vec![4]));
    input.append(buffer(vec![5]));
    assert_eq!(output.next(), Some(1));
    assert_eq!(output.next(), Some(2));
    assert_eq!(receiver.try_recv(), Err(TryRecvError::Empty));
    assert_eq!(output.next(), Some(3));
    assert_eq!(output.next(), Some(4));
    assert_eq!(receiver.try_recv(), Err(TryRecvError::Empty));
    assert_eq!(output.next(), Some(5));
    assert_eq!(receiver.try_recv(), Ok(()));
}

#[test]
fn dropped_receiver_is_tolerated() {
    let (input, mut output) = queue(false);
    let receiver = input.append_with_signal(buffer(vec![1]));
    drop(receiver);
    input.append(buffer(vec![2]));
    assert_eq!(output.next(), Some(1));
    assert_eq!(output.next(), Some(2));
    assert_eq!(output.next(), None);
}

#[test]
fn empty_sources_are_skipped_and_their_signals_fire() {
    let (input, mut output) = queue(false);
    let first = input.append_with_signal(buffer(vec![]));
    let second = input.append_with_signal(buffer(vec![]));
    input.append(buffer(vec![2]));
    assert_eq!(output.next(), Some(2));
    assert_eq!(first.try_recv(), Ok(()));
    assert_eq!(second.try_recv(), Ok(()));
    assert_eq!(output.next(), None);
}

#[test]
fn every_appended_source_plays_exactly_once() {
    let (input, mut output) = queue(false);
    // Several producer handles to the same queue, as producer threads hold.
    let producers = vec![input.clone(), input.clone(), input.clone(), input.clone()];
    let mut value: i16 = 0;
    for handle in &producers {
        for _ in 0..3 {
            handle.append(buffer(vec![value]));
            value += 1;
        }
    }
    let mut played: Vec<i16> = Vec::new();
    while let Some(s) = output.next() {
        played.push(s);
    }
    assert_eq!(played, (0..12).collect::<Vec<i16>>());
}

#[test]
fn metadata_follows_the_current_source() {
    let (input, mut output) = queue(false);
    // Before anything plays, the placeholder's format is reported.
    assert_eq!(output.get_channels(), 1);
    assert_eq!(output.get_samples_rate(), 44000);
    assert_eq!(output.get_current_frame_len(), Some(0));
    assert_eq!(output.size_hint(), (0, None));
    input.append(SoundSource::new(vec![5, 6], 3, 8000));
    assert_eq!(output.next(), Some(5));
    assert_eq!(output.get_channels(), 3);
    assert_eq!(output.get_samples_rate(), 8000);
    assert_eq!(output.get_current_frame_len(), Some(1));
    assert_eq!(output.size_hint(), (1, None));
    // The total duration is always unknown.
    assert_eq!(output.get_total_duration(), None);
}

#[test]
fn silence_filler_format() {
    let s = silence_source();
    assert_eq!(s.samples.len(), SILENCE_SAMPLE_COUNT);
    assert!(s.samples.iter().all(|&x| x == 0));
    assert_eq!(s.channels, 1);
    assert_eq!(s.sample_rate, 44000);
    // 440 mono samples at 44 kHz: 10 ms.
    assert_eq!(s.total_duration_micros(), Some(10000));
}

#[test]
fn source_produces_samples_in_order() {
    let mut s = SoundSource::new(vec![4, 5, 6], 2, 48000);
    assert_eq!(s.next_sample(), Some(4));
    assert_eq!(s.next_sample(), Some(5));
    assert_eq!(s.next_sample(), Some(6));
    assert_eq!(s.next_sample(), None);
    assert_eq!(s.next_sample(), None);
    assert_eq!(s.channels, 2);
    assert_eq!(s.sample_rate, 48000);
}

#[test]
fn total_duration_of_a_source() {
    // 88200 samples over 2 channels at 44100 Hz: exactly one second.
    let s = SoundSource::new(vec![0; 88200], 2, 44100);
    assert_eq!(s.total_duration_micros(), Some(1_000_000));
    let no_rate = SoundSource::new(vec![0; 10], 1, 0);
    assert_eq!(no_rate.total_duration_micros(), None);
    let no_channels = SoundSource::new(vec![0; 10], 0, 44100);
    assert_eq!(no_channels.total_duration_micros(), None);
}

#[test]
fn scan_skips_unplayable_entries_and_collects_their_signals() {
    let (first_tx, first_rx) = std::sync::mpsc::channel();
    let mut list = vec![
        QueueEntry { source: buffer(vec![]), signal: Some(first_tx) },
        QueueEntry { source: buffer(vec![]), signal: None },
        QueueEntry { source: buffer(vec![7]), signal: None },
        QueueEntry { source: buffer(vec![8]), signal: None },
    ];
    let (fired, found) = scan_pending(&mut list);
    assert_eq!(fired.len(), 1);
    let entry = found.expect("a playable entry");
    assert_eq!(entry.source.samples, vec![7]);
    assert_eq!(list.len(), 1);
    assert_eq!(list[0].source.samples, vec![8]);
    // The collected signal belongs to the first entry.
    for s in fired {
        let _ = s.send(());
    }
    assert_eq!(first_rx.try_recv(), Ok(()));
}

#[test]
fn scan_of_all_unplayable_entries_empties_the_list() {
    let mut list = vec![
        QueueEntry { source: buffer(vec![]), signal: None },
        QueueEntry { source: buffer(vec![]), signal: None },
    ];
    let (fired, found) = scan_pending(&mut list);
    assert_eq!(fired.len(), 0);
    assert!(found.is_none());
    assert!(list.is_empty());
}
