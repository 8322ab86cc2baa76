use bass_pitch::channel::{
    publish_outcome, read_input_stream, result_channel, Publication, PublishOutcome,
    SendAttempt, StreamReceiver, CHANNEL_CAPACITY,
};
use bass_pitch::classifier::{BassInput, CurrentBassNote};
use bass_pitch::estimate::PitchEstimate;
use bass_pitch::table::FrequencyRangeTable;

fn heard(millihertz: u32) -> Option<PitchEstimate> {
    let e = PitchEstimate::new(millihertz, 900);
    assert!(e.is_some());
    e
}

fn tick(receiver: &StreamReceiver, chord: &str, fret: i8) -> Option<BassInput> {
    let table = FrequencyRangeTable::standard();
    let current = CurrentBassNote { chord: chord.to_string(), fret };
    read_input_stream(receiver, &current, &table).event
}

#[test]
fn channel_holds_one_reading() {
    assert_eq!(CHANNEL_CAPACITY, 1);
    let (sender, receiver) = result_channel();
    assert_eq!(sender.capacity(), Some(1));
    assert_eq!(receiver.capacity(), Some(1));
}

#[test]
fn report_holds_what_the_channel_answered() {
    let (sender, _receiver) = result_channel();
    assert_eq!(
        sender.publish(heard(30_000)),
        Publication { first: SendAttempt::Sent, retry: None, outcome: PublishOutcome::Delivered }
    );
    assert_eq!(
        sender.publish(heard(31_000)),
        Publication {
            first: SendAttempt::Full(heard(31_000)),
            retry: Some(SendAttempt::Sent),
            outcome: PublishOutcome::Replaced,
        }
    );
    assert_eq!(
        sender.publish(None),
        Publication {
            first: SendAttempt::Full(None),
            retry: Some(SendAttempt::Sent),
            outcome: PublishOutcome::Replaced,
        }
    );
}

#[test]
fn tick_hands_out_the_readings_it_took() {
    let table = FrequencyRangeTable::standard();
    let (sender, receiver) = result_channel();
    let current = CurrentBassNote { chord: "E".to_string(), fret: 0 };
    let empty = read_input_stream(&receiver, &current, &table);
    assert_eq!(empty.readings, vec![]);
    assert_eq!(empty.event, None);
    sender.publish(heard(50_000));
    sender.publish(heard(20_500));
    let tick = read_input_stream(&receiver, &current, &table);
    assert_eq!(tick.readings, vec![heard(20_500)]);
    assert_eq!(tick.event, Some(BassInput(true)));
    sender.publish(None);
    let tick = read_input_stream(&receiver, &current, &table);
    assert_eq!(tick.readings, vec![None]);
    assert_eq!(tick.event, Some(BassInput(false)));
}

#[test]
fn empty_channel_gives_nothing() {
    let (_sender, receiver) = result_channel();
    assert_eq!(tick(&receiver, "E", 0), None);
    assert_eq!(tick(&receiver, "E", 0), None);
}

#[test]
fn send_into_empty_channel_is_delivered() {
    let (sender, receiver) = result_channel();
    assert_eq!(sender.publish(heard(20_500)).outcome, PublishOutcome::Delivered);
    assert_eq!(tick(&receiver, "E", 0), Some(BassInput(true)));
    assert_eq!(tick(&receiver, "E", 0), None);
}

#[test]
fn send_into_full_channel_overwrites() {
    let (sender, receiver) = result_channel();
    assert_eq!(sender.publish(heard(50_000)).outcome, PublishOutcome::Delivered);
    assert_eq!(sender.publish(heard(60_000)).outcome, PublishOutcome::Replaced);
    assert_eq!(sender.publish(None).outcome, PublishOutcome::Replaced);
    assert_eq!(sender.publish(heard(20_500)).outcome, PublishOutcome::Replaced);
    assert_eq!(tick(&receiver, "E", 0), Some(BassInput(true)));
    assert_eq!(tick(&receiver, "E", 0), None);
}

#[test]
fn overwritten_hit_is_lost() {
    let (sender, receiver) = result_channel();
    assert_eq!(sender.publish(heard(20_500)).outcome, PublishOutcome::Delivered);
    assert_eq!(sender.publish(heard(50_000)).outcome, PublishOutcome::Replaced);
    assert_eq!(tick(&receiver, "E", 0), Some(BassInput(false)));
    assert_eq!(tick(&receiver, "E", 0), None);
}

#[test]
fn readings_arrive_in_order() {
    let (sender, receiver) = result_channel();
    sender.publish(heard(26_000));
    assert_eq!(tick(&receiver, "A", 0), Some(BassInput(true)));
    sender.publish(None);
    assert_eq!(tick(&receiver, "A", 0), Some(BassInput(false)));
    sender.publish(heard(29_000));
    sender.publish(heard(31_000));
    assert_eq!(tick(&receiver, "A", 2), Some(BassInput(true)));
    assert_eq!(tick(&receiver, "A", 1), None);
}

#[test]
fn sender_keeps_the_channel_open() {
    let (sender, receiver) = result_channel();
    drop(receiver);
    assert_eq!(sender.publish(heard(30_000)).outcome, PublishOutcome::Delivered);
    assert_eq!(sender.publish(heard(31_000)).outcome, PublishOutcome::Replaced);
}

#[test]
fn receiver_outlives_the_sender() {
    let (sender, receiver) = result_channel();
    assert_eq!(sender.publish(heard(37_000)).outcome, PublishOutcome::Delivered);
    drop(sender);
    assert_eq!(tick(&receiver, "D", 0), Some(BassInput(true)));
    assert_eq!(tick(&receiver, "D", 0), None);
}

#[test]
fn outcome_follows_the_answers() {
    let r = heard(30_000);
    assert_eq!(publish_outcome(SendAttempt::Sent, None), PublishOutcome::Delivered);
    assert_eq!(
        publish_outcome(SendAttempt::Sent, Some(SendAttempt::Full(r))),
        PublishOutcome::Delivered
    );
    assert_eq!(publish_outcome(SendAttempt::Disconnected(r), None), PublishOutcome::Closed);
    assert_eq!(
        publish_outcome(SendAttempt::Full(r), Some(SendAttempt::Sent)),
        PublishOutcome::Replaced
    );
    assert_eq!(
        publish_outcome(SendAttempt::Full(r), Some(SendAttempt::Full(r))),
        PublishOutcome::Crowded
    );
    assert_eq!(
        publish_outcome(SendAttempt::Full(r), Some(SendAttempt::Disconnected(r))),
        PublishOutcome::Closed
    );
    assert_eq!(publish_outcome(SendAttempt::Full(r), None), PublishOutcome::Crowded);
}

#[test]
fn every_estimate_is_published() {
    let table = FrequencyRangeTable::standard();
    let (sender, receiver) = result_channel();
    let current = CurrentBassNote { chord: "E".to_string(), fret: 0 };
    for millihertz in [1, 5_000, 19_999, 20_000, 20_001, 87_999, 88_000, 90_000, 95_000, 440_000]
    {
        assert_eq!(sender.publish(heard(millihertz)).outcome, PublishOutcome::Delivered);
        let tick = read_input_stream(&receiver, &current, &table);
        assert_eq!(tick.readings, vec![heard(millihertz)]);
    }
    assert_eq!(sender.publish(None).outcome, PublishOutcome::Delivered);
    assert_eq!(read_input_stream(&receiver, &current, &table).readings, vec![None]);
}

#[test]
fn outer_ends_of_the_table_are_reached() {
    let (sender, receiver) = result_channel();
    sender.publish(heard(20_000));
    assert_eq!(tick(&receiver, "E", 0), Some(BassInput(true)));
    sender.publish(heard(88_000));
    assert_eq!(tick(&receiver, "G", 10), Some(BassInput(true)));
    sender.publish(heard(19_999));
    assert_eq!(tick(&receiver, "E", 0), Some(BassInput(false)));
    sender.publish(heard(88_001));
    assert_eq!(tick(&receiver, "G", 10), Some(BassInput(false)));
}

#[test]
fn wrong_note_above_the_table_is_a_miss() {
    let (sender, receiver) = result_channel();
    sender.publish(heard(95_000));
    assert_eq!(tick(&receiver, "G", 10), Some(BassInput(false)));
    sender.publish(heard(440_000));
    assert_eq!(tick(&receiver, "E", 0), Some(BassInput(false)));
    sender.publish(heard(5_000));
    assert_eq!(tick(&receiver, "E", 0), Some(BassInput(false)));
}

#[test]
fn tick_reads_the_newest_reading() {
    let (sender, receiver) = result_channel();
    assert_eq!(tick(&receiver, "E", 0), None);
    sender.publish(heard(50_000));
    sender.publish(heard(20_500));
    assert_eq!(tick(&receiver, "E", 0), Some(BassInput(true)));
    assert_eq!(tick(&receiver, "E", 0), None);
    sender.publish(heard(21_500));
    assert_eq!(tick(&receiver, "E", 0), Some(BassInput(false)));
    sender.publish(None);
    assert_eq!(tick(&receiver, "E", 0), Some(BassInput(false)));
}

#[test]
fn tick_without_active_note_takes_the_reading_and_skips() {
    let table = FrequencyRangeTable::standard();
    let (sender, receiver) = result_channel();
    sender.publish(heard(20_500));
    let skipped = read_input_stream(&receiver, &CurrentBassNote::none(), &table);
    assert_eq!(skipped.event, None);
    assert_eq!(skipped.readings, vec![heard(20_500)]);
    assert_eq!(tick(&receiver, "E", 0), None);
}
