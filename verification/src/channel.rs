//! The hand-over of readings from the capture thread to the game thread: a
//! `crossbeam_channel` of capacity one in which the newest reading takes
//! the place of one that was not yet read.
//!
//! What the channel holds at any moment depends on the thread at its other
//! end, so nothing here states it. The decisions that are made on what the
//! channel answered are functions of those answers and are stated exactly.

use vstd::prelude::*;
use crate::classifier::{
    classify_latest, spec_classify_latest, BassInput, CurrentBassNote, ExpectedNote,
};
use crate::estimate::PitchEstimate;
use crate::table::FrequencyRangeTable;

verus! {

/// `crossbeam_channel::Sender`, the sending handle of a channel. Nothing
/// is known of what is inside it.
#[verifier::external_type_specification]
#[verifier::external_body]
#[verifier::reject_recursive_types(T)]
pub struct ExSender<T>(crossbeam_channel::Sender<T>);

/// `crossbeam_channel::Receiver`, the receiving handle of a channel.
/// Nothing is known of what is inside it.
#[verifier::external_type_specification]
#[verifier::external_body]
#[verifier::reject_recursive_types(T)]
pub struct ExReceiver<T>(crossbeam_channel::Receiver<T>);

/// What one analysis window came to: an estimate, or `None` for "no pitch".
/// Every window has a reading, and every reading is published; whether an
/// estimate is a hit or a miss is for the classifier to say.
pub type Reading = Option<PitchEstimate>;

/// The number of readings that the channel holds.
pub const CHANNEL_CAPACITY: usize = 1;

/// The answer of the channel to one attempt to send.
#[derive(Clone, Copy, Debug, PartialEq, Eq, Structural)]
pub enum SendAttempt {
    /// The reading is in the channel.
    Sent,
    /// The channel was full. The reading comes back.
    Full(Reading),
    /// The receiving end is gone. The reading comes back.
    Disconnected(Reading),
}

/// What became of a reading that was published.
#[derive(Clone, Copy, Debug, PartialEq, Eq, Structural)]
pub enum PublishOutcome {
    /// The channel had room for the reading.
    Delivered,
    /// The channel was full; room was made and the reading went in.
    Replaced,
    /// The channel was full and was full again after room was made.
    Crowded,
    /// The receiving end is gone.
    Closed,
}

/// What `crossbeam_channel::Sender::capacity` answers for a sending handle:
/// the number of messages that its channel was made to hold, where the
/// channel is bounded.
pub uninterp spec fn sender_capacity(tx: crossbeam_channel::Sender<Reading>) -> Option<usize>;

/// What `crossbeam_channel::Receiver::capacity` answers for a receiving
/// handle: the number of messages that its channel was made to hold, where
/// the channel is bounded.
pub uninterp spec fn receiver_capacity(rx: crossbeam_channel::Receiver<Reading>) -> Option<usize>;

/// `crossbeam_channel::bounded`: a sender and a receiver for a new channel
/// that holds `cap` messages, which is what both handles then answer for
/// their capacity. The call panics on a capacity too large to lay out, so
/// only small ones are let in.
#[verifier::external_body]
pub(crate) fn chan_bounded(cap: usize) -> (ends: (
    crossbeam_channel::Sender<Reading>,
    crossbeam_channel::Receiver<Reading>,
))
    requires
        0 < cap <= 0xffff,
    ensures
        sender_capacity(ends.0) == Some(cap),
        receiver_capacity(ends.1) == Some(cap),
{
    crossbeam_channel::bounded(cap)
}

/// `crossbeam_channel::Receiver::clone`: one more handle on the same
/// channel, which answers the same for its capacity.
#[verifier::external_body]
pub(crate) fn chan_clone_receiver(rx: &crossbeam_channel::Receiver<Reading>) -> (r:
    crossbeam_channel::Receiver<Reading>)
    ensures
        receiver_capacity(r) == receiver_capacity(*rx),
{
    rx.clone()
}

/// `crossbeam_channel::Sender::capacity`: the capacity that the channel was
/// made with, where it is bounded.
#[verifier::external_body]
pub(crate) fn chan_sender_capacity(tx: &crossbeam_channel::Sender<Reading>) -> (r: Option<usize>)
    ensures
        r == sender_capacity(*tx),
{
    tx.capacity()
}

/// `crossbeam_channel::Receiver::capacity`: the capacity that the channel
/// was made with, where it is bounded.
#[verifier::external_body]
pub(crate) fn chan_receiver_capacity(rx: &crossbeam_channel::Receiver<Reading>) -> (r: Option<
    usize,
>)
    ensures
        r == receiver_capacity(*rx),
{
    rx.capacity()
}

/// `crossbeam_channel::Sender::try_send`: sends without waiting. A message
/// that was not taken comes back as it was given.
#[verifier::external_body]
pub(crate) fn chan_try_send(tx: &crossbeam_channel::Sender<Reading>, msg: Reading) -> (r:
    SendAttempt)
    ensures
        r matches SendAttempt::Full(m) ==> m == msg,
        r matches SendAttempt::Disconnected(m) ==> m == msg,
{
    match tx.try_send(msg) {
        Ok(()) => SendAttempt::Sent,
        Err(crossbeam_channel::TrySendError::Full(m)) => SendAttempt::Full(m),
        Err(crossbeam_channel::TrySendError::Disconnected(m)) => SendAttempt::Disconnected(m),
    }
}

/// `crossbeam_channel::Receiver::try_recv`: takes the oldest message out
/// without waiting, if one is there. What comes back depends on the other
/// thread, so nothing is claimed of it.
#[verifier::external_body]
pub(crate) fn chan_try_recv(rx: &crossbeam_channel::Receiver<Reading>) -> (r: Option<Reading>) {
    rx.try_recv().ok()
}

/// `crossbeam_channel::Receiver::try_iter`: takes out, without waiting,
/// the messages that are there, oldest first. What comes back depends on
/// the other thread, so nothing is claimed of it.
#[verifier::external_body]
pub(crate) fn chan_try_iter(rx: &crossbeam_channel::Receiver<Reading>) -> (v: Vec<Reading>) {
    rx.try_iter().collect()
}

/// What became of a reading, told from the channel's answers: `first` to
/// sending it, and `retry` to sending it again after room was made, which
/// is tried only where the first answer was "full".
pub open spec fn spec_publish_outcome(first: SendAttempt, retry: Option<SendAttempt>) -> PublishOutcome {
    match first {
        SendAttempt::Sent => PublishOutcome::Delivered,
        SendAttempt::Disconnected(_) => PublishOutcome::Closed,
        SendAttempt::Full(_) => match retry {
            Some(SendAttempt::Sent) => PublishOutcome::Replaced,
            Some(SendAttempt::Disconnected(_)) => PublishOutcome::Closed,
            Some(SendAttempt::Full(_)) => PublishOutcome::Crowded,
            None => PublishOutcome::Crowded,
        },
    }
}

/// What became of a reading, told from the channel's answers.
pub fn publish_outcome(first: SendAttempt, retry: Option<SendAttempt>) -> (outcome: PublishOutcome)
    ensures
        outcome == spec_publish_outcome(first, retry),
{
    match first {
        SendAttempt::Sent => PublishOutcome::Delivered,
        SendAttempt::Disconnected(_) => PublishOutcome::Closed,
        SendAttempt::Full(_) => match retry {
            Some(SendAttempt::Sent) => PublishOutcome::Replaced,
            Some(SendAttempt::Disconnected(_)) => PublishOutcome::Closed,
            Some(SendAttempt::Full(_)) => PublishOutcome::Crowded,
            None => PublishOutcome::Crowded,
        },
    }
}

/// What the channel answered while one reading was published, and what
/// that came to.
#[derive(Clone, Copy, Debug, PartialEq, Eq, Structural)]
pub struct Publication {
    /// The answer to sending the reading.
    pub first: SendAttempt,
    /// The answer to sending it again after room was made. There is one
    /// exactly where the first answer was "full".
    pub retry: Option<SendAttempt>,
    /// What became of the reading.
    pub outcome: PublishOutcome,
}

/// Whether `report` is a report of publishing `reading`: the reading was
/// sent once, and once more exactly where the channel was found full; a
/// reading that came back is the one that was sent; and the outcome is the
/// one that follows from the two answers.
pub open spec fn spec_published(report: Publication, reading: Reading) -> bool {
    &&& report.retry is Some <==> report.first is Full
    &&& report.first matches SendAttempt::Full(back) ==> back == reading
    &&& report.first matches SendAttempt::Disconnected(back) ==> back == reading
    &&& report.retry matches Some(SendAttempt::Full(back)) ==> back == reading
    &&& report.retry matches Some(SendAttempt::Disconnected(back)) ==> back == reading
    &&& report.outcome == spec_publish_outcome(report.first, report.retry)
}

/// What one tick of the game found.
#[derive(Debug)]
pub struct Tick {
    /// The readings that were taken off the channel, oldest first.
    pub readings: Vec<Reading>,
    /// The newest of them classified against the note under the pick, or
    /// `None` where there was no reading or no note.
    pub event: Option<BassInput>,
}

/// The sending end, held by the capture thread. It holds a receiving handle
/// of its own to make room with, so the channel stays open for as long as
/// the sender lives.
pub struct EstimateSender {
    tx: crossbeam_channel::Sender<Reading>,
    stale: crossbeam_channel::Receiver<Reading>,
}

/// The receiving end, held by the game thread.
pub struct StreamReceiver {
    rx: crossbeam_channel::Receiver<Reading>,
}

/// A new channel of capacity one, as its two ends.
pub fn result_channel() -> (ends: (EstimateSender, StreamReceiver))
    ensures
        ends.0.spec_capacity() == Some(CHANNEL_CAPACITY),
        ends.1.spec_capacity() == Some(CHANNEL_CAPACITY),
{
    let (tx, rx) = chan_bounded(CHANNEL_CAPACITY);
    let stale = chan_clone_receiver(&rx);
    (EstimateSender { tx, stale }, StreamReceiver { rx })
}

impl EstimateSender {
    /// The number of readings that the channel was made to hold.
    pub closed spec fn spec_capacity(&self) -> Option<usize> {
        sender_capacity(self.tx)
    }

    /// The number of readings that the channel was made to hold.
    pub fn capacity(&self) -> (n: Option<usize>)
        ensures
            n == self.spec_capacity(),
    {
        chan_sender_capacity(&self.tx)
    }

    /// Puts what one window came to into the channel without ever waiting:
    /// every estimate, whatever its frequency, and "no pitch" as well. Where
    /// the channel is full, the reading that sits in it is taken out and
    /// thrown away, and the new one is sent once more. The report holds what
    /// the channel answered; what the channel holds afterwards depends on
    /// the receiving thread and is not stated.
    pub fn publish(&self, reading: Reading) -> (report: Publication)
        ensures
            spec_published(report, reading),
    {
        let first: SendAttempt = chan_try_send(&self.tx, reading);
        let retry: Option<SendAttempt> = match first {
            SendAttempt::Full(back) => {
                let _ = chan_try_recv(&self.stale);
                Some(chan_try_send(&self.tx, back))
            },
            _ => None,
        };
        Publication { first, retry, outcome: publish_outcome(first, retry) }
    }
}

impl StreamReceiver {
    /// The number of readings that the channel was made to hold.
    pub closed spec fn spec_capacity(&self) -> Option<usize> {
        receiver_capacity(self.rx)
    }

    /// The number of readings that the channel was made to hold.
    pub fn capacity(&self) -> (n: Option<usize>)
        ensures
            n == self.spec_capacity(),
    {
        chan_receiver_capacity(&self.rx)
    }

    /// Takes out of the channel, without waiting, the readings that are
    /// there, oldest first.
    fn drain(&self) -> (readings: Vec<Reading>) {
        chan_try_iter(&self.rx)
    }
}

/// One tick of the game: takes what the channel holds and classifies the
/// newest reading against the note under the pick. Which readings are
/// there depends on the capture thread; the event is what `classify_latest`
/// makes of them, and so there is none while no note is active or where no
/// reading was there.
pub fn read_input_stream(
    receiver: &StreamReceiver,
    current_note: &CurrentBassNote,
    table: &FrequencyRangeTable,
) -> (tick: Tick)
    ensures
        tick.event == spec_classify_latest(*table, current_note.spec_note(), tick.readings@),
        current_note.spec_note() is None ==> tick.event is None,
        tick.readings@.len() == 0 ==> tick.event is None,
{
    let readings: Vec<Reading> = receiver.drain();
    let note: Option<ExpectedNote> = current_note.expected();
    let event: Option<BassInput> = classify_latest(table, note, &readings);
    Tick { readings, event }
}

/// A reading counts as delivered exactly when the channel took it at once,
/// and as replaced exactly when the channel was full and took it after room
/// was made. It is given up as crowded only where the channel answered
/// "full" and did not take it the second time either.
pub proof fn lemma_publish_outcome_cases(first: SendAttempt, retry: Option<SendAttempt>)
    ensures
        spec_publish_outcome(first, retry) == PublishOutcome::Delivered <==> first
            == SendAttempt::Sent,
        spec_publish_outcome(first, retry) == PublishOutcome::Replaced <==> first is Full && retry
            == Some(SendAttempt::Sent),
        spec_publish_outcome(first, retry) == PublishOutcome::Crowded ==> first is Full && retry
            != Some(SendAttempt::Sent),
        spec_publish_outcome(first, retry) == PublishOutcome::Closed ==> first is Disconnected || (
        first is Full && retry matches Some(SendAttempt::Disconnected(_))),
{
}

} // verus!
