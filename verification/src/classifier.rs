//! Deciding whether the pitch that was heard is the note that was asked for.

use vstd::prelude::*;
use crate::estimate::PitchEstimate;
use crate::table::{BassString, FrequencyRangeTable, FretRange, FRET_COUNT};

verus! {

/// The note that the player is asked to play: a fret on a string.
#[derive(Clone, Copy, Debug, PartialEq, Eq, Structural)]
pub struct ExpectedNote {
    string: BassString,
    fret: usize,
}

impl ExpectedNote {
    /// The fret is one that a table describes.
    #[verifier::type_invariant]
    pub closed spec fn wf(self) -> bool {
        self.fret < FRET_COUNT
    }

    /// The string of the note.
    pub closed spec fn spec_string(self) -> BassString {
        self.string
    }

    /// The fret of the note.
    pub closed spec fn spec_fret(self) -> nat {
        self.fret as nat
    }

    /// The note at `fret` of `string`, or `None` when there is no such fret.
    pub fn new(string: BassString, fret: usize) -> (r: Option<ExpectedNote>)
        ensures
            r is Some <==> fret < FRET_COUNT,
            r matches Some(note) ==> note.wf() && note.spec_string() == string && note.spec_fret()
                == fret,
    {
        if fret < FRET_COUNT {
            Some(ExpectedNote { string, fret })
        } else {
            None
        }
    }

    /// The string of the note.
    pub fn string(&self) -> (s: BassString)
        ensures
            s == self.spec_string(),
    {
        self.string
    }

    /// The fret of the note.
    pub fn fret(&self) -> (f: usize)
        ensures
            f == self.spec_fret(),
            f < FRET_COUNT,
    {
        proof {
            use_type_invariant(self);
        }
        self.fret
    }
}

/// The note under the pick as the game keeps it: the string by its name and
/// the fret as tablature numbers it. While no note is under the pick the name
/// is empty and the fret is negative.
#[derive(Clone, Debug)]
pub struct CurrentBassNote {
    pub chord: String,
    pub fret: i8,
}

/// The note that a string name and a fret number stand for, if they stand
/// for one.
pub open spec fn spec_expected(chord: Seq<char>, fret: int) -> Option<(BassString, nat)> {
    match BassString::spec_from_name(chord) {
        Some(string) => if 0 <= fret < FRET_COUNT {
            Some((string, fret as nat))
        } else {
            None
        },
        None => None,
    }
}

impl CurrentBassNote {
    /// The note to match against, or `None` while no note is active.
    pub closed spec fn spec_note(&self) -> Option<ExpectedNote> {
        match spec_expected(self.chord@, self.fret as int) {
            Some((string, fret)) => Some(ExpectedNote { string, fret: fret as usize }),
            None => None,
        }
    }

    /// What `spec_note` holds.
    pub proof fn lemma_spec_note(&self)
        ensures
            self.spec_note() is Some <==> spec_expected(self.chord@, self.fret as int) is Some,
            self.spec_note() matches Some(note) ==> note.wf() && spec_expected(
                self.chord@,
                self.fret as int,
            ) == Some((note.spec_string(), note.spec_fret())),
    {
    }

    /// The value that stands for "no note is under the pick".
    pub fn none() -> (r: CurrentBassNote)
        ensures
            r.chord@ == Seq::<char>::empty(),
            r.fret == -1,
            r.spec_note() is None,
    {
        CurrentBassNote { chord: String::new(), fret: -1 }
    }

    /// The note to match against, or `None` while no note is active: when
    /// the name is not that of a string or the fret is not on the table.
    pub fn expected(&self) -> (r: Option<ExpectedNote>)
        ensures
            r == self.spec_note(),
            r is Some <==> spec_expected(self.chord@, self.fret as int) is Some,
            r matches Some(note) ==> note.wf() && spec_expected(self.chord@, self.fret as int)
                == Some((note.spec_string(), note.spec_fret())),
    {
        match BassString::from_name(self.chord.as_str()) {
            Some(string) => {
                if self.fret < 0 {
                    None
                } else {
                    ExpectedNote::new(string, self.fret as usize)
                }
            },
            None => None,
        }
    }
}

/// Whether the player hit the note.
#[derive(Clone, Copy, Debug, PartialEq, Eq, Structural)]
pub struct BassInput(pub bool);

/// A hit is an estimate whose frequency lies in the band, both ends
/// included. No estimate is a miss.
pub open spec fn spec_hit(band: FretRange, estimate: Option<PitchEstimate>) -> bool {
    match estimate {
        Some(e) => band.spec_contains(e.spec_frequency()),
        None => false,
    }
}

/// What one window means for the note that is asked for.
pub open spec fn spec_classify(
    table: FrequencyRangeTable,
    note: ExpectedNote,
    estimate: Option<PitchEstimate>,
) -> bool {
    spec_hit(table.ranges(note.spec_string())[note.spec_fret() as int], estimate)
}

/// Whether `estimate` is a hit on `note`: whether it holds a frequency that
/// lies in the band that `table` gives for the note's fret on its string.
pub fn classify(
    table: &FrequencyRangeTable,
    note: ExpectedNote,
    estimate: Option<PitchEstimate>,
) -> (hit: bool)
    ensures
        hit == spec_classify(*table, note, estimate),
{
    let fret: usize = note.fret();
    match table.range(note.string(), fret) {
        Some(band) => match estimate {
            Some(e) => band.contains(e.frequency()),
            None => false,
        },
        None => false,
    }
}

/// The newest of the readings taken off the channel, if there was any.
pub open spec fn spec_newest(readings: Seq<Option<PitchEstimate>>) -> Option<Option<PitchEstimate>> {
    if readings.len() == 0 {
        None
    } else {
        Some(readings[readings.len() - 1])
    }
}

/// What one tick of the game produces: nothing while no note is active or
/// no reading has arrived, else the newest reading classified against the
/// note.
pub open spec fn spec_classify_latest(
    table: FrequencyRangeTable,
    note: Option<ExpectedNote>,
    readings: Seq<Option<PitchEstimate>>,
) -> Option<BassInput> {
    match (note, spec_newest(readings)) {
        (Some(n), Some(reading)) => Some(BassInput(spec_classify(table, n, reading))),
        _ => None,
    }
}

/// The newest of the readings taken off the channel in arrival order.
pub fn newest(readings: &Vec<Option<PitchEstimate>>) -> (r: Option<Option<PitchEstimate>>)
    ensures
        r == spec_newest(readings@),
{
    if readings.len() == 0 {
        None
    } else {
        Some(readings[readings.len() - 1])
    }
}

/// Classifies the newest of `readings` against `note`. Older readings are
/// passed over, and nothing is produced while no note is active.
pub fn classify_latest(
    table: &FrequencyRangeTable,
    note: Option<ExpectedNote>,
    readings: &Vec<Option<PitchEstimate>>,
) -> (r: Option<BassInput>)
    ensures
        r == spec_classify_latest(*table, note, readings@),
{
    match note {
        Some(n) => match newest(readings) {
            Some(reading) => Some(BassInput(classify(table, n, reading))),
            None => None,
        },
        None => None,
    }
}

/// Of the readings that a tick finds, only the one that arrived last
/// counts: whatever came before it, the tick produces what it would
/// produce for that reading alone.
pub proof fn lemma_newest_wins(
    table: FrequencyRangeTable,
    note: Option<ExpectedNote>,
    earlier: Seq<Option<PitchEstimate>>,
    last: Option<PitchEstimate>,
)
    ensures
        spec_newest(earlier.push(last)) == Some(last),
        spec_classify_latest(table, note, earlier.push(last)) == spec_classify_latest(
            table,
            note,
            seq![last],
        ),
{
}

/// The ends of a band belong to it: an estimate exactly at the low end or
/// exactly at the high end is a hit, one below the low end or above the
/// high end is a miss.
pub proof fn lemma_band_is_inclusive(band: FretRange, estimate: PitchEstimate)
    requires
        band.low <= band.high,
    ensures
        estimate.spec_frequency() == band.low ==> spec_hit(band, Some(estimate)),
        estimate.spec_frequency() == band.high ==> spec_hit(band, Some(estimate)),
        estimate.spec_frequency() < band.low ==> !spec_hit(band, Some(estimate)),
        estimate.spec_frequency() > band.high ==> !spec_hit(band, Some(estimate)),
        !spec_hit(band, None),
{
}

} // verus!
