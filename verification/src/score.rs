//! The running score of a level.

use vstd::prelude::*;
use crate::classifier::BassInput;

verus! {

/// Points added to the score for a hit.
pub const HIT_REWARD: i32 = 200;

/// Points taken from the score for a miss.
pub const MISS_PENALTY: i32 = 50;

/// The change that one event makes to the score.
pub open spec fn score_delta(event: BassInput) -> int {
    if event.0 {
        HIT_REWARD as int
    } else {
        -(MISS_PENALTY as int)
    }
}

/// A sum brought back into the range of the score.
pub open spec fn saturate(value: int) -> int {
    if value > i32::MAX {
        i32::MAX as int
    } else if value < i32::MIN {
        i32::MIN as int
    } else {
        value
    }
}

/// The score after one event.
pub open spec fn score_after(score: int, event: BassInput) -> int {
    saturate(score + score_delta(event))
}

/// The score after a run of events, taken in order.
pub open spec fn score_after_all(score: int, events: Seq<BassInput>) -> int
    decreases events.len(),
{
    if events.len() == 0 {
        score
    } else {
        score_after(score_after_all(score, events.drop_last()), events.last())
    }
}

/// The number of hits among the events.
pub open spec fn hits(events: Seq<BassInput>) -> nat
    decreases events.len(),
{
    if events.len() == 0 {
        0
    } else {
        hits(events.drop_last()) + if events.last().0 {
            1nat
        } else {
            0nat
        }
    }
}

/// The number of misses among the events.
pub open spec fn misses(events: Seq<BassInput>) -> nat
    decreases events.len(),
{
    if events.len() == 0 {
        0
    } else {
        misses(events.drop_last()) + if events.last().0 {
            0nat
        } else {
            1nat
        }
    }
}

/// The score of the level that is being played. It may be negative.
#[derive(Clone, Copy, Debug, PartialEq, Eq, Structural)]
pub struct LevelScore(i32);

impl LevelScore {
    /// The points.
    pub closed spec fn view(&self) -> int {
        self.0 as int
    }

    /// A score of zero.
    pub fn new() -> (score: LevelScore)
        ensures
            score@ == 0,
    {
        LevelScore(0)
    }

    /// The points.
    pub fn value(&self) -> (points: i32)
        ensures
            points == self@,
    {
        self.0
    }

    /// Counts one event: a hit adds the reward, a miss takes the penalty.
    /// The score stops at the ends of its range.
    pub fn record(&mut self, event: BassInput)
        ensures
            final(self)@ == score_after(old(self)@, event),
    {
        if event.0 {
            if self.0 > i32::MAX - HIT_REWARD {
                self.0 = i32::MAX;
            } else {
                self.0 = self.0 + HIT_REWARD;
            }
        } else {
            if self.0 < i32::MIN + MISS_PENALTY {
                self.0 = i32::MIN;
            } else {
                self.0 = self.0 - MISS_PENALTY;
            }
        }
    }
}

/// Counts a run of events into the score, in order.
pub fn print_if_true(events: &[BassInput], score: &mut LevelScore)
    ensures
        final(score)@ == score_after_all(old(score)@, events@),
{
    let mut i: usize = 0;
    while i < events.len()
        invariant
            0 <= i <= events.len(),
            score@ == score_after_all(old(score)@, events@.take(i as int)),
        decreases events.len() - i,
    {
        score.record(events[i]);
        proof {
            assert(events@.take(i + 1).drop_last() =~= events@.take(i as int));
        }
        i += 1;
    }
    proof {
        assert(events@.take(events.len() as int) =~= events@);
    }
}

/// Puts the score back to zero.
pub fn reset_score(score: &mut LevelScore)
    ensures
        final(score)@ == 0,
{
    *score = LevelScore::new();
}

/// While the score stays inside its range, it is what it was plus the
/// reward for each hit minus the penalty for each miss. It stays inside
/// where the start plus all rewards and the start minus all penalties do.
pub proof fn lemma_score_is_tally(score: int, events: Seq<BassInput>)
    requires
        i32::MIN <= score - MISS_PENALTY * misses(events),
        score + HIT_REWARD * hits(events) <= i32::MAX,
    ensures
        score_after_all(score, events) == score + HIT_REWARD * hits(events) - MISS_PENALTY
            * misses(events),
    decreases events.len(),
{
    if events.len() > 0 {
        lemma_score_is_tally(score, events.drop_last());
    }
}

/// Whatever the events, the score stays inside its range once it is there.
pub proof fn lemma_score_in_range(score: int, events: Seq<BassInput>)
    requires
        i32::MIN <= score <= i32::MAX,
    ensures
        i32::MIN <= score_after_all(score, events) <= i32::MAX,
    decreases events.len(),
{
    if events.len() > 0 {
        lemma_score_in_range(score, events.drop_last());
    }
}

} // verus!
