//! The four strings of a bass guitar and, for each fret of each string, the
//! band of frequencies that counts as that note.

use vstd::prelude::*;
use vstd::string::StrSliceExecFns;

verus! {

/// The number of frets that a table describes on each string, the open
/// string included.
pub const FRET_COUNT: usize = 11;

/// One of the four open strings, from the lowest to the highest.
#[derive(Clone, Copy, Debug, PartialEq, Eq, Hash, Structural)]
pub enum BassString {
    E,
    A,
    D,
    G,
}

impl BassString {
    /// The string that a one-letter name stands for.
    pub open spec fn spec_from_name(name: Seq<char>) -> Option<BassString> {
        if name.len() != 1 {
            None
        } else if name[0] == 'E' {
            Some(BassString::E)
        } else if name[0] == 'A' {
            Some(BassString::A)
        } else if name[0] == 'D' {
            Some(BassString::D)
        } else if name[0] == 'G' {
            Some(BassString::G)
        } else {
            None
        }
    }

    /// The position of the string, counted from the lowest.
    pub open spec fn spec_index(self) -> int {
        match self {
            BassString::E => 0,
            BassString::A => 1,
            BassString::D => 2,
            BassString::G => 3,
        }
    }

    /// Reads a string name as tablature writes it: `"E"`, `"A"`, `"D"` or
    /// `"G"`. Anything else names no string.
    pub fn from_name(name: &str) -> (r: Option<BassString>)
        ensures
            r == Self::spec_from_name(name@),
    {
        if name.unicode_len() != 1 {
            return None;
        }
        let c: char = name.get_char(0);
        if c == 'E' {
            Some(BassString::E)
        } else if c == 'A' {
            Some(BassString::A)
        } else if c == 'D' {
            Some(BassString::D)
        } else if c == 'G' {
            Some(BassString::G)
        } else {
            None
        }
    }

    /// The position of the string, counted from the lowest.
    pub fn index(self) -> (i: usize)
        ensures
            i == self.spec_index(),
    {
        match self {
            BassString::E => 0,
            BassString::A => 1,
            BassString::D => 2,
            BassString::G => 3,
        }
    }
}

/// An inclusive band of frequencies in millihertz.
#[derive(Clone, Copy, Debug, PartialEq, Eq, Structural)]
pub struct FretRange {
    pub low: u32,
    pub high: u32,
}

impl FretRange {
    /// Whether `frequency` lies in the band, both ends included.
    pub open spec fn spec_contains(self, frequency: nat) -> bool {
        self.low <= frequency <= self.high
    }

    /// Whether two bands have a frequency in common.
    pub open spec fn spec_overlaps(self, other: FretRange) -> bool {
        self.low <= other.high && other.low <= self.high
    }

    /// Whether `frequency` lies in the band, both ends included.
    pub fn contains(&self, frequency: u32) -> (b: bool)
        ensures
            b == self.spec_contains(frequency as nat),
    {
        self.low <= frequency && frequency <= self.high
    }

    /// Whether two bands have a frequency in common.
    pub fn overlaps(&self, other: &FretRange) -> (b: bool)
        ensures
            b == self.spec_overlaps(*other),
    {
        self.low <= other.high && other.low <= self.high
    }
}

/// Why a set of ranges was not accepted as a table.
#[derive(Clone, Copy, Debug, PartialEq, Eq, Structural)]
pub enum TableError {
    /// The string does not have one range for each fret.
    FretCount(BassString),
    /// The range at this fret of the string has its low end above its high end.
    InvertedRange(BassString, usize),
}

/// Two frets of one string whose bands have a frequency in common.
#[derive(Clone, Copy, Debug, PartialEq, Eq, Structural)]
pub struct Overlap {
    pub string: BassString,
    pub lower_fret: usize,
    pub upper_fret: usize,
}

/// The first fret at or after `from` whose range is inverted, if there is one.
pub open spec fn first_inverted(ranges: Seq<FretRange>, from: int) -> Option<int>
    decreases ranges.len() - from,
{
    if from < 0 || from >= ranges.len() {
        None
    } else if ranges[from].low > ranges[from].high {
        Some(from)
    } else {
        first_inverted(ranges, from + 1)
    }
}

/// What is wrong with the ranges given for one string, if anything: a wrong
/// number of them comes before an inverted range, and a lower fret before a
/// higher one.
pub open spec fn string_defect(string: BassString, ranges: Seq<FretRange>) -> Option<TableError> {
    if ranges.len() != FRET_COUNT {
        Some(TableError::FretCount(string))
    } else {
        match first_inverted(ranges, 0) {
            Some(fret) => Some(TableError::InvertedRange(string, fret as usize)),
            None => None,
        }
    }
}

/// What is wrong with the ranges given for the four strings, if anything: the
/// defect of the lowest string that has one.
pub open spec fn table_defect(
    e: Seq<FretRange>,
    a: Seq<FretRange>,
    d: Seq<FretRange>,
    g: Seq<FretRange>,
) -> Option<TableError> {
    if string_defect(BassString::E, e) is Some {
        string_defect(BassString::E, e)
    } else if string_defect(BassString::A, a) is Some {
        string_defect(BassString::A, a)
    } else if string_defect(BassString::D, d) is Some {
        string_defect(BassString::D, d)
    } else {
        string_defect(BassString::G, g)
    }
}

/// No range at or after `from` is inverted exactly when none is found there.
pub proof fn lemma_first_inverted(ranges: Seq<FretRange>, from: int)
    requires
        0 <= from,
    ensures
        first_inverted(ranges, from) matches Some(k) ==> from <= k < ranges.len() && ranges[k].low
            > ranges[k].high && forall|j: int| from <= j < k ==> ranges[j].low <= ranges[j].high,
        first_inverted(ranges, from) is None ==> forall|j: int|
            from <= j < ranges.len() ==> ranges[j].low <= ranges[j].high,
    decreases ranges.len() - from,
{
    if from < ranges.len() && ranges[from].low <= ranges[from].high {
        lemma_first_inverted(ranges, from + 1);
    }
}

/// Looks for what `string_defect` describes.
fn check_string(string: BassString, ranges: &Vec<FretRange>) -> (r: Option<TableError>)
    ensures
        r == string_defect(string, ranges@),
{
    if ranges.len() != FRET_COUNT {
        return Some(TableError::FretCount(string));
    }
    let mut fret: usize = 0;
    while fret < FRET_COUNT
        invariant
            0 <= fret <= FRET_COUNT,
            ranges@.len() == FRET_COUNT,
            first_inverted(ranges@, 0) == first_inverted(ranges@, fret as int),
        decreases FRET_COUNT - fret,
    {
        if ranges[fret].low > ranges[fret].high {
            return Some(TableError::InvertedRange(string, fret));
        }
        fret += 1;
    }
    None
}

/// For each string, the band of each of its frets, indexed by fret number.
#[derive(Debug)]
pub struct FrequencyRangeTable {
    e: Vec<FretRange>,
    a: Vec<FretRange>,
    d: Vec<FretRange>,
    g: Vec<FretRange>,
}

impl FrequencyRangeTable {
    /// The bands of one string, by fret.
    pub closed spec fn ranges(&self, string: BassString) -> Seq<FretRange> {
        match string {
            BassString::E => self.e@,
            BassString::A => self.a@,
            BassString::D => self.d@,
            BassString::G => self.g@,
        }
    }

    /// Every string has one band for each fret, and no band is inverted.
    #[verifier::type_invariant]
    pub closed spec fn wf(&self) -> bool {
        table_defect(self.e@, self.a@, self.d@, self.g@) is None
    }

    /// What `wf` means for the bands of each string.
    pub proof fn lemma_wf(&self, string: BassString)
        requires
            self.wf(),
        ensures
            self.ranges(string).len() == FRET_COUNT,
            forall|fret: int|
                0 <= fret < FRET_COUNT ==> (#[trigger] self.ranges(string)[fret]).low
                    <= self.ranges(string)[fret].high,
    {
        lemma_first_inverted(self.ranges(string), 0);
    }

    /// A table of the bands given for the four strings, or the first thing
    /// that is wrong with them.
    pub fn new(
        e: Vec<FretRange>,
        a: Vec<FretRange>,
        d: Vec<FretRange>,
        g: Vec<FretRange>,
    ) -> (r: Result<FrequencyRangeTable, TableError>)
        ensures
            match r {
                Ok(table) => {
                    &&& table_defect(e@, a@, d@, g@) is None
                    &&& table.wf()
                    &&& table.ranges(BassString::E) == e@
                    &&& table.ranges(BassString::A) == a@
                    &&& table.ranges(BassString::D) == d@
                    &&& table.ranges(BassString::G) == g@
                },
                Err(error) => table_defect(e@, a@, d@, g@) == Some(error),
            },
    {
        if let Some(error) = check_string(BassString::E, &e) {
            return Err(error);
        }
        if let Some(error) = check_string(BassString::A, &a) {
            return Err(error);
        }
        if let Some(error) = check_string(BassString::D, &d) {
            return Err(error);
        }
        if let Some(error) = check_string(BassString::G, &g) {
            return Err(error);
        }
        Ok(FrequencyRangeTable { e, a, d, g })
    }

    /// The band of one fret of one string, or `None` when the table has no
    /// such fret.
    pub fn range(&self, string: BassString, fret: usize) -> (r: Option<FretRange>)
        ensures
            r is Some <==> fret < FRET_COUNT,
            r matches Some(band) ==> band == self.ranges(string)[fret as int] && band.low
                <= band.high,
    {
        proof {
            use_type_invariant(self);
            self.lemma_wf(string);
        }
        if fret >= FRET_COUNT {
            return None;
        }
        let band: FretRange = match string {
            BassString::E => self.e[fret],
            BassString::A => self.a[fret],
            BassString::D => self.d[fret],
            BassString::G => self.g[fret],
        };
        Some(band)
    }
}

/// The bands of the E string in standard tuning, by fret.
pub open spec fn standard_e() -> Seq<FretRange> {
    seq![
        FretRange { low: 20_000, high: 21_000 },
        FretRange { low: 22_000, high: 23_000 },
        FretRange { low: 23_000, high: 24_000 },
        FretRange { low: 24_000, high: 25_000 },
        FretRange { low: 26_000, high: 27_000 },
        FretRange { low: 27_000, high: 28_000 },
        FretRange { low: 29_000, high: 30_000 },
        FretRange { low: 31_000, high: 32_000 },
        FretRange { low: 32_000, high: 33_000 },
        FretRange { low: 34_000, high: 36_000 },
        FretRange { low: 36_000, high: 38_000 },
    ]
}

/// The bands of the A string in standard tuning, by fret.
pub open spec fn standard_a() -> Seq<FretRange> {
    seq![
        FretRange { low: 26_000, high: 28_000 },
        FretRange { low: 28_000, high: 30_000 },
        FretRange { low: 30_000, high: 32_000 },
        FretRange { low: 32_000, high: 34_000 },
        FretRange { low: 34_000, high: 36_000 },
        FretRange { low: 36_000, high: 38_000 },
        FretRange { low: 38_000, high: 40_000 },
        FretRange { low: 40_000, high: 42_000 },
        FretRange { low: 42_000, high: 45_000 },
        FretRange { low: 45_000, high: 47_000 },
        FretRange { low: 47_000, high: 49_000 },
    ]
}

/// The bands of the D string in standard tuning, by fret.
pub open spec fn standard_d() -> Seq<FretRange> {
    seq![
        FretRange { low: 36_000, high: 37_000 },
        FretRange { low: 39_000, high: 40_000 },
        FretRange { low: 41_000, high: 42_000 },
        FretRange { low: 43_000, high: 44_000 },
        FretRange { low: 46_000, high: 47_000 },
        FretRange { low: 49_000, high: 50_000 },
        FretRange { low: 52_000, high: 53_000 },
        FretRange { low: 55_000, high: 56_000 },
        FretRange { low: 58_000, high: 59_000 },
        FretRange { low: 61_000, high: 63_000 },
        FretRange { low: 65_000, high: 66_000 },
    ]
}

/// The bands of the G string in standard tuning, by fret.
pub open spec fn standard_g() -> Seq<FretRange> {
    seq![
        FretRange { low: 48_000, high: 50_000 },
        FretRange { low: 52_000, high: 53_000 },
        FretRange { low: 54_000, high: 55_500 },
        FretRange { low: 58_000, high: 59_000 },
        FretRange { low: 61_000, high: 62_000 },
        FretRange { low: 65_000, high: 66_000 },
        FretRange { low: 69_000, high: 70_000 },
        FretRange { low: 73_000, high: 74_000 },
        FretRange { low: 77_000, high: 78_000 },
        FretRange { low: 82_000, high: 83_000 },
        FretRange { low: 87_000, high: 88_000 },
    ]
}

/// The bands of one string in standard tuning, by fret.
pub open spec fn standard_ranges(string: BassString) -> Seq<FretRange> {
    match string {
        BassString::E => standard_e(),
        BassString::A => standard_a(),
        BassString::D => standard_d(),
        BassString::G => standard_g(),
    }
}

fn build_standard_e() -> (v: Vec<FretRange>)
    ensures
        v@ == standard_e(),
        string_defect(BassString::E, v@) is None,
{
    let mut v: Vec<FretRange> = Vec::new();
    v.push(FretRange { low: 20_000, high: 21_000 });
    v.push(FretRange { low: 22_000, high: 23_000 });
    v.push(FretRange { low: 23_000, high: 24_000 });
    v.push(FretRange { low: 24_000, high: 25_000 });
    v.push(FretRange { low: 26_000, high: 27_000 });
    v.push(FretRange { low: 27_000, high: 28_000 });
    v.push(FretRange { low: 29_000, high: 30_000 });
    v.push(FretRange { low: 31_000, high: 32_000 });
    v.push(FretRange { low: 32_000, high: 33_000 });
    v.push(FretRange { low: 34_000, high: 36_000 });
    v.push(FretRange { low: 36_000, high: 38_000 });
    assert(v@ =~= standard_e());
    proof {
        lemma_no_inverted(v@);
    }
    v
}

fn build_standard_a() -> (v: Vec<FretRange>)
    ensures
        v@ == standard_a(),
        string_defect(BassString::A, v@) is None,
{
    let mut v: Vec<FretRange> = Vec::new();
    v.push(FretRange { low: 26_000, high: 28_000 });
    v.push(FretRange { low: 28_000, high: 30_000 });
    v.push(FretRange { low: 30_000, high: 32_000 });
    v.push(FretRange { low: 32_000, high: 34_000 });
    v.push(FretRange { low: 34_000, high: 36_000 });
    v.push(FretRange { low: 36_000, high: 38_000 });
    v.push(FretRange { low: 38_000, high: 40_000 });
    v.push(FretRange { low: 40_000, high: 42_000 });
    v.push(FretRange { low: 42_000, high: 45_000 });
    v.push(FretRange { low: 45_000, high: 47_000 });
    v.push(FretRange { low: 47_000, high: 49_000 });
    assert(v@ =~= standard_a());
    proof {
        lemma_no_inverted(v@);
    }
    v
}

fn build_standard_d() -> (v: Vec<FretRange>)
    ensures
        v@ == standard_d(),
        string_defect(BassString::D, v@) is None,
{
    let mut v: Vec<FretRange> = Vec::new();
    v.push(FretRange { low: 36_000, high: 37_000 });
    v.push(FretRange { low: 39_000, high: 40_000 });
    v.push(FretRange { low: 41_000, high: 42_000 });
    v.push(FretRange { low: 43_000, high: 44_000 });
    v.push(FretRange { low: 46_000, high: 47_000 });
    v.push(FretRange { low: 49_000, high: 50_000 });
    v.push(FretRange { low: 52_000, high: 53_000 });
    v.push(FretRange { low: 55_000, high: 56_000 });
    v.push(FretRange { low: 58_000, high: 59_000 });
    v.push(FretRange { low: 61_000, high: 63_000 });
    v.push(FretRange { low: 65_000, high: 66_000 });
    assert(v@ =~= standard_d());
    proof {
        lemma_no_inverted(v@);
    }
    v
}

fn build_standard_g() -> (v: Vec<FretRange>)
    ensures
        v@ == standard_g(),
        string_defect(BassString::G, v@) is None,
{
    let mut v: Vec<FretRange> = Vec::new();
    v.push(FretRange { low: 48_000, high: 50_000 });
    v.push(FretRange { low: 52_000, high: 53_000 });
    v.push(FretRange { low: 54_000, high: 55_500 });
    v.push(FretRange { low: 58_000, high: 59_000 });
    v.push(FretRange { low: 61_000, high: 62_000 });
    v.push(FretRange { low: 65_000, high: 66_000 });
    v.push(FretRange { low: 69_000, high: 70_000 });
    v.push(FretRange { low: 73_000, high: 74_000 });
    v.push(FretRange { low: 77_000, high: 78_000 });
    v.push(FretRange { low: 82_000, high: 83_000 });
    v.push(FretRange { low: 87_000, high: 88_000 });
    assert(v@ =~= standard_g());
    proof {
        lemma_no_inverted(v@);
    }
    v
}

/// Where every range is in order, none is found inverted.
proof fn lemma_no_inverted(ranges: Seq<FretRange>)
    requires
        forall|j: int| 0 <= j < ranges.len() ==> ranges[j].low <= ranges[j].high,
    ensures
        first_inverted(ranges, 0) is None,
{
    lemma_first_inverted(ranges, 0);
}

impl FrequencyRangeTable {
    /// The table for a four-string bass in standard tuning.
    pub fn standard() -> (table: FrequencyRangeTable)
        ensures
            table.wf(),
            forall|string: BassString| #[trigger] table.ranges(string) == standard_ranges(string),
    {
        let e: Vec<FretRange> = build_standard_e();
        let a: Vec<FretRange> = build_standard_a();
        let d: Vec<FretRange> = build_standard_d();
        let g: Vec<FretRange> = build_standard_g();
        FrequencyRangeTable { e, a, d, g }
    }
}

/// Whether `first` comes before `second` when overlaps are listed: by string
/// from the lowest, then by lower fret, then by upper fret.
pub open spec fn overlap_before(first: Overlap, second: Overlap) -> bool {
    ||| first.string.spec_index() < second.string.spec_index()
    ||| first.string == second.string && first.lower_fret < second.lower_fret
    ||| first.string == second.string && first.lower_fret == second.lower_fret && first.upper_fret
        < second.upper_fret
}

impl FrequencyRangeTable {
    /// Whether the table has bands that overlap at these two frets of the string.
    pub open spec fn spec_is_overlap(&self, overlap: Overlap) -> bool {
        &&& overlap.lower_fret < overlap.upper_fret < FRET_COUNT
        &&& self.ranges(overlap.string)[overlap.lower_fret as int].spec_overlaps(
            self.ranges(overlap.string)[overlap.upper_fret as int],
        )
    }

    /// The lowest fret of `string` whose band holds `frequency`, if any does.
    pub open spec fn spec_fret_for(&self, string: BassString, frequency: nat) -> Option<usize> {
        if exists|fret: int|
            0 <= fret < FRET_COUNT && (#[trigger] self.ranges(string)[fret]).spec_contains(
                frequency,
            ) {
            let first = choose|fret: int|
                0 <= fret < FRET_COUNT && (#[trigger] self.ranges(string)[fret]).spec_contains(
                    frequency,
                ) && forall|lower: int|
                    0 <= lower < fret ==> !(#[trigger] self.ranges(string)[lower]).spec_contains(
                        frequency,
                    );
            Some(first as usize)
        } else {
            None
        }
    }

    /// The fret of `string` that a frequency in millihertz is taken for.
    /// Where the bands of several frets hold it, the lowest of them wins.
    pub fn fret_for(&self, string: BassString, frequency: u32) -> (r: Option<usize>)
        ensures
            r matches Some(fret) ==> fret < FRET_COUNT && self.ranges(string)[fret as int]
                .spec_contains(frequency as nat) && forall|lower: int|
                0 <= lower < fret ==> !(#[trigger] self.ranges(string)[lower]).spec_contains(
                    frequency as nat,
                ),
            r is None ==> forall|fret: int|
                0 <= fret < FRET_COUNT ==> !(#[trigger] self.ranges(string)[fret]).spec_contains(
                    frequency as nat,
                ),
            r == self.spec_fret_for(string, frequency as nat),
    {
        let mut fret: usize = 0;
        while fret < FRET_COUNT
            invariant
                0 <= fret <= FRET_COUNT,
                forall|lower: int|
                    0 <= lower < fret ==> !(#[trigger] self.ranges(string)[lower]).spec_contains(
                        frequency as nat,
                    ),
            decreases FRET_COUNT - fret,
        {
            if let Some(band) = self.range(string, fret) {
                if band.contains(frequency) {
                    proof {
                        let found = fret as int;
                        let ranges = self.ranges(string);
                        let f = frequency as nat;
                        assert(0 <= found < FRET_COUNT && ranges[found].spec_contains(f));
                        let first = choose|k: int|
                            0 <= k < FRET_COUNT && (#[trigger] ranges[k]).spec_contains(f)
                                && forall|lower: int|
                                0 <= lower < k ==> !(#[trigger] ranges[lower]).spec_contains(f);
                        assert(first == found) by {
                            if first < found {
                                assert(!ranges[first].spec_contains(f));
                            }
                            if found < first {
                                assert(!ranges[found].spec_contains(f));
                            }
                        }
                    }
                    return Some(fret);
                }
            }
            fret += 1;
        }
        None
    }
}

impl FrequencyRangeTable {
    /// What a list of overlaps holds while the search stands at `cursor`:
    /// overlaps only, in order, and every overlap that comes before `cursor`.
    pub open spec fn listed_up_to(&self, found: Seq<Overlap>, cursor: Overlap) -> bool {
        &&& forall|k: int|
            0 <= k < found.len() ==> self.spec_is_overlap(#[trigger] found[k]) && overlap_before(
                found[k],
                cursor,
            )
        &&& forall|k: int, l: int|
            0 <= k < l < found.len() ==> overlap_before(#[trigger] found[k], #[trigger] found[l])
        &&& forall|overlap: Overlap|
            #[trigger] self.spec_is_overlap(overlap) && overlap_before(overlap, cursor)
                ==> found.contains(overlap)
    }

    /// Adds the overlaps of one string to a list that holds those of the
    /// strings below it.
    fn string_overlaps(&self, string: BassString, found: &mut Vec<Overlap>)
        requires
            self.wf(),
            self.listed_up_to(old(found)@, Overlap { string, lower_fret: 0, upper_fret: 0 }),
        ensures
            self.listed_up_to(
                final(found)@,
                Overlap { string, lower_fret: FRET_COUNT, upper_fret: 0 },
            ),
    {
        proof {
            self.lemma_wf(string);
        }
        let mut lower: usize = 0;
        while lower < FRET_COUNT
            invariant
                0 <= lower <= FRET_COUNT,
                self.ranges(string).len() == FRET_COUNT,
                self.listed_up_to(found@, Overlap { string, lower_fret: lower, upper_fret: 0 }),
            decreases FRET_COUNT - lower,
        {
            let mut upper: usize = lower + 1;
            proof {
                let at = Overlap { string, lower_fret: lower, upper_fret: 0 };
                let next = Overlap { string, lower_fret: lower, upper_fret: upper };
                assert forall|overlap: Overlap|
                    #[trigger] self.spec_is_overlap(overlap) && overlap_before(
                        overlap,
                        next,
                    ) implies found@.contains(overlap) by {
                    assert(overlap_before(overlap, at));
                }
            }
            while upper < FRET_COUNT
                invariant
                    0 <= lower < upper <= FRET_COUNT,
                    self.ranges(string).len() == FRET_COUNT,
                    self.listed_up_to(
                        found@,
                        Overlap { string, lower_fret: lower, upper_fret: upper },
                    ),
                decreases FRET_COUNT - upper,
            {
                let first: Option<FretRange> = self.range(string, lower);
                let second: Option<FretRange> = self.range(string, upper);
                let ghost before = found@;
                let ghost at = Overlap { string, lower_fret: lower, upper_fret: upper };
                let ghost next = Overlap { string, lower_fret: lower, upper_fret: (upper + 1) as usize };
                let mut hit: bool = false;
                if let Some(a) = first {
                    if let Some(b) = second {
                        if a.overlaps(&b) {
                            hit = true;
                            found.push(Overlap { string, lower_fret: lower, upper_fret: upper });
                        }
                    }
                }
                proof {
                    assert(hit == self.spec_is_overlap(at));
                    assert forall|overlap: Overlap|
                        #[trigger] self.spec_is_overlap(overlap) && overlap_before(
                            overlap,
                            next,
                        ) implies found@.contains(overlap) by {
                        if overlap_before(overlap, at) {
                            assert(before.contains(overlap));
                            let k = choose|k: int| 0 <= k < before.len() && before[k] == overlap;
                            assert(found@[k] == overlap);
                        } else {
                            assert(overlap == at);
                            assert(hit);
                            assert(found@[found@.len() - 1] == overlap);
                        }
                    }
                }
                upper += 1;
            }
            proof {
                let at = Overlap { string, lower_fret: lower, upper_fret: FRET_COUNT };
                let next = Overlap { string, lower_fret: (lower + 1) as usize, upper_fret: 0 };
                assert forall|overlap: Overlap|
                    #[trigger] self.spec_is_overlap(overlap) && overlap_before(
                        overlap,
                        next,
                    ) implies found@.contains(overlap) by {
                    assert(overlap_before(overlap, at));
                }
            }
            lower += 1;
        }
    }

    /// Every pair of frets on one string whose bands share a frequency,
    /// listed by string from the lowest, then by lower fret, then by upper
    /// fret. An empty list means that no frequency can be taken for two frets
    /// of one string.
    pub fn overlaps(&self) -> (found: Vec<Overlap>)
        ensures
            forall|k: int| 0 <= k < found.len() ==> self.spec_is_overlap(#[trigger] found[k]),
            forall|k: int, l: int|
                0 <= k < l < found.len() ==> overlap_before(#[trigger] found[k], #[trigger] found[l]),
            forall|overlap: Overlap| #[trigger]
                self.spec_is_overlap(overlap) ==> found@.contains(overlap),
    {
        proof {
            use_type_invariant(self);
        }
        let mut found: Vec<Overlap> = Vec::new();
        self.string_overlaps(BassString::E, &mut found);
        proof {
            self.lemma_next_string(found@, BassString::E, BassString::A);
        }
        self.string_overlaps(BassString::A, &mut found);
        proof {
            self.lemma_next_string(found@, BassString::A, BassString::D);
        }
        self.string_overlaps(BassString::D, &mut found);
        proof {
            self.lemma_next_string(found@, BassString::D, BassString::G);
        }
        self.string_overlaps(BassString::G, &mut found);
        proof {
            let end = Overlap { string: BassString::G, lower_fret: FRET_COUNT, upper_fret: 0 };
            assert forall|overlap: Overlap| #[trigger]
                self.spec_is_overlap(overlap) implies found@.contains(overlap) by {
                assert(overlap_before(overlap, end));
            }
        }
        found
    }

    /// A list that is complete to the end of one string is complete to the
    /// start of the next.
    proof fn lemma_next_string(&self, found: Seq<Overlap>, done: BassString, next: BassString)
        requires
            next.spec_index() == done.spec_index() + 1,
            self.listed_up_to(
                found,
                Overlap { string: done, lower_fret: FRET_COUNT, upper_fret: 0 },
            ),
        ensures
            self.listed_up_to(found, Overlap { string: next, lower_fret: 0, upper_fret: 0 }),
    {
        let end = Overlap { string: done, lower_fret: FRET_COUNT, upper_fret: 0 };
        let start = Overlap { string: next, lower_fret: 0, upper_fret: 0 };
        assert forall|k: int| 0 <= k < found.len() implies overlap_before(
            #[trigger] found[k],
            start,
        ) by {
            assert(self.spec_is_overlap(found[k]));
            assert(overlap_before(found[k], end));
        }
        assert forall|overlap: Overlap|
            #[trigger] self.spec_is_overlap(overlap) && overlap_before(
                overlap,
                start,
            ) implies found.contains(overlap) by {
            assert(overlap_before(overlap, end));
        }
    }
}

} // verus!
