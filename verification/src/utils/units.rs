//! The unit table: the units of time, their suffixes and their lengths.

use vstd::prelude::*;

verus! {

/// A unit of time that a duration expression can name.
#[derive(Clone, Copy, Debug, PartialEq, Eq, Structural)]
pub enum TimeUnit {
    Second,
    Minute,
    Hour,
    Day,
    Week,
    /// Thirty days.
    Month,
    /// Three hundred and sixty-five days.
    Year,
}

impl TimeUnit {
    /// The length of one unit, in milliseconds.
    pub open spec fn milliseconds(self) -> nat {
        match self {
            TimeUnit::Second => 1_000,
            TimeUnit::Minute => 60_000,
            TimeUnit::Hour => 3_600_000,
            TimeUnit::Day => 86_400_000,
            TimeUnit::Week => 604_800_000,
            TimeUnit::Month => 2_592_000_000,
            TimeUnit::Year => 31_536_000_000,
        }
    }

    /// The letters that name the unit in an expression.
    pub open spec fn suffix(self) -> Seq<char> {
        match self {
            TimeUnit::Second => seq!['s'],
            TimeUnit::Minute => seq!['m', 'i', 'n'],
            TimeUnit::Hour => seq!['h'],
            TimeUnit::Day => seq!['d'],
            TimeUnit::Week => seq!['w'],
            TimeUnit::Month => seq!['m'],
            TimeUnit::Year => seq!['y'],
        }
    }

    /// The unit that `text` names, taken as a whole; letters are case-sensitive.
    pub open spec fn named_by(text: Seq<char>) -> Option<TimeUnit> {
        if text == TimeUnit::Second.suffix() {
            Some(TimeUnit::Second)
        } else if text == TimeUnit::Minute.suffix() {
            Some(TimeUnit::Minute)
        } else if text == TimeUnit::Hour.suffix() {
            Some(TimeUnit::Hour)
        } else if text == TimeUnit::Day.suffix() {
            Some(TimeUnit::Day)
        } else if text == TimeUnit::Week.suffix() {
            Some(TimeUnit::Week)
        } else if text == TimeUnit::Month.suffix() {
            Some(TimeUnit::Month)
        } else if text == TimeUnit::Year.suffix() {
            Some(TimeUnit::Year)
        } else {
            None
        }
    }

    /// The unit table: what one unit is worth.
    pub fn millis(self) -> (ms: u64)
        ensures
            ms == self.milliseconds(),
    {
        match self {
            TimeUnit::Second => 1_000,
            TimeUnit::Minute => 60_000,
            TimeUnit::Hour => 3_600_000,
            TimeUnit::Day => 86_400_000,
            TimeUnit::Week => 604_800_000,
            TimeUnit::Month => 2_592_000_000,
            TimeUnit::Year => 31_536_000_000,
        }
    }

    /// Looks a suffix up in the unit table.
    pub fn from_suffix(text: &[char]) -> (unit: Option<TimeUnit>)
        ensures
            unit == TimeUnit::named_by(text@),
    {
        if text.len() == 1 {
            let c = text[0];
            assert(text@ =~= seq![c]);
            if c == 's' {
                Some(TimeUnit::Second)
            } else if c == 'h' {
                Some(TimeUnit::Hour)
            } else if c == 'd' {
                Some(TimeUnit::Day)
            } else if c == 'w' {
                Some(TimeUnit::Week)
            } else if c == 'm' {
                Some(TimeUnit::Month)
            } else if c == 'y' {
                Some(TimeUnit::Year)
            } else {
                None
            }
        } else if text.len() == 3 && text[0] == 'm' && text[1] == 'i' && text[2] == 'n' {
            assert(text@ =~= seq!['m', 'i', 'n']);
            Some(TimeUnit::Minute)
        } else {
            None
        }
    }
}

/// The unit table reads both ways: a text names a unit exactly where it is that unit's suffix.
pub proof fn lemma_suffix_names_unit(unit: TimeUnit)
    ensures
        forall|text: Seq<char>| TimeUnit::named_by(text) == Some(unit) <==> text == unit.suffix(),
{
    assert(seq!['m'].len() == 1);
    assert(seq!['h'][0] == 'h');
    assert(seq!['d'][0] == 'd');
    assert(seq!['w'][0] == 'w');
    assert(seq!['m'][0] == 'm');
    assert(seq!['y'][0] == 'y');
}

} // verus!
