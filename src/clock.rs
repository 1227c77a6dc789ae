//! Calendar timestamps, as plain fields, and their compact
//! `YYYYMMDD_HHMMSS` form.
use vstd::prelude::*;
use chrono::Datelike;
use chrono::Timelike;
use crate::text::{padded, push_padded, lemma_decimal_len_bound, pow10};

verus! {

/// A calendar date and wall-clock time to the second.
#[derive(Clone, Copy, Debug, PartialEq, Eq, Structural)]
pub struct Timestamp {
    pub year: i32,
    pub month: u32,
    pub day: u32,
    pub hour: u32,
    pub minute: u32,
    pub second: u32,
}

impl Timestamp {
    /// Every field lies in its calendar range, and the year has at most
    /// four digits.
    pub open spec fn wf(&self) -> bool {
        0 <= self.year <= 9999 && 1 <= self.month <= 12 && 1 <= self.day <= 31
            && self.hour <= 23 && self.minute <= 59 && self.second <= 59
    }

    /// The fields other than the year lie in their calendar ranges.
    pub open spec fn fields_in_range(&self) -> bool {
        1 <= self.month <= 12 && 1 <= self.day <= 31 && self.hour <= 23 && self.minute <= 59
            && self.second <= 59
    }

    /// `YYYYMMDD_HHMMSS`.
    pub open spec fn compact(&self) -> Seq<char> {
        padded(self.year as nat, 4) + padded(self.month as nat, 2) + padded(self.day as nat, 2)
            + seq!['_'] + padded(self.hour as nat, 2) + padded(self.minute as nat, 2)
            + padded(self.second as nat, 2)
    }

    /// Builds a timestamp from its fields.
    pub fn new(year: i32, month: u32, day: u32, hour: u32, minute: u32, second: u32) -> (r: Timestamp)
        ensures
            r == (Timestamp { year, month, day, hour, minute, second }),
    {
        Timestamp { year, month, day, hour, minute, second }
    }

    /// Whether every field lies in its range.
    pub fn is_valid(&self) -> (r: bool)
        ensures
            r == self.wf(),
    {
        0 <= self.year && self.year <= 9999 && 1 <= self.month && self.month <= 12 && 1 <= self.day
            && self.day <= 31 && self.hour <= 23 && self.minute <= 59 && self.second <= 59
    }

    /// The compact `YYYYMMDD_HHMMSS` form.
    pub fn to_compact(&self) -> (r: String)
        requires
            self.wf(),
        ensures
            r@ == self.compact(),
    {
        let mut s = String::new();
        push_padded(&mut s, self.year as u64, 4);
        push_padded(&mut s, self.month as u64, 2);
        push_padded(&mut s, self.day as u64, 2);
        let sep = "_";
        proof {
            reveal_strlit("_");
        }
        s.append(sep);
        push_padded(&mut s, self.hour as u64, 2);
        push_padded(&mut s, self.minute as u64, 2);
        push_padded(&mut s, self.second as u64, 2);
        assert(s@ =~= self.compact());
        s
    }
}

/// A zero-padded numeral of a number below `10^width` has exactly `width`
/// characters.
pub proof fn lemma_padded_len(n: nat, width: nat)
    requires
        width >= 1,
        n < pow10(width),
    ensures
        padded(n, width).len() == width,
{
    lemma_decimal_len_bound(n, width, pow10(width));
}

/// The compact form of a valid timestamp has fifteen characters.
pub proof fn lemma_compact_len(t: Timestamp)
    requires
        t.wf(),
    ensures
        t.compact().len() == 15,
{
    reveal_with_fuel(pow10, 5);
    lemma_padded_len(t.year as nat, 4);
    lemma_padded_len(t.month as nat, 2);
    lemma_padded_len(t.day as nat, 2);
    lemma_padded_len(t.hour as nat, 2);
    lemma_padded_len(t.minute as nat, 2);
    lemma_padded_len(t.second as nat, 2);
}

/// Relies on chrono's `Local::now` and the `Datelike` / `Timelike` getters:
/// the current local date and time, month 1 to 12, day 1 to 31, hour 0 to
/// 23, minute and second 0 to 59.
#[verifier::external_body]
pub(crate) fn local_now() -> (r: Timestamp)
    ensures
        r.fields_in_range(),
{
    let now = chrono::Local::now();
    Timestamp {
        year: now.year(),
        month: now.month(),
        day: now.day(),
        hour: now.hour(),
        minute: now.minute(),
        second: now.second(),
    }
}

} // verus!
