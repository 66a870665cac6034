//! The time stamp line of a report: local date and time as the console prints it.

use vstd::prelude::*;
use vstd::string::*;
use crate::text::{decimal, decimal_text, pad_left, right_justified, zero_padded, zero_padded_text};

verus! {

/// A local date and time, to the minute.
#[derive(Clone, Copy, Debug, PartialEq, Eq, Structural)]
pub struct LocalTime {
    pub year: u32,
    /// 1 to 12.
    pub month: u32,
    /// 1 to 31.
    pub day: u32,
    /// 0 to 23.
    pub hour: u32,
    /// 0 to 59.
    pub minute: u32,
}

/// The upper-case three-letter abbreviation of month `m`.
pub open spec fn month_abbreviation(m: nat) -> Seq<char> {
    if m == 1 { "JAN"@ }
    else if m == 2 { "FEB"@ }
    else if m == 3 { "MAR"@ }
    else if m == 4 { "APR"@ }
    else if m == 5 { "MAY"@ }
    else if m == 6 { "JUN"@ }
    else if m == 7 { "JUL"@ }
    else if m == 8 { "AUG"@ }
    else if m == 9 { "SEP"@ }
    else if m == 10 { "OCT"@ }
    else if m == 11 { "NOV"@ }
    else { "DEC"@ }
}

/// The hour on a twelve-hour clock, 1 to 12.
pub open spec fn twelve_hour(h: nat) -> nat {
    if h % 12 == 0 { 12 } else { h % 12 }
}

pub open spec fn meridiem(h: nat) -> Seq<char> {
    if h < 12 { "AM"@ } else { "PM"@ }
}

impl LocalTime {
    /// Each field lies in its range, and the year has at most four digits.
    pub open spec fn wf(self) -> bool {
        &&& self.year <= 9999
        &&& 1 <= self.month <= 12
        &&& 1 <= self.day <= 31
        &&& self.hour < 24
        &&& self.minute < 60
    }

    /// The printed stamp, as in `OCT  9, 2026  3:07 PM`: month abbreviation,
    /// blank-padded day, comma, four-digit year, blank-padded twelve-hour
    /// hour, colon, two-digit minute and AM or PM.
    pub open spec fn text(self) -> Seq<char> {
        month_abbreviation(self.month as nat) + " "@ + pad_left(decimal(self.day as nat), 2) + ", "@
            + zero_padded(self.year as nat, 4) + " "@ + pad_left(
            decimal(twelve_hour(self.hour as nat)),
            2,
        ) + ":"@ + zero_padded(self.minute as nat, 2) + " "@ + meridiem(self.hour as nat)
    }

    /// Whether each field lies in its range.
    pub fn is_valid(&self) -> (r: bool)
        ensures
            r == self.wf(),
    {
        self.year <= 9999 && 1 <= self.month && self.month <= 12 && 1 <= self.day && self.day <= 31
            && self.hour < 24 && self.minute < 60
    }

    /// The printed stamp.
    pub fn stamp(&self) -> (r: String)
        requires
            self.wf(),
        ensures
            r@ == self.text(),
    {
        let m = self.month;
        let month = if m == 1 { "JAN" }
        else if m == 2 { "FEB" }
        else if m == 3 { "MAR" }
        else if m == 4 { "APR" }
        else if m == 5 { "MAY" }
        else if m == 6 { "JUN" }
        else if m == 7 { "JUL" }
        else if m == 8 { "AUG" }
        else if m == 9 { "SEP" }
        else if m == 10 { "OCT" }
        else if m == 11 { "NOV" }
        else { "DEC" };
        let h12 = if self.hour % 12 == 0 { 12 } else { self.hour % 12 };
        let suffix = if self.hour < 12 { "AM" } else { "PM" };
        let mut r = String::from_str(month);
        r.append(" ");
        let day = decimal_text(self.day as usize);
        r.append(right_justified(day.as_str(), 2).as_str());
        r.append(", ");
        r.append(zero_padded_text(self.year as usize, 4).as_str());
        r.append(" ");
        let hour = decimal_text(h12 as usize);
        r.append(right_justified(hour.as_str(), 2).as_str());
        r.append(":");
        r.append(zero_padded_text(self.minute as usize, 2).as_str());
        r.append(" ");
        r.append(suffix);
        assert(r@ =~= self.text());
        r
    }
}

} // verus!
