//! Wall-clock timestamps at whole-second resolution and their
//! `YYYYMMDD-HHMMSS` rendering.

use vstd::prelude::*;

use crate::text::{dec_str, push_char, u64_to_padded, zero_pad};

verus! {

/// A local calendar instant, one field per clock component.
#[derive(Clone, Copy, Debug)]
pub struct Timestamp {
    pub year: i32,
    pub month: u32,
    pub day: u32,
    pub hour: u32,
    pub minute: u32,
    pub second: u32,
}

impl Timestamp {
    /// The field ranges of a real calendar instant.
    pub open spec fn wf(self) -> bool {
        &&& 1 <= self.month <= 12
        &&& 1 <= self.day <= 31
        &&& self.hour <= 23
        &&& self.minute <= 59
        &&& self.second <= 59
    }
}

/// The year's characters: four digits, zero-padded, wider if it does not fit,
/// with a leading sign for years before the common era.
pub open spec fn year_chars(y: int) -> Seq<char> {
    if y < 0 {
        seq!['-'] + zero_pad(dec_str((-y) as nat), 4)
    } else {
        zero_pad(dec_str(y as nat), 4)
    }
}

/// The `YYYYMMDD-HHMMSS` characters of a timestamp.
pub open spec fn timestamp_chars(t: Timestamp) -> Seq<char> {
    year_chars(t.year as int) + zero_pad(dec_str(t.month as nat), 2) + zero_pad(
        dec_str(t.day as nat),
        2,
    ) + seq!['-'] + zero_pad(dec_str(t.hour as nat), 2) + zero_pad(dec_str(t.minute as nat), 2)
        + zero_pad(dec_str(t.second as nat), 2)
}

/// Relies on `chrono::Local::now` and the `Datelike` / `Timelike` accessors:
/// the month runs from 1 to 12, the day of month from 1 to 31, the hour from
/// 0 to 23, the minute and the second from 0 to 59.
#[verifier::external_body]
pub(crate) fn local_now() -> (t: Timestamp)
    ensures
        t.wf(),
{
    let now = chrono::Local::now();
    Timestamp {
        year: chrono::Datelike::year(&now),
        month: chrono::Datelike::month(&now),
        day: chrono::Datelike::day(&now),
        hour: chrono::Timelike::hour(&now),
        minute: chrono::Timelike::minute(&now),
        second: chrono::Timelike::second(&now),
    }
}

fn year_to_string(y: i32) -> (r: String)
    ensures
        r@ == year_chars(y as int),
{
    if y < 0 {
        let magnitude = -(y as i64);
        let mut s = String::new();
        push_char(&mut s, '-');
        proof {
            assert(s@ =~= seq!['-']);
        }
        s.concat(u64_to_padded(magnitude as u64, 4).as_str())
    } else {
        u64_to_padded(y as u64, 4)
    }
}

/// The `YYYYMMDD-HHMMSS` text of `t`.
pub fn format_timestamp(t: &Timestamp) -> (r: String)
    ensures
        r@ == timestamp_chars(*t),
{
    let mut s = year_to_string(t.year);
    s.append(u64_to_padded(t.month as u64, 2).as_str());
    s.append(u64_to_padded(t.day as u64, 2).as_str());
    push_char(&mut s, '-');
    s.append(u64_to_padded(t.hour as u64, 2).as_str());
    s.append(u64_to_padded(t.minute as u64, 2).as_str());
    s.append(u64_to_padded(t.second as u64, 2).as_str());
    proof {
        assert(s@ =~= timestamp_chars(*t));
    }
    s
}

} // verus!
