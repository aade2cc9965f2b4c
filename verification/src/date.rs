use vstd::prelude::*;

verus! {

/// A calendar date held as plain year, month and day numbers.
///
/// The year is kept in `0..=9999` so that the date always formats as a
/// four-digit year; months and days are one-based.
#[derive(Clone, Copy, PartialEq, Eq, Structural, Debug)]
pub struct Date {
    pub year: i32,
    pub month: u8,
    pub day: u8,
}

pub open spec fn spec_is_leap_year(y: int) -> bool {
    (y % 4 == 0 && y % 100 != 0) || y % 400 == 0
}

pub open spec fn spec_days_in_month(y: int, m: int) -> int {
    if m == 2 {
        if spec_is_leap_year(y) {
            29
        } else {
            28
        }
    } else if m == 4 || m == 6 || m == 9 || m == 11 {
        30
    } else {
        31
    }
}

impl Date {
    pub open spec fn valid(self) -> bool {
        &&& 0 <= self.year <= 9999
        &&& 1 <= self.month <= 12
        &&& 1 <= self.day <= spec_days_in_month(self.year as int, self.month as int)
    }
}

/// A day offset keeps the date inside its month exactly when the shifted
/// day number is still a day of that same month.
pub open spec fn shift_stays_in_month(d: Date, off: int) -> bool {
    1 <= d.day + off <= spec_days_in_month(d.year as int, d.month as int)
}

/// The date a day offset leads to: the shifted date when it stays in the
/// month, and the date itself when the shift would leave the month.
pub open spec fn spec_shift_date(d: Date, off: int) -> Date {
    if shift_stays_in_month(d, off) {
        Date { year: d.year, month: d.month, day: (d.day + off) as u8 }
    } else {
        d
    }
}

pub fn days_in_month(year: i32, month: u8) -> (n: u8)
    requires
        0 <= year,
        1 <= month <= 12,
    ensures
        n as int == spec_days_in_month(year as int, month as int),
{
    if month == 2 {
        if (year % 4 == 0 && year % 100 != 0) || year % 400 == 0 {
            29
        } else {
            28
        }
    } else if month == 4 || month == 6 || month == 9 || month == 11 {
        30
    } else {
        31
    }
}

/// Month-clamp law: a day shift never moves the date into another month
/// or year. A shift whose day number leaves the month — which is exactly
/// when the shifted date would fall in a different month — is rejected
/// and leaves the date untouched; an accepted shift moves only the day.
pub proof fn lemma_month_clamp(d: Date, off: int)
    ensures
        spec_shift_date(d, off).month == d.month,
        spec_shift_date(d, off).year == d.year,
        !shift_stays_in_month(d, off) ==> spec_shift_date(d, off) == d,
        shift_stays_in_month(d, off) ==> spec_shift_date(d, off).day == d.day + off,
{
}

pub open spec fn spec_digit(d: int) -> char {
    if d == 0 {
        '0'
    } else if d == 1 {
        '1'
    } else if d == 2 {
        '2'
    } else if d == 3 {
        '3'
    } else if d == 4 {
        '4'
    } else if d == 5 {
        '5'
    } else if d == 6 {
        '6'
    } else if d == 7 {
        '7'
    } else if d == 8 {
        '8'
    } else {
        '9'
    }
}

/// A date written out as a four-digit year, a two-digit month and a
/// two-digit day, separated by hyphens.
pub open spec fn spec_format_date(d: Date) -> Seq<char> {
    seq![
        spec_digit(d.year as int / 1000),
        spec_digit((d.year as int / 100) % 10),
        spec_digit((d.year as int / 10) % 10),
        spec_digit(d.year as int % 10),
        '-',
        spec_digit(d.month as int / 10),
        spec_digit(d.month as int % 10),
        '-',
        spec_digit(d.day as int / 10),
        spec_digit(d.day as int % 10),
    ]
}

fn digit_str(d: u8) -> (r: &'static str)
    requires
        d < 10,
    ensures
        r@ == seq![spec_digit(d as int)],
{
    proof {
        reveal_strlit("0");
        reveal_strlit("1");
        reveal_strlit("2");
        reveal_strlit("3");
        reveal_strlit("4");
        reveal_strlit("5");
        reveal_strlit("6");
        reveal_strlit("7");
        reveal_strlit("8");
        reveal_strlit("9");
    }
    if d == 0 {
        proof {
            assert(("0")@ =~= seq![spec_digit(0)]);
        }
        "0"
    } else if d == 1 {
        proof {
            assert(("1")@ =~= seq![spec_digit(1)]);
        }
        "1"
    } else if d == 2 {
        proof {
            assert(("2")@ =~= seq![spec_digit(2)]);
        }
        "2"
    } else if d == 3 {
        proof {
            assert(("3")@ =~= seq![spec_digit(3)]);
        }
        "3"
    } else if d == 4 {
        proof {
            assert(("4")@ =~= seq![spec_digit(4)]);
        }
        "4"
    } else if d == 5 {
        proof {
            assert(("5")@ =~= seq![spec_digit(5)]);
        }
        "5"
    } else if d == 6 {
        proof {
            assert(("6")@ =~= seq![spec_digit(6)]);
        }
        "6"
    } else if d == 7 {
        proof {
            assert(("7")@ =~= seq![spec_digit(7)]);
        }
        "7"
    } else if d == 8 {
        proof {
            assert(("8")@ =~= seq![spec_digit(8)]);
        }
        "8"
    } else {
        proof {
            assert(("9")@ =~= seq![spec_digit(9)]);
        }
        "9"
    }
}

/// Write a date out as its ten-character year-month-day form.
pub fn format_date(d: Date) -> (r: String)
    requires
        d.valid(),
    ensures
        r@ == spec_format_date(d),
{
    let y = d.year;
    let mut s = String::new();
    proof {
        reveal_strlit("-");
        assert(("-")@ =~= seq!['-']);
    }
    s.append(digit_str((y / 1000) as u8));
    s.append(digit_str(((y / 100) % 10) as u8));
    s.append(digit_str(((y / 10) % 10) as u8));
    s.append(digit_str((y % 10) as u8));
    s.append("-");
    s.append(digit_str(d.month / 10));
    s.append(digit_str(d.month % 10));
    s.append("-");
    s.append(digit_str(d.day / 10));
    s.append(digit_str(d.day % 10));
    proof {
        assert(s@ =~= spec_format_date(d));
    }
    s
}

/// Relies on time::OffsetDateTime::now_local and time::Date's accessors:
/// the current local day — or the UTC day where the platform refuses to
/// tell the local offset — as plain year, month and day numbers, always a
/// valid calendar date with the year in -9999..=9999.
#[verifier::external_body]
fn today_local() -> (r: (i32, u8, u8))
    ensures
        -9999 <= r.0 <= 9999,
        1 <= r.1 <= 12,
        1 <= r.2 <= spec_days_in_month(r.0 as int, r.1 as int),
{
    let now = time::OffsetDateTime::now_local().unwrap_or_else(|_| time::OffsetDateTime::now_utc());
    let d = now.date();
    (d.year(), u8::from(d.month()), d.day())
}

/// Today's date, clamped into the supported year range: a clock that reads
/// a year before 0 falls back to the first day of year 0.
pub fn today() -> (r: Date)
    ensures
        r.valid(),
{
    let (y, m, d) = today_local();
    if y >= 0 {
        Date { year: y, month: m, day: d }
    } else {
        Date { year: 0, month: 1, day: 1 }
    }
}

} // verus!
