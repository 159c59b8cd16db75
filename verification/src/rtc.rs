//! The time of day from the registers of a real-time clock.

use vstd::prelude::*;

verus! {

/// A span of time since the first second of 1970.
#[derive(Clone, Copy, Debug, PartialEq, Eq, Structural)]
pub struct Duration {
    pub secs: i64,
    pub nanos: i32,
}

/// The clock, as its registers were read in one pass while it was not updating.
#[derive(Clone, Copy, Debug, PartialEq, Eq, Structural)]
pub struct RTC {
    pub second: u8,
    pub minute: u8,
    pub hour: u8,
    pub day: u8,
    pub month: u8,
    /// The year within its century.
    pub year: u8,
    /// The status register that says how the others are written: bit 2 is set where
    /// they hold plain binary numbers, bit 1 where the hour runs to 24.
    pub register_b: u8,
}

/// The number that `value` holds as binary-coded decimal: its low four bits are the
/// ones, the rest the tens.
pub open spec fn bcd(value: nat) -> nat {
    value % 16 + (value / 16) * 10
}

/// The days of a common year that lie before the first of `month`.
pub open spec fn days_before_month(month: nat) -> nat {
    if month == 2 {
        31
    } else if month == 3 {
        59
    } else if month == 4 {
        90
    } else if month == 5 {
        120
    } else if month == 6 {
        151
    } else if month == 7 {
        181
    } else if month == 8 {
        212
    } else if month == 9 {
        243
    } else if month == 10 {
        273
    } else if month == 11 {
        304
    } else if month == 12 {
        334
    } else {
        0
    }
}

/// The leap days between 1970 and the given month of `year`, for years from 1972 on,
/// with every fourth year taken as a leap year.
pub open spec fn leap_days(year: nat, month: nat) -> int {
    (year - 1972) / 4 + 1 - if year % 4 == 0 && month <= 2 {
        1int
    } else {
        0int
    }
}

/// The seconds from the first second of 1970 to the given moment, with every fourth
/// year taken as a leap year: the Unix time of any date from 1972 to 2099.
pub open spec fn seconds_since_epoch(
    year: nat,
    month: nat,
    day: nat,
    hour: nat,
    minute: nat,
    second: nat,
) -> int {
    let days = (year - 1970) * 365 + leap_days(year, month) + days_before_month(month) + day - 1;
    days * 86400 + hour * 3600 + minute * 60 + second
}

impl RTC {
    /// Whether the registers hold binary-coded decimals.
    pub open spec fn is_bcd(self) -> bool {
        (self.register_b / 4) % 2 == 0
    }

    /// Whether the hour runs to 24.
    pub open spec fn is_24_hour(self) -> bool {
        (self.register_b / 2) % 2 == 1
    }

    /// What a register holds, read as the status register says.
    pub open spec fn number(self, raw: nat) -> nat {
        if self.is_bcd() {
            bcd(raw)
        } else {
            raw
        }
    }

    /// The hour of the day. The top bit of the register marks the afternoon; it is
    /// taken off before the rest is read. Twelve hours are added, modulo 24, where the
    /// afternoon is marked or the clock does not run to 24.
    pub open spec fn hour_of_day(self) -> nat {
        let hour = self.number((self.hour % 128) as nat);
        if !self.is_24_hour() || self.hour >= 128 {
            (hour + 12) % 24
        } else {
            hour
        }
    }

    /// The moment that the registers show, in seconds since the first second of 1970.
    /// The century is the twenty-first.
    pub open spec fn seconds(self) -> int {
        seconds_since_epoch(
            self.number(self.year as nat) + 2000,
            self.number(self.month as nat),
            self.number(self.day as nat),
            self.hour_of_day(),
            self.number(self.minute as nat),
            self.number(self.second as nat),
        )
    }

    /// The clock with the given contents of its registers.
    pub fn new(
        second: u8,
        minute: u8,
        hour: u8,
        day: u8,
        month: u8,
        year: u8,
        register_b: u8,
    ) -> (r: RTC)
        ensures
            r == (RTC { second, minute, hour, day, month, year, register_b }),
    {
        RTC { second, minute, hour, day, month, year, register_b }
    }

    /// The time that the registers show.
    pub fn time(&self) -> (r: Duration)
        ensures
            r.secs == self.seconds(),
            r.nanos == 0,
    {
        let mut second: usize = self.second as usize;
        let mut minute: usize = self.minute as usize;
        let mut day: usize = self.day as usize;
        let mut month: usize = self.month as usize;
        let mut year: usize = self.year as usize;
        let register_b: u8 = self.register_b;

        assert((register_b & 4 != 4) == ((register_b / 4) % 2 == 0)) by (bit_vector);
        if register_b & 4 != 4 {
            second = cvt_bcd(second);
            minute = cvt_bcd(minute);
            day = cvt_bcd(day);
            month = cvt_bcd(month);
            year = cvt_bcd(year);
        }
        let hour = self.hour();
        year += 2000;

        Duration { secs: unix_seconds(year, month, day, hour, minute, second), nanos: 0 }
    }

    /// The hour of the day that the registers show.
    fn hour(&self) -> (r: usize)
        ensures
            r == self.hour_of_day(),
            r < 128,
    {
        let raw: usize = self.hour as usize;
        let register_b: u8 = self.register_b;
        let low: usize = raw & 0x7F;
        let high: usize = raw & 0x80;

        assert((register_b & 4 != 4) == ((register_b / 4) % 2 == 0)) by (bit_vector);
        assert((register_b & 2 != 2) == ((register_b / 2) % 2 == 0)) by (bit_vector);
        assert(low == raw % 128 && (high == 0x80) == (raw >= 128) && (high == 0 || high == 0x80))
            by (bit_vector)
            requires
                raw < 256,
                low == raw & 0x7F,
                high == raw & 0x80,
        ;

        let number: usize = if register_b & 4 != 4 {
            cvt_bcd(low)
        } else {
            low
        };
        let mut hour: usize = number | high;
        assert(hour & 0x7F == number && (hour & 0x80 == 0x80) == (high == 0x80) && (high == 0
            ==> hour == number)) by (bit_vector)
            requires
                hour == number | high,
                number < 128,
                high == 0 || high == 0x80,
        ;
        if register_b & 2 != 2 || hour & 0x80 == 0x80 {
            hour = ((hour & 0x7F) + 12) % 24;
        }
        hour
    }
}

/// Computes [`seconds_since_epoch`] for the numbers that the registers can hold.
fn unix_seconds(year: usize, month: usize, day: usize, hour: usize, minute: usize, second: usize)
    -> (secs: i64)
    requires
        2000 <= year < 2256,
        month < 256,
        day < 256,
        hour < 256,
        minute < 256,
        second < 256,
    ensures
        secs == seconds_since_epoch(
            year as nat,
            month as nat,
            day as nat,
            hour as nat,
            minute as nat,
            second as nat,
        ),
{
    let mut secs: i64 = (year as i64 - 1970) * 31536000;

    let mut leap_days: i64 = (year as i64 - 1972) / 4 + 1;
    if year % 4 == 0 {
        if month <= 2 {
            leap_days -= 1;
        }
    }
    secs += leap_days * 86400;

    if month == 2 {
        secs += 2678400;
    } else if month == 3 {
        secs += 5097600;
    } else if month == 4 {
        secs += 7776000;
    } else if month == 5 {
        secs += 10368000;
    } else if month == 6 {
        secs += 13046400;
    } else if month == 7 {
        secs += 15638400;
    } else if month == 8 {
        secs += 18316800;
    } else if month == 9 {
        secs += 20995200;
    } else if month == 10 {
        secs += 23587200;
    } else if month == 11 {
        secs += 26265600;
    } else if month == 12 {
        secs += 28857600;
    }
    secs += (day as i64 - 1) * 86400;
    secs += hour as i64 * 3600;
    secs += minute as i64 * 60;
    secs += second as i64;
    secs
}

/// Reads a binary-coded decimal.
pub fn cvt_bcd(value: usize) -> (r: usize)
    ensures
        r == bcd(value as nat),
{
    assert(value & 0xF == value % 16) by (bit_vector);
    (value & 0xF) + ((value / 16) * 10)
}

} // verus!
