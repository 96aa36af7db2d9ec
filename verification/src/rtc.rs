//! Calendar timestamps from the CMOS real-time clock.
//!
//! The port reads themselves (address 0x70 / data 0x71, with the
//! update-in-progress wait) belong to the embedding kernel; this module turns
//! the raw register bytes it hands over into a normalized timestamp:
//! binary-coded-decimal registers are decoded when status register B says the
//! clock uses BCD, a 12-hour clock is folded onto 24 hours, and the two-digit
//! year is placed in the third millennium.

use vstd::prelude::*;

verus! {

/// Status-register-B flag: registers hold plain binary, not BCD.
pub const STATUS_B_BINARY_DATA: u8 = 0x04;

/// Status-register-B flag: the clock counts a 24-hour day.
pub const STATUS_B_MODE_24_HOUR: u8 = 0x02;

/// A BCD register byte read as binary: the low nibble counts ones, the next
/// three bits count tens, and the top bit (the 12-hour clock's PM flag) is
/// kept as it is.
pub open spec fn spec_bdc_to_binary(value: u8) -> u8 {
    ((value & 0x80) + 10 * ((value >> 4) & 0x7) + (value & 0xF)) as u8
}

pub fn bdc_to_binary(value: u8) -> (r: u8)
    ensures
        r == spec_bdc_to_binary(value),
{
    proof {
        assert((value & 0x0F) + ((value & 0x70) / 16) * 10 <= 85) by (bit_vector);
        assert((value & 0x80) + 10 * ((value >> 4) & 0x7) + (value & 0xF) <= 213) by (bit_vector);
        assert(((((value & 0x0F) + ((value & 0x70) / 16) * 10) as u8) | (value & 0x80)) == (((value
            & 0x80) + 10 * ((value >> 4) & 0x7) + (value & 0xF)) as u8)) by (bit_vector);
    }
    (value & 0x0F) + ((value & 0x70) / 16) * 10 | (value & 0x80)
}

/// The raw values read from the clock's registers, straight from the data
/// port, plus status register B.
#[derive(Debug, Clone, Copy, PartialEq, Eq, Structural)]
pub struct RawCmosTime {
    pub seconds: u8,
    pub minuts: u8,
    pub hours: u8,
    pub day_of_month: u8,
    pub month: u8,
    pub year: u8,
    pub status_b: u8,
}

pub open spec fn cmos_binary_mode(status_b: u8) -> bool {
    status_b & STATUS_B_BINARY_DATA != 0
}

pub open spec fn cmos_24_hour_mode(status_b: u8) -> bool {
    status_b & STATUS_B_MODE_24_HOUR != 0
}

/// A register byte, decoded from BCD unless the clock reports binary mode.
pub open spec fn decoded_field(value: u8, status_b: u8) -> u8 {
    if cmos_binary_mode(status_b) {
        value
    } else {
        spec_bdc_to_binary(value)
    }
}

/// The hour register, decoded and folded onto the 24-hour clock the way the
/// hardware path always has: in 12-hour mode the top bit (the PM flag) is
/// masked off and twelve is added to every reading, modulo twenty-four.
pub open spec fn decoded_hours(value: u8, status_b: u8) -> u8 {
    let h = decoded_field(value, status_b);
    if cmos_24_hour_mode(status_b) {
        h
    } else {
        (((h & 0x7F) + 12) % 24) as u8
    }
}

/// A normalized timestamp.
#[derive(Debug, Clone, Copy, PartialEq, Eq, Structural)]
pub struct RTCDateTime {
    pub seconds: u8,
    pub minuts: u8,
    pub hours: u8,
    pub day_of_month: u8,
    pub month: u8,
    pub year: u16,
}

impl RTCDateTime {
    /// Normalizes one set of raw register reads.
    pub fn from_cmos(raw: RawCmosTime) -> (t: RTCDateTime)
        ensures
            t.seconds == decoded_field(raw.seconds, raw.status_b),
            t.minuts == decoded_field(raw.minuts, raw.status_b),
            t.hours == decoded_hours(raw.hours, raw.status_b),
            t.day_of_month == decoded_field(raw.day_of_month, raw.status_b),
            t.month == decoded_field(raw.month, raw.status_b),
            t.year == decoded_field(raw.year, raw.status_b) + 2000,
    {
        let binary = raw.status_b & STATUS_B_BINARY_DATA != 0;
        let seconds = if binary { raw.seconds } else { bdc_to_binary(raw.seconds) };
        let minuts = if binary { raw.minuts } else { bdc_to_binary(raw.minuts) };
        let mut hours = if binary { raw.hours } else { bdc_to_binary(raw.hours) };
        let day_of_month = if binary { raw.day_of_month } else { bdc_to_binary(raw.day_of_month) };
        let month = if binary { raw.month } else { bdc_to_binary(raw.month) };
        let year = if binary { raw.year } else { bdc_to_binary(raw.year) };

        if raw.status_b & STATUS_B_MODE_24_HOUR == 0 {
            proof {
                assert(hours & 0x7F <= 127) by (bit_vector);
            }
            hours = ((hours & 0x7F) + 12) % 24;
        }

        RTCDateTime {
            seconds,
            minuts,
            hours,
            day_of_month,
            month,
            year: (year as u16) + 2000,
        }
    }
}

/// The decimal digit `d` as a character.
pub open spec fn digit_char(d: u8) -> char {
    if d == 0 {
        '0'
    } else if d == 1 {
        '1'
    } else if d == 2 {
        '2'
    } else if d == 3 {
        '3'
    } else if d == 4 {
        '4'
    } else if d == 5 {
        '5'
    } else if d == 6 {
        '6'
    } else if d == 7 {
        '7'
    } else if d == 8 {
        '8'
    } else {
        '9'
    }
}

/// `v` in decimal, zero padded to at least two digits (a value of a hundred
/// or more keeps all three).
pub open spec fn two_digits(v: u8) -> Seq<char> {
    if v < 100 {
        seq![digit_char((v / 10) as u8), digit_char((v % 10) as u8)]
    } else {
        seq![
            digit_char((v / 100) as u8),
            digit_char(((v / 10) % 10) as u8),
            digit_char((v % 10) as u8),
        ]
    }
}

/// `v` in decimal, zero padded to at least four digits (a value of ten
/// thousand or more keeps all five).
pub open spec fn four_digits(v: u16) -> Seq<char> {
    if v < 10000 {
        seq![
            digit_char((v / 1000) as u8),
            digit_char(((v / 100) % 10) as u8),
            digit_char(((v / 10) % 10) as u8),
            digit_char((v % 10) as u8),
        ]
    } else {
        seq![
            digit_char((v / 10000) as u8),
            digit_char(((v / 1000) % 10) as u8),
            digit_char(((v / 100) % 10) as u8),
            digit_char(((v / 10) % 10) as u8),
            digit_char((v % 10) as u8),
        ]
    }
}

/// The timestamp written out: `YYYY-MM-DD HH:MM:SS`.
pub open spec fn datetime_text(t: RTCDateTime) -> Seq<char> {
    four_digits(t.year) + seq!['-'] + two_digits(t.month) + seq!['-'] + two_digits(t.day_of_month)
        + seq![' '] + two_digits(t.hours) + seq![':'] + two_digits(t.minuts) + seq![':']
        + two_digits(t.seconds)
}

fn append_digit(s: &mut String, d: u8)
    requires
        d < 10,
    ensures
        final(s)@ == old(s)@.push(digit_char(d)),
{
    match d {
        0 => {
            s.append("0");
            proof {
                reveal_strlit("0");
                assert(s@ =~= old(s)@.push(digit_char(d)));
            }
        },
        1 => {
            s.append("1");
            proof {
                reveal_strlit("1");
                assert(s@ =~= old(s)@.push(digit_char(d)));
            }
        },
        2 => {
            s.append("2");
            proof {
                reveal_strlit("2");
                assert(s@ =~= old(s)@.push(digit_char(d)));
            }
        },
        3 => {
            s.append("3");
            proof {
                reveal_strlit("3");
                assert(s@ =~= old(s)@.push(digit_char(d)));
            }
        },
        4 => {
            s.append("4");
            proof {
                reveal_strlit("4");
                assert(s@ =~= old(s)@.push(digit_char(d)));
            }
        },
        5 => {
            s.append("5");
            proof {
                reveal_strlit("5");
                assert(s@ =~= old(s)@.push(digit_char(d)));
            }
        },
        6 => {
            s.append("6");
            proof {
                reveal_strlit("6");
                assert(s@ =~= old(s)@.push(digit_char(d)));
            }
        },
        7 => {
            s.append("7");
            proof {
                reveal_strlit("7");
                assert(s@ =~= old(s)@.push(digit_char(d)));
            }
        },
        8 => {
            s.append("8");
            proof {
                reveal_strlit("8");
                assert(s@ =~= old(s)@.push(digit_char(d)));
            }
        },
        _ => {
            s.append("9");
            proof {
                reveal_strlit("9");
                assert(s@ =~= old(s)@.push(digit_char(d)));
            }
        },
    }
}

fn append_two_digits(s: &mut String, v: u8)
    ensures
        final(s)@ == old(s)@ + two_digits(v),
{
    if v >= 100 {
        append_digit(s, v / 100);
    }
    append_digit(s, (v / 10) % 10);
    append_digit(s, v % 10);
    proof {
        assert(s@ =~= old(s)@ + two_digits(v));
    }
}

fn append_four_digits(s: &mut String, v: u16)
    ensures
        final(s)@ == old(s)@ + four_digits(v),
{
    if v >= 10000 {
        append_digit(s, (v / 10000) as u8);
    }
    append_digit(s, ((v / 1000) % 10) as u8);
    append_digit(s, ((v / 100) % 10) as u8);
    append_digit(s, ((v / 10) % 10) as u8);
    append_digit(s, (v % 10) as u8);
    proof {
        assert(s@ =~= old(s)@ + four_digits(v));
    }
}

impl RTCDateTime {
    /// The timestamp written out, `YYYY-MM-DD HH:MM:SS`: every part zero
    /// padded to its usual width, kept whole when a denormal field (garbage
    /// registers can produce one) needs an extra digit.
    pub fn text(&self) -> (r: String)
        ensures
            r@ == datetime_text(*self),
    {
        let mut s = String::new();
        append_four_digits(&mut s, self.year);
        s.append("-");
        append_two_digits(&mut s, self.month);
        s.append("-");
        append_two_digits(&mut s, self.day_of_month);
        s.append(" ");
        append_two_digits(&mut s, self.hours);
        s.append(":");
        append_two_digits(&mut s, self.minuts);
        s.append(":");
        append_two_digits(&mut s, self.seconds);
        proof {
            reveal_strlit("-");
            reveal_strlit(" ");
            reveal_strlit(":");
            assert(s@ =~= datetime_text(*self));
        }
        s
    }
}

} // verus!
