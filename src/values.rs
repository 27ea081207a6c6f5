//! Sample values and their fixed-width text forms.
use crate::text::{
    abs, append_fixed, append_left_padded, append_padded, digits, fixed, magnitude, minus_if,
    zero_pad,
};
use vstd::prelude::*;
use vstd::string::*;

verus! {

/// A time of day with nanosecond precision.
#[derive(Debug, Clone, Copy, PartialEq, Eq)]
pub struct TimeOfDay {
    pub hour: u8,
    pub minute: u8,
    pub second: u8,
    pub nanosecond: u32,
}

impl TimeOfDay {
    /// Every field within its range.
    pub open spec fn wf(&self) -> bool {
        self.hour < 24 && self.minute < 60 && self.second < 60 && self.nanosecond < 1_000_000_000
    }

    /// The time of day with these fields, where each is within its range.
    pub fn new(hour: u8, minute: u8, second: u8, nanosecond: u32) -> (r: Option<TimeOfDay>)
        ensures
            r is Some <==> (hour < 24 && minute < 60 && second < 60 && nanosecond
                < 1_000_000_000),
            r matches Some(t) ==> t.wf() && t.hour == hour && t.minute == minute && t.second
                == second && t.nanosecond == nanosecond,
    {
        if hour < 24 && minute < 60 && second < 60 && nanosecond < 1_000_000_000 {
            Some(TimeOfDay { hour, minute, second, nanosecond })
        } else {
            None
        }
    }
}

/// An angle in degrees, minutes and seconds, with the hemisphere it lies in.
#[derive(Debug, Clone, Copy, PartialEq, Eq)]
pub struct Coordinates {
    pub degrees: u16,
    pub minutes: u8,
    /// Seconds of arc, in millionths.
    pub micro_seconds: u32,
    /// `'N'`, `'S'`, `'E'` or `'W'`.
    pub bearing: char,
}

/// Coordinates count positive to the north and to the west.
pub open spec fn positive_bearing(b: char) -> bool {
    b == 'N' || b == 'W'
}

/// The size of the angle in millionths of a minute, the seconds rounded half
/// up.
pub open spec fn minutes_magnitude(c: Coordinates) -> nat {
    c.degrees as nat * 60_000_000 + c.minutes as nat * 1_000_000 + (c.micro_seconds as nat + 30)
        / 60
}

/// The angle in millionths of a minute, signed by its bearing.
pub open spec fn decimal_minutes(c: Coordinates) -> int {
    if positive_bearing(c.bearing) {
        minutes_magnitude(c) as int
    } else {
        -(minutes_magnitude(c) as int)
    }
}

fn minutes_of(c: &Coordinates) -> (r: u64)
    ensures
        r as nat == minutes_magnitude(*c),
{
    c.degrees as u64 * 60_000_000 + c.minutes as u64 * 1_000_000 + (c.micro_seconds as u64 + 30)
        / 60
}

/// The angle in millionths of a minute, signed by its bearing: positive for
/// north and west, negative for south and east.
pub fn dms_to_minutes(c: &Coordinates) -> (r: i64)
    ensures
        r as int == decimal_minutes(*c),
{
    let m = minutes_of(c);
    if c.bearing == 'N' || c.bearing == 'W' {
        m as i64
    } else {
        -(m as i64)
    }
}

/// Equal angles with opposite bearings give opposite decimal minutes; north and
/// west never give a negative value, south and east never a positive one.
pub proof fn lemma_bearing_sign(north_west: Coordinates, south_east: Coordinates)
    requires
        north_west.bearing == 'N' || north_west.bearing == 'W',
        south_east.bearing == 'S' || south_east.bearing == 'E',
        north_west.degrees == south_east.degrees,
        north_west.minutes == south_east.minutes,
        north_west.micro_seconds == south_east.micro_seconds,
    ensures
        decimal_minutes(north_west) >= 0,
        decimal_minutes(south_east) <= 0,
        decimal_minutes(north_west) == -decimal_minutes(south_east),
{
}

/// One value of a sample row.
#[derive(Debug, Clone, Copy, PartialEq, Eq)]
pub enum ChannelValue {
    /// Number of satellites in use, with 64 added while the brake trigger is
    /// active and 128 added while a DGPS correction is used.
    Satellites(u8),
    /// UTC time since midnight.
    Time(TimeOfDay),
    /// Latitude or longitude.
    Coordinates(Coordinates),
    /// Velocity in thousandths of a km/h.
    Velocity(i64),
    /// Heading from north in hundredths of a degree.
    Heading(i64),
    /// Height above sea level on the WGS84 model, in hundredths of a meter.
    Height(i64),
}

/// `HHMMSS.ss`: the fraction of the second truncated to hundredths.
pub open spec fn time_text(t: TimeOfDay) -> Seq<char> {
    zero_pad(digits(t.hour as nat), 2) + zero_pad(digits(t.minute as nat), 2) + zero_pad(
        digits(t.second as nat),
        2,
    ) + seq!['.'] + zero_pad(digits(t.nanosecond as nat / 10_000_000), 2)
}

/// A sign, then the decimal minutes on six fractional digits, zero padded to
/// thirteen characters in all.
pub open spec fn coordinates_text(c: Coordinates) -> Seq<char> {
    seq![if positive_bearing(c.bearing) { '+' } else { '-' }] + zero_pad(
        fixed(minutes_magnitude(c), 1_000_000, 6),
        12,
    )
}

/// The value with a minus sign where negative and `places` fractional digits,
/// filled with zeros on the left up to `width` characters.
pub open spec fn unsigned_text(v: int, unit: nat, places: nat, width: nat) -> Seq<char> {
    zero_pad(minus_if(v < 0) + fixed(abs(v), unit, places), width)
}

/// The text of a value in a data row.
pub open spec fn value_text(v: ChannelValue) -> Seq<char> {
    match v {
        ChannelValue::Satellites(n) => zero_pad(digits(n as nat), 3),
        ChannelValue::Time(t) => time_text(t),
        ChannelValue::Coordinates(c) => coordinates_text(c),
        ChannelValue::Velocity(v) => unsigned_text(v as int, 1000, 3, 7),
        ChannelValue::Heading(v) => unsigned_text(v as int, 100, 2, 6),
        ChannelValue::Height(v) => seq![if v < 0 { '-' } else { '+' }] + zero_pad(
            fixed(abs(v as int), 100, 2),
            7,
        ),
    }
}

fn append_unsigned(out: &mut String, v: i64, unit: u64, places: usize, width: usize)
    requires
        unit > 0,
    ensures
        final(out)@ == old(out)@ + unsigned_text(v as int, unit as nat, places as nat, width as nat),
{
    let mut t = String::new();
    if v < 0 {
        proof {
            reveal_strlit("-");
        }
        t.append("-");
    }
    append_fixed(&mut t, magnitude(v), unit, places);
    assert(t@ =~= minus_if(v < 0) + fixed(abs(v as int), unit as nat, places as nat));
    append_left_padded(out, t.as_str(), width);
}

fn append_sign(out: &mut String, negative: bool)
    ensures
        final(out)@ == old(out)@ + seq![if negative { '-' } else { '+' }],
{
    proof {
        reveal_strlit("-");
        reveal_strlit("+");
    }
    if negative {
        out.append("-");
    } else {
        out.append("+");
    }
}

impl ChannelValue {
    /// Appends the text of the value.
    pub fn append_to(&self, out: &mut String)
        ensures
            final(out)@ == old(out)@ + value_text(*self),
    {
        let ghost start = out@;
        match self {
            ChannelValue::Satellites(n) => append_padded(out, *n as u64, 3),
            ChannelValue::Time(t) => {
                append_padded(out, t.hour as u64, 2);
                append_padded(out, t.minute as u64, 2);
                append_padded(out, t.second as u64, 2);
                proof {
                    reveal_strlit(".");
                }
                out.append(".");
                append_padded(out, (t.nanosecond / 10_000_000) as u64, 2);
                assert(out@ =~= start + time_text(*t));
            },
            ChannelValue::Coordinates(c) => {
                append_sign(out, !(c.bearing == 'N' || c.bearing == 'W'));
                let mut t = String::new();
                append_fixed(&mut t, minutes_of(c), 1_000_000, 6);
                append_left_padded(out, t.as_str(), 12);
                assert(out@ =~= start + coordinates_text(*c));
            },
            ChannelValue::Velocity(v) => append_unsigned(out, *v, 1000, 3, 7),
            ChannelValue::Heading(v) => append_unsigned(out, *v, 100, 2, 6),
            ChannelValue::Height(v) => {
                append_sign(out, *v < 0);
                let mut t = String::new();
                append_fixed(&mut t, magnitude(*v), 100, 2);
                append_left_padded(out, t.as_str(), 7);
                assert(out@ =~= start + value_text(*self));
            },
        }
    }

    /// The text of the value.
    pub fn to_string(&self) -> (r: String)
        ensures
            r@ == value_text(*self),
    {
        let mut r = String::new();
        self.append_to(&mut r);
        assert(r@ =~= value_text(*self));
        r
    }
}

} // verus!
