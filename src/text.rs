//! Decimal text of integers: digits, zero padding and fixed-point numbers.
use vstd::prelude::*;
use vstd::string::*;

verus! {

/// The character of a decimal digit.
pub open spec fn digit_char(d: nat) -> char {
    seq!['0', '1', '2', '3', '4', '5', '6', '7', '8', '9'][d as int]
}

/// Decimal digits of `n`, most significant first, without leading zeros.
pub open spec fn digits(n: nat) -> Seq<char>
    decreases n,
{
    if n < 10 {
        seq![digit_char(n)]
    } else {
        digits(n / 10).push(digit_char(n % 10))
    }
}

/// `s` preceded by as many `'0'` as it takes to reach `width` characters.
pub open spec fn zero_pad(s: Seq<char>, width: nat) -> Seq<char> {
    if s.len() < width {
        Seq::new((width - s.len()) as nat, |i: int| '0') + s
    } else {
        s
    }
}

/// `m / unit` in decimal, a point, then `m % unit` on `places` digits.
pub open spec fn fixed(m: nat, unit: nat, places: nat) -> Seq<char> {
    digits(m / unit) + seq!['.'] + zero_pad(digits(m % unit), places)
}

/// The absolute value of `v`.
pub open spec fn abs(v: int) -> nat {
    if v < 0 {
        (-v) as nat
    } else {
        v as nat
    }
}

/// `"-"` for a negative value, nothing otherwise.
pub open spec fn minus_if(neg: bool) -> Seq<char> {
    if neg {
        seq!['-']
    } else {
        Seq::empty()
    }
}

fn digit_str(d: u64) -> (r: &'static str)
    requires
        d < 10,
    ensures
        r@ == seq![digit_char(d as nat)],
{
    proof {
        reveal_strlit("0");
        reveal_strlit("1");
        reveal_strlit("2");
        reveal_strlit("3");
        reveal_strlit("4");
        reveal_strlit("5");
        reveal_strlit("6");
        reveal_strlit("7");
        reveal_strlit("8");
        reveal_strlit("9");
    }
    match d {
        0 => "0",
        1 => "1",
        2 => "2",
        3 => "3",
        4 => "4",
        5 => "5",
        6 => "6",
        7 => "7",
        8 => "8",
        _ => "9",
    }
}

/// Appends the decimal digits of `n`.
pub fn append_digits(out: &mut String, n: u64)
    ensures
        final(out)@ == old(out)@ + digits(n as nat),
    decreases n,
{
    if n >= 10 {
        append_digits(out, n / 10);
    }
    out.append(digit_str(n % 10));
    assert(final(out)@ =~= old(out)@ + digits(n as nat));
}

/// Appends `count` zero characters.
pub fn append_zeros(out: &mut String, count: usize)
    ensures
        final(out)@ == old(out)@ + Seq::new(count as nat, |i: int| '0'),
{
    let ghost start = out@;
    let mut i: usize = 0;
    while i < count
        invariant
            i <= count,
            out@ == start + Seq::new(i as nat, |j: int| '0'),
        decreases count - i,
    {
        proof {
            reveal_strlit("0");
        }
        out.append("0");
        i = i + 1;
        assert(out@ =~= start + Seq::new(i as nat, |j: int| '0'));
    }
}

/// Appends `text` preceded by zeros up to `width` characters.
pub fn append_left_padded(out: &mut String, text: &str, width: usize)
    ensures
        final(out)@ == old(out)@ + zero_pad(text@, width as nat),
{
    let len = text.unicode_len();
    if len < width {
        append_zeros(out, width - len);
    }
    out.append(text);
    assert(final(out)@ =~= old(out)@ + zero_pad(text@, width as nat));
}

/// Appends the digits of `n` preceded by zeros up to `width` characters.
pub fn append_padded(out: &mut String, n: u64, width: usize)
    ensures
        final(out)@ == old(out)@ + zero_pad(digits(n as nat), width as nat),
{
    let mut t = String::new();
    append_digits(&mut t, n);
    assert(t@ =~= digits(n as nat));
    append_left_padded(out, t.as_str(), width);
}

/// Appends `m` as a fixed-point number of `places` fractional digits, `unit`
/// being the number of steps in one.
pub fn append_fixed(out: &mut String, m: u64, unit: u64, places: usize)
    requires
        unit > 0,
    ensures
        final(out)@ == old(out)@ + fixed(m as nat, unit as nat, places as nat),
{
    append_digits(out, m / unit);
    proof {
        reveal_strlit(".");
    }
    out.append(".");
    append_padded(out, m % unit, places);
    assert(final(out)@ =~= old(out)@ + fixed(m as nat, unit as nat, places as nat));
}

/// The absolute value of `v`, which always fits in a `u64`.
pub fn magnitude(v: i64) -> (r: u64)
    ensures
        r as nat == abs(v as int),
{
    if v < 0 {
        ((-(v + 1)) as u64) + 1
    } else {
        v as u64
    }
}

} // verus!
