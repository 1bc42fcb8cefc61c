//! Decimal digit strings and fixed-width padding, modelled over `Seq<char>`.

use vstd::prelude::*;
use vstd::string::StrSliceExecFns;
use vstd::string::StringExecFns;

verus! {

/// The character for one decimal digit.
pub open spec fn spec_digit(d: int) -> char {
    if d == 0 {
        '0'
    } else if d == 1 {
        '1'
    } else if d == 2 {
        '2'
    } else if d == 3 {
        '3'
    } else if d == 4 {
        '4'
    } else if d == 5 {
        '5'
    } else if d == 6 {
        '6'
    } else if d == 7 {
        '7'
    } else if d == 8 {
        '8'
    } else {
        '9'
    }
}

/// The decimal digits of `n`, most significant first, with no sign and no
/// leading zeros (zero itself is a single `'0'`).
pub open spec fn spec_dec(n: nat) -> Seq<char>
    decreases n,
{
    if n < 10 {
        seq![spec_digit(n as int)]
    } else {
        spec_dec(n / 10).push(spec_digit((n % 10) as int))
    }
}

/// `n` copies of the character `c`.
pub open spec fn spec_repeat(c: char, n: nat) -> Seq<char> {
    Seq::new(n, |i: int| c)
}

/// How a string is positioned inside a wider field.
#[derive(Clone, Copy, Debug, PartialEq, Eq, Structural)]
pub enum Alignment {
    Left,
    Right,
    Center,
}

/// `s` embedded in a field of at least `width` characters, positioned by
/// `align` and surrounded by copies of `fill`. A string already `width`
/// characters or longer is returned unchanged. Centering puts the odd
/// leftover fill character on the right.
pub open spec fn spec_pad(s: Seq<char>, width: nat, align: Alignment, fill: char) -> Seq<char> {
    if s.len() >= width {
        s
    } else {
        let p = (width - s.len()) as nat;
        match align {
            Alignment::Left => s + spec_repeat(fill, p),
            Alignment::Right => spec_repeat(fill, p) + s,
            Alignment::Center => spec_repeat(fill, p / 2) + s + spec_repeat(
                fill,
                (p - p / 2) as nat,
            ),
        }
    }
}

/// Relies on `String::push` of std: appends exactly one character at the end.
pub assume_specification[ String::push ](s: &mut String, ch: char)
    ensures
        final(s)@ == old(s)@.push(ch),
;

/// The character for the decimal digit `d`.
pub(crate) fn digit(d: u64) -> (c: char)
    requires
        d < 10,
    ensures
        c == spec_digit(d as int),
{
    if d == 0 {
        '0'
    } else if d == 1 {
        '1'
    } else if d == 2 {
        '2'
    } else if d == 3 {
        '3'
    } else if d == 4 {
        '4'
    } else if d == 5 {
        '5'
    } else if d == 6 {
        '6'
    } else if d == 7 {
        '7'
    } else if d == 8 {
        '8'
    } else {
        '9'
    }
}

/// Appends the decimal rendering of `n` to `out`.
pub(crate) fn push_dec(out: &mut String, n: u64)
    ensures
        final(out)@ == old(out)@ + spec_dec(n as nat),
    decreases n,
{
    if n < 10 {
        out.push(digit(n));
        proof {
            assert(out@ =~= old(out)@ + spec_dec(n as nat));
        }
    } else {
        push_dec(out, n / 10);
        out.push(digit(n % 10));
        proof {
            assert(out@ =~= old(out)@ + spec_dec(n as nat));
        }
    }
}

/// Appends `n` copies of `fill` to `out`.
pub(crate) fn push_repeat(out: &mut String, fill: char, n: usize)
    ensures
        final(out)@ == old(out)@ + spec_repeat(fill, n as nat),
    decreases n,
{
    if n > 0 {
        out.push(fill);
        push_repeat(out, fill, n - 1);
        proof {
            assert(out@ =~= old(out)@ + spec_repeat(fill, n as nat));
        }
    } else {
        proof {
            assert(out@ =~= old(out)@ + spec_repeat(fill, n as nat));
        }
    }
}

/// Embeds `s` in a field of at least `width` characters, positioned by
/// `align` and filled with `fill`, exactly as `spec_pad` describes.
pub fn pad(s: &str, width: usize, align: Alignment, fill: char) -> (r: String)
    ensures
        r@ == spec_pad(s@, width as nat, align, fill),
{
    let n = s.unicode_len();
    if n >= width {
        s.to_owned()
    } else {
        let p = width - n;
        match align {
            Alignment::Left => {
                let mut out = s.to_owned();
                push_repeat(&mut out, fill, p);
                out
            },
            Alignment::Right => {
                let mut out = String::new();
                push_repeat(&mut out, fill, p);
                out.append(s);
                proof {
                    assert(out@ =~= spec_pad(s@, width as nat, align, fill));
                }
                out
            },
            Alignment::Center => {
                let left = p / 2;
                let right = p - left;
                let mut out = String::new();
                push_repeat(&mut out, fill, left);
                out.append(s);
                push_repeat(&mut out, fill, right);
                proof {
                    assert(out@ =~= spec_pad(s@, width as nat, align, fill));
                }
                out
            },
        }
    }
}

} // verus!
