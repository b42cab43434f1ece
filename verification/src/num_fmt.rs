//! Decimal rendering of option ordinals, with space or zero padding.

use vstd::prelude::*;

use crate::style::IndexPrefix;

verus! {

/// The decimal digit `d` as a character.
pub open spec fn digit_char(d: int) -> char {
    if d == 0 {
        '0'
    } else if d == 1 {
        '1'
    } else if d == 2 {
        '2'
    } else if d == 3 {
        '3'
    } else if d == 4 {
        '4'
    } else if d == 5 {
        '5'
    } else if d == 6 {
        '6'
    } else if d == 7 {
        '7'
    } else if d == 8 {
        '8'
    } else {
        '9'
    }
}

/// The decimal digits of `n`, most significant first.
pub open spec fn dec_digits(n: int) -> Seq<char>
    decreases n,
{
    if n < 10 {
        seq![digit_char(n)]
    } else {
        dec_digits(n / 10).push(digit_char(n % 10))
    }
}

/// The number of decimal digits of `n`, and 0 for 0: the width used to
/// align option ordinals.
pub open spec fn spec_int_log10(n: int) -> int
    decreases n,
{
    if n <= 0 {
        0
    } else {
        1 + spec_int_log10(n / 10)
    }
}

/// `k` copies of the fill character `c`.
pub open spec fn pad_chars(c: char, k: int) -> Seq<char>
    decreases k,
{
    if k <= 0 {
        Seq::empty()
    } else {
        pad_chars(c, k - 1).push(c)
    }
}

/// The decimal digits of `n`, left-padded to `width` characters with
/// zeros or spaces.
pub open spec fn padded_index(n: int, width: int, zero: bool) -> Seq<char> {
    pad_chars(if zero { '0' } else { ' ' }, width - dec_digits(n).len()) + dec_digits(n)
}

/// The next integer up, saturating at the largest `usize`.
pub open spec fn sat_inc_usize(n: int) -> int {
    if n >= usize::MAX {
        n
    } else {
        n + 1
    }
}

/// The text of the numeric prefix ahead of an option's value, for the
/// 1-based ordinal `index` out of `total` options, or `None` when the
/// configured mode shows no ordinal. Padded modes align to the width of
/// the largest possible ordinal, `total + 1`.
pub open spec fn index_prefix_text(mode: IndexPrefix, index: int, total: int) -> Option<Seq<char>> {
    match mode {
        IndexPrefix::Omitted => None,
        IndexPrefix::Simple => Some(dec_digits(index).push(')')),
        IndexPrefix::SpacePadded => Some(
            padded_index(index, spec_int_log10(sat_inc_usize(total)), false).push(')'),
        ),
        IndexPrefix::ZeroPadded => Some(
            padded_index(index, spec_int_log10(sat_inc_usize(total)), true).push(')'),
        ),
    }
}

proof fn lemma_int_log10_le(n: int)
    requires
        n >= 0,
    ensures
        0 <= spec_int_log10(n) <= n,
    decreases n,
{
    if n > 0 {
        lemma_int_log10_le(n / 10);
    }
}

/// The number of decimal digits of `n`; 0 for 0.
pub fn int_log10(n: usize) -> (r: usize)
    ensures
        r as int == spec_int_log10(n as int),
    decreases n,
{
    if n == 0 {
        0
    } else {
        proof {
            lemma_int_log10_le(n as int / 10);
        }
        1 + int_log10(n / 10)
    }
}

/// The digit `d` as a one-character string.
fn digit_str(d: usize) -> (r: &'static str)
    requires
        d < 10,
    ensures
        r@ == seq![digit_char(d as int)],
{
    proof {
        reveal_strlit("0");
        reveal_strlit("1");
        reveal_strlit("2");
        reveal_strlit("3");
        reveal_strlit("4");
        reveal_strlit("5");
        reveal_strlit("6");
        reveal_strlit("7");
        reveal_strlit("8");
        reveal_strlit("9");
    }
    let r = match d {
        0 => "0",
        1 => "1",
        2 => "2",
        3 => "3",
        4 => "4",
        5 => "5",
        6 => "6",
        7 => "7",
        8 => "8",
        _ => "9",
    };
    proof {
        assert(r@ =~= seq![digit_char(d as int)]);
    }
    r
}

/// The decimal digits of `n`, most significant first.
pub fn dec_string(n: usize) -> (r: String)
    ensures
        r@ == dec_digits(n as int),
    decreases n,
{
    if n < 10 {
        let mut s = String::new();
        s.append(digit_str(n));
        proof {
            assert(s@ =~= dec_digits(n as int));
        }
        s
    } else {
        let mut s = dec_string(n / 10);
        s.append(digit_str(n % 10));
        proof {
            assert(s@ =~= dec_digits(n as int));
        }
        s
    }
}

/// The decimal digits of `n`, left-padded to `width` characters with
/// zeros or spaces.
pub fn format_index(n: usize, width: usize, zero: bool) -> (r: String)
    ensures
        r@ == padded_index(n as int, width as int, zero),
{
    let digits = dec_string(n);
    let len = digits.as_str().unicode_len();
    let fill: &'static str = if zero {
        "0"
    } else {
        " "
    };
    proof {
        reveal_strlit("0");
        reveal_strlit(" ");
        assert(fill@ =~= seq![if zero { '0' } else { ' ' }]);
    }
    let pad: usize = if width > len {
        width - len
    } else {
        0
    };
    let mut s = String::new();
    let mut j: usize = 0;
    while j < pad
        invariant
            j <= pad,
            fill@ == seq![if zero { '0' } else { ' ' }],
            s@ == pad_chars(if zero { '0' } else { ' ' }, j as int),
        decreases pad - j,
    {
        s.append(fill);
        proof {
            assert(s@ =~= pad_chars(if zero { '0' } else { ' ' }, j + 1));
        }
        j = j + 1;
    }
    s.append(digits.as_str());
    proof {
        assert(pad as int == if width as int - dec_digits(n as int).len() >= 0 {
            width as int - dec_digits(n as int).len()
        } else {
            0
        });
        assert(pad_chars(if zero { '0' } else { ' ' }, pad as int) =~= pad_chars(
            if zero { '0' } else { ' ' },
            width as int - dec_digits(n as int).len(),
        ));
        assert(s@ =~= padded_index(n as int, width as int, zero));
    }
    s
}

} // verus!
