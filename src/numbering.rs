//! Human-facing account numbers: the year followed by a five-digit sequence.
//!
//! The sequence comes from storage (a counter advanced atomically, or a
//! unique constraint with retry), never from counting existing accounts.

use vstd::prelude::*;
use vstd::string::*;
use crate::text::owned;

verus! {

/// The decimal digit for `d < 10`.
pub open spec fn digit_char(d: nat) -> char {
    if d == 0 {
        '0'
    } else if d == 1 {
        '1'
    } else if d == 2 {
        '2'
    } else if d == 3 {
        '3'
    } else if d == 4 {
        '4'
    } else if d == 5 {
        '5'
    } else if d == 6 {
        '6'
    } else if d == 7 {
        '7'
    } else if d == 8 {
        '8'
    } else {
        '9'
    }
}

/// Decimal digits of `n`, most significant first, without leading zeros.
pub open spec fn digits(n: nat) -> Seq<char>
    decreases n,
{
    if n < 10 {
        seq![digit_char(n)]
    } else {
        digits(n / 10).push(digit_char(n % 10))
    }
}

/// `s` with zeros in front up to `width` characters.
pub open spec fn left_padded(s: Seq<char>, width: nat) -> Seq<char> {
    if s.len() >= width {
        s
    } else {
        Seq::new((width - s.len()) as nat, |i: int| '0') + s
    }
}

/// The account number for `sequence` in `year`.
pub open spec fn account_number_text(year: nat, sequence: nat) -> Seq<char> {
    left_padded(digits(year), 4) + left_padded(digits(sequence), 5)
}

fn digit_text(d: u64) -> (r: &'static str)
    requires
        d < 10,
    ensures
        r@ == seq![digit_char(d as nat)],
{
    proof {
        reveal_strlit("0");
        reveal_strlit("1");
        reveal_strlit("2");
        reveal_strlit("3");
        reveal_strlit("4");
        reveal_strlit("5");
        reveal_strlit("6");
        reveal_strlit("7");
        reveal_strlit("8");
        reveal_strlit("9");
    }
    let r = if d == 0 {
        "0"
    } else if d == 1 {
        "1"
    } else if d == 2 {
        "2"
    } else if d == 3 {
        "3"
    } else if d == 4 {
        "4"
    } else if d == 5 {
        "5"
    } else if d == 6 {
        "6"
    } else if d == 7 {
        "7"
    } else if d == 8 {
        "8"
    } else {
        "9"
    };
    assert(r@ =~= seq![digit_char(d as nat)]);
    r
}

/// The decimal text of `n`.
pub fn decimal_digits(n: u64) -> (r: String)
    ensures
        r@ == digits(n as nat),
    decreases n,
{
    if n < 10 {
        owned(digit_text(n))
    } else {
        let head = decimal_digits(n / 10);
        let r = head.concat(digit_text(n % 10));
        assert(r@ =~= digits(n as nat));
        r
    }
}

/// `s` with zeros in front up to `width` characters.
pub fn pad_left(s: String, width: usize) -> (r: String)
    ensures
        r@ == left_padded(s@, width as nat),
{
    let len = s.as_str().unicode_len();
    if len >= width {
        return s;
    }
    let mut r = owned("");
    let mut i: usize = 0;
    proof {
        reveal_strlit("");
        reveal_strlit("0");
    }
    while i < width - len
        invariant
            len == s@.len(),
            len < width,
            i <= width - len,
            r@ =~= Seq::new(i as nat, |j: int| '0'),
        decreases width - len - i,
    {
        let ghost before = r@;
        r = r.concat("0");
        proof {
            reveal_strlit("0");
            assert(r@ == before + "0"@);
            assert(r@ =~= Seq::new((i + 1) as nat, |j: int| '0'));
        }
        i = i + 1;
    }
    let r = r.concat(s.as_str());
    assert(r@ =~= left_padded(s@, width as nat));
    r
}

/// The account number for `sequence` in `year`: four-digit year, then the
/// sequence zero-padded to five digits (`2025` and `7` give `"202500007"`).
pub fn account_number_for(year: u32, sequence: u64) -> (r: String)
    ensures
        r@ == account_number_text(year as nat, sequence as nat),
{
    let y = pad_left(decimal_digits(year as u64), 4);
    let s = pad_left(decimal_digits(sequence), 5);
    y.concat(s.as_str())
}

} // verus!
