//! Small verified text helpers: character-exact string comparison, decimal
//! rendering of unsigned numbers, and left-padding with spaces.

use vstd::prelude::*;
use vstd::string::StrSliceExecFns;

verus! {

/// Relies on `String::push`: appends exactly the one character to the end
/// of the string.
#[verifier::external_body]
pub(crate) fn push_char(s: &mut String, c: char)
    ensures
        final(s)@ == old(s)@.push(c),
{
    s.push(c);
}

/// Concatenation of character sequences is associative.
pub proof fn lemma_concat_assoc(a: Seq<char>, b: Seq<char>, c: Seq<char>)
    ensures
        (a + b) + c == a + (b + c),
{
    assert((a + b) + c =~= a + (b + c));
}

/// Character-for-character string equality.
pub fn str_eq(a: &str, b: &str) -> (r: bool)
    ensures
        r == (a@ == b@),
{
    let alen = a.unicode_len();
    let blen = b.unicode_len();
    if alen != blen {
        return false;
    }
    let mut i: usize = 0;
    while i < alen
        invariant
            0 <= i <= alen,
            alen == a@.len(),
            alen == b@.len(),
            forall|k: int| 0 <= k < i ==> a@[k] == b@[k],
        decreases alen - i,
    {
        if a.get_char(i) != b.get_char(i) {
            return false;
        }
        i = i + 1;
    }
    proof {
        assert(a@ =~= b@);
    }
    true
}

/// The digit character for one value below ten.
pub open spec fn spec_digit_char(d: u64) -> char {
    if d == 0 {
        '0'
    } else if d == 1 {
        '1'
    } else if d == 2 {
        '2'
    } else if d == 3 {
        '3'
    } else if d == 4 {
        '4'
    } else if d == 5 {
        '5'
    } else if d == 6 {
        '6'
    } else if d == 7 {
        '7'
    } else if d == 8 {
        '8'
    } else {
        '9'
    }
}

fn digit_char(d: u64) -> (c: char)
    requires
        d < 10,
    ensures
        c == spec_digit_char(d),
{
    if d == 0 {
        '0'
    } else if d == 1 {
        '1'
    } else if d == 2 {
        '2'
    } else if d == 3 {
        '3'
    } else if d == 4 {
        '4'
    } else if d == 5 {
        '5'
    } else if d == 6 {
        '6'
    } else if d == 7 {
        '7'
    } else if d == 8 {
        '8'
    } else {
        '9'
    }
}

/// The usual decimal rendering of `n`, most significant digit first, with
/// no leading zeros (a single `'0'` for zero).
pub open spec fn spec_decimal(n: u64) -> Seq<char>
    decreases n,
{
    if n < 10 {
        seq![spec_digit_char(n)]
    } else {
        spec_decimal(n / 10).push(spec_digit_char(n % 10))
    }
}

/// Append the decimal rendering of `n` to `out`.
pub fn push_decimal(out: &mut String, n: u64)
    ensures
        final(out)@ == old(out)@ + spec_decimal(n),
    decreases n,
{
    if n < 10 {
        push_char(out, digit_char(n));
        proof {
            assert(final(out)@ =~= old(out)@ + spec_decimal(n));
        }
    } else {
        push_decimal(out, n / 10);
        push_char(out, digit_char(n % 10));
        proof {
            assert(final(out)@ =~= old(out)@ + spec_decimal(n));
        }
    }
}

/// `n` space characters.
pub open spec fn spec_spaces(n: nat) -> Seq<char>
    decreases n,
{
    if n == 0 {
        Seq::empty()
    } else {
        spec_spaces((n - 1) as nat).push(' ')
    }
}

/// `s` left-padded with spaces to width `w` (unchanged if already as wide).
pub open spec fn spec_pad_left(s: Seq<char>, w: nat) -> Seq<char> {
    if s.len() >= w {
        s
    } else {
        spec_spaces((w - s.len()) as nat) + s
    }
}

/// Append `n` spaces to `out`.
pub fn push_spaces(out: &mut String, n: usize)
    ensures
        final(out)@ == old(out)@ + spec_spaces(n as nat),
{
    let mut i: usize = 0;
    while i < n
        invariant
            0 <= i <= n,
            out@ == old(out)@ + spec_spaces(i as nat),
        decreases n - i,
    {
        push_char(out, ' ');
        i = i + 1;
        proof {
            assert(out@ =~= old(out)@ + spec_spaces(i as nat));
        }
    }
}

/// Append the decimal rendering of `n`, left-padded with spaces to width
/// `w`, to `out`.
pub fn push_padded_decimal(out: &mut String, n: u64, w: usize)
    ensures
        final(out)@ == old(out)@ + spec_pad_left(spec_decimal(n), w as nat),
{
    let digits = decimal_len(n);
    if digits < w {
        push_spaces(out, w - digits);
    }
    push_decimal(out, n);
    proof {
        assert(final(out)@ =~= old(out)@ + spec_pad_left(spec_decimal(n), w as nat));
    }
}

/// The number of digits in the decimal rendering of `n`.
fn decimal_len(n: u64) -> (r: usize)
    ensures
        r == spec_decimal(n).len(),
    decreases n,
{
    if n < 10 {
        1
    } else {
        let rest = decimal_len(n / 10);
        proof {
            lemma_decimal_width(n);
        }
        rest + 1
    }
}

/// A `u64` has at most twenty decimal digits, so digit counts never
/// overflow a `usize`.
proof fn lemma_decimal_width(n: u64)
    ensures
        n < 10 ==> spec_decimal(n).len() <= 1,
        n < 100 ==> spec_decimal(n).len() <= 2,
        n < 1000 ==> spec_decimal(n).len() <= 3,
        n < 10000 ==> spec_decimal(n).len() <= 4,
        n < 100000 ==> spec_decimal(n).len() <= 5,
        n < 1000000 ==> spec_decimal(n).len() <= 6,
        n < 10000000 ==> spec_decimal(n).len() <= 7,
        n < 100000000 ==> spec_decimal(n).len() <= 8,
        n < 1000000000 ==> spec_decimal(n).len() <= 9,
        n < 10000000000 ==> spec_decimal(n).len() <= 10,
        n < 100000000000 ==> spec_decimal(n).len() <= 11,
        n < 1000000000000 ==> spec_decimal(n).len() <= 12,
        n < 10000000000000 ==> spec_decimal(n).len() <= 13,
        n < 100000000000000 ==> spec_decimal(n).len() <= 14,
        n < 1000000000000000 ==> spec_decimal(n).len() <= 15,
        n < 10000000000000000 ==> spec_decimal(n).len() <= 16,
        n < 100000000000000000 ==> spec_decimal(n).len() <= 17,
        n < 1000000000000000000 ==> spec_decimal(n).len() <= 18,
        n < 10000000000000000000 ==> spec_decimal(n).len() <= 19,
        spec_decimal(n).len() <= 20,
    decreases n,
{
    if n >= 10 {
        lemma_decimal_width(n / 10);
    }
}

} // verus!
