//! Small verified string utilities: equality on string slices and decimal
//! formatting of integers, both pinned down over `Seq<char>` views.

use vstd::prelude::*;

verus! {

/// The character for a single decimal digit.
pub open spec fn digit_char(d: nat) -> char {
    if d == 0 {
        '0'
    } else if d == 1 {
        '1'
    } else if d == 2 {
        '2'
    } else if d == 3 {
        '3'
    } else if d == 4 {
        '4'
    } else if d == 5 {
        '5'
    } else if d == 6 {
        '6'
    } else if d == 7 {
        '7'
    } else if d == 8 {
        '8'
    } else {
        '9'
    }
}

/// Decimal digits of a positive number, empty for zero.
pub open spec fn spec_pos_digits(n: nat) -> Seq<char>
    decreases n,
{
    if n == 0 {
        Seq::empty()
    } else {
        spec_pos_digits(n / 10) + seq![digit_char(n % 10)]
    }
}

/// Decimal representation of a non-negative number.
pub open spec fn spec_u64_str(n: nat) -> Seq<char> {
    if n == 0 {
        seq!['0']
    } else {
        spec_pos_digits(n)
    }
}

/// Decimal representation of a signed number, with a leading minus sign when
/// negative.
pub open spec fn spec_i64_str(n: int) -> Seq<char> {
    if n < 0 {
        seq!['-'] + spec_pos_digits((-n) as nat)
    } else {
        spec_u64_str(n as nat)
    }
}

/// Whether a character is a lowercase hexadecimal digit.
pub open spec fn is_hex_lower(c: char) -> bool {
    ('0' <= c && c <= '9') || ('a' <= c && c <= 'f')
}

/// Whether a character sequence is free of newline characters. Fields joined
/// into a newline-separated message must satisfy this for the joining to be
/// injective.
pub open spec fn no_newline(s: Seq<char>) -> bool {
    forall|i: int| 0 <= i < s.len() ==> s[i] != '\n'
}

proof fn lemma_pos_digits_no_newline(n: nat)
    ensures
        no_newline(spec_pos_digits(n)),
    decreases n,
{
    if n > 0 {
        lemma_pos_digits_no_newline(n / 10);
        assert forall|i: int| 0 <= i < spec_pos_digits(n).len() implies spec_pos_digits(
            n,
        )[i] != '\n' by {
            if i < spec_pos_digits(n / 10).len() {
                assert(spec_pos_digits(n)[i] == spec_pos_digits(n / 10)[i]);
            } else {
                assert(spec_pos_digits(n)[i] == digit_char(n % 10));
            }
        }
    }
}

/// A decimal representation never contains a newline.
pub proof fn lemma_i64_str_no_newline(n: int)
    ensures
        no_newline(spec_i64_str(n)),
{
    if n < 0 {
        lemma_pos_digits_no_newline((-n) as nat);
        assert forall|i: int| 0 <= i < spec_i64_str(n).len() implies spec_i64_str(n)[i]
            != '\n' by {
            if i == 0 {
                assert(spec_i64_str(n)[0] == '-');
            } else {
                assert(spec_i64_str(n)[i] == spec_pos_digits((-n) as nat)[i - 1]);
            }
        }
    } else if n == 0 {
    } else {
        lemma_pos_digits_no_newline(n as nat);
    }
}

/// Character-for-character equality of two string slices.
pub fn str_eq(a: &str, b: &str) -> (r: bool)
    ensures
        r == (a@ == b@),
{
    let a_len = a.unicode_len();
    let b_len = b.unicode_len();
    if a_len != b_len {
        assert(a@ != b@) by {
            assert(a@.len() != b@.len());
        }
        return false;
    }
    let mut i: usize = 0;
    while i < a_len
        invariant
            a_len == a@.len(),
            b_len == b@.len(),
            a_len == b_len,
            i <= a_len,
            forall|j: int| 0 <= j < i ==> a@[j] == b@[j],
        decreases a_len - i,
    {
        if a.get_char(i) != b.get_char(i) {
            return false;
        }
        i += 1;
    }
    proof {
        assert(a@ =~= b@);
    }
    true
}

/// Appends the character of one decimal digit.
pub(crate) fn append_digit(s: &mut String, d: u64)
    requires
        d < 10,
    ensures
        final(s)@ == old(s)@ + seq![digit_char(d as nat)],
{
    if d == 0 {
        s.append("0");
        proof { reveal_strlit("0"); }
    } else if d == 1 {
        s.append("1");
        proof { reveal_strlit("1"); }
    } else if d == 2 {
        s.append("2");
        proof { reveal_strlit("2"); }
    } else if d == 3 {
        s.append("3");
        proof { reveal_strlit("3"); }
    } else if d == 4 {
        s.append("4");
        proof { reveal_strlit("4"); }
    } else if d == 5 {
        s.append("5");
        proof { reveal_strlit("5"); }
    } else if d == 6 {
        s.append("6");
        proof { reveal_strlit("6"); }
    } else if d == 7 {
        s.append("7");
        proof { reveal_strlit("7"); }
    } else if d == 8 {
        s.append("8");
        proof { reveal_strlit("8"); }
    } else {
        s.append("9");
        proof { reveal_strlit("9"); }
    }
    proof {
        assert(final(s)@ =~= old(s)@ + seq![digit_char(d as nat)]);
    }
}

/// Appends the decimal digits of `n` (nothing when `n` is zero).
fn append_pos_digits(s: &mut String, n: u64)
    ensures
        final(s)@ == old(s)@ + spec_pos_digits(n as nat),
    decreases n,
{
    if n == 0 {
        proof {
            assert(old(s)@ + spec_pos_digits(0) =~= old(s)@);
        }
    } else {
        append_pos_digits(s, n / 10);
        append_digit(s, n % 10);
        proof {
            assert(final(s)@ =~= old(s)@ + spec_pos_digits(n as nat));
        }
    }
}

/// Decimal string of a non-negative number.
pub fn u64_to_string(n: u64) -> (r: String)
    ensures
        r@ == spec_u64_str(n as nat),
{
    if n == 0 {
        let r = String::from_str("0");
        proof {
            reveal_strlit("0");
            assert(r@ =~= spec_u64_str(0));
        }
        r
    } else {
        let mut s = String::new();
        append_pos_digits(&mut s, n);
        proof {
            assert(s@ =~= spec_pos_digits(n as nat));
        }
        s
    }
}

/// Decimal string of a signed number.
pub fn i64_to_string(n: i64) -> (r: String)
    ensures
        r@ == spec_i64_str(n as int),
{
    if n >= 0 {
        u64_to_string(n as u64)
    } else {
        // Magnitude computed without overflowing on the minimum value.
        let m: u64 = (-(n + 1)) as u64 + 1;
        assert(m == -(n as int));
        let mut s = String::from_str("-");
        proof { reveal_strlit("-"); }
        append_pos_digits(&mut s, m);
        proof {
            assert(s@ =~= spec_i64_str(n as int));
        }
        s
    }
}

} // verus!
