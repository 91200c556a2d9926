//! Output file naming: the chapter index rendered in decimal, zero-padded to
//! at least four digits, with a `.txt` suffix.

use vstd::prelude::*;

verus! {

/// The character for one decimal digit.
pub open spec fn digit_char(d: nat) -> char {
    if d == 0 {
        '0'
    } else if d == 1 {
        '1'
    } else if d == 2 {
        '2'
    } else if d == 3 {
        '3'
    } else if d == 4 {
        '4'
    } else if d == 5 {
        '5'
    } else if d == 6 {
        '6'
    } else if d == 7 {
        '7'
    } else if d == 8 {
        '8'
    } else {
        '9'
    }
}

/// The decimal digits of `n`, most significant first, with no leading zeros
/// (a single `'0'` for zero).
pub open spec fn decimal_digits(n: nat) -> Seq<char>
    decreases n,
{
    if n < 10 {
        seq![digit_char(n)]
    } else {
        decimal_digits(n / 10).push(digit_char(n % 10))
    }
}

/// A run of `k` zero characters.
pub open spec fn zeros(k: nat) -> Seq<char> {
    Seq::new(k, |i: int| '0')
}

/// How many zeros pad a digit string of length `len` to width `width`.
pub open spec fn pad_width(len: nat, width: nat) -> nat {
    if len >= width {
        0
    } else {
        (width - len) as nat
    }
}

/// The name of the output file for chapter `n`: the index zero-padded to at
/// least four digits, then `.txt`.
pub open spec fn file_name_spec(n: nat) -> Seq<char> {
    zeros(pad_width(decimal_digits(n).len(), 4)) + decimal_digits(n) + ".txt"@
}

/// The decimal rendering of `n` has one digit per decimal order of
/// magnitude: one below ten, two below a hundred, three below a thousand,
/// and at least four from a thousand on.
pub proof fn lemma_decimal_digits_len(n: nat)
    ensures
        n < 10 ==> decimal_digits(n).len() == 1,
        10 <= n < 100 ==> decimal_digits(n).len() == 2,
        100 <= n < 1000 ==> decimal_digits(n).len() == 3,
        1000 <= n ==> decimal_digits(n).len() >= 4,
    decreases n,
{
    if n >= 10 {
        lemma_decimal_digits_len(n / 10);
        if n >= 1000 {
            assert(n / 10 >= 100);
        }
    }
}

/// Appends the character for one decimal digit.
fn push_digit(s: &mut String, d: usize)
    requires
        d < 10,
    ensures
        final(s)@ == old(s)@ + seq![digit_char(d as nat)],
{
    proof {
        reveal_strlit("0");
        reveal_strlit("1");
        reveal_strlit("2");
        reveal_strlit("3");
        reveal_strlit("4");
        reveal_strlit("5");
        reveal_strlit("6");
        reveal_strlit("7");
        reveal_strlit("8");
        reveal_strlit("9");
    }
    if d == 0 {
        s.append("0");
    } else if d == 1 {
        s.append("1");
    } else if d == 2 {
        s.append("2");
    } else if d == 3 {
        s.append("3");
    } else if d == 4 {
        s.append("4");
    } else if d == 5 {
        s.append("5");
    } else if d == 6 {
        s.append("6");
    } else if d == 7 {
        s.append("7");
    } else if d == 8 {
        s.append("8");
    } else {
        s.append("9");
    }
    proof {
        assert(final(s)@ =~= old(s)@ + seq![digit_char(d as nat)]);
    }
}

/// Appends the decimal digits of `n`, most significant first.
fn append_decimal(s: &mut String, n: usize)
    ensures
        final(s)@ == old(s)@ + decimal_digits(n as nat),
    decreases n,
{
    if n < 10 {
        push_digit(s, n);
    } else {
        append_decimal(s, n / 10);
        push_digit(s, n % 10);
        proof {
            assert(final(s)@ =~= old(s)@ + decimal_digits(n as nat));
        }
    }
}

/// Returns the output file name for chapter `n`.
pub fn chapter_file_name(n: usize) -> (r: String)
    ensures
        r@ == file_name_spec(n as nat),
{
    proof {
        reveal_strlit("");
        reveal_strlit("0");
        reveal_strlit("00");
        reveal_strlit("000");
        lemma_decimal_digits_len(n as nat);
    }
    let mut name = String::new();
    if n < 10 {
        name.append("000");
    } else if n < 100 {
        name.append("00");
    } else if n < 1000 {
        name.append("0");
    }
    proof {
        assert(name@ =~= zeros(pad_width(decimal_digits(n as nat).len(), 4)));
    }
    append_decimal(&mut name, n);
    name.append(".txt");
    proof {
        assert(name@ =~= file_name_spec(n as nat));
    }
    name
}

} // verus!
