use vstd::prelude::*;

verus! {

/// The character for a single decimal digit value.
pub open spec fn spec_digit(d: nat) -> char {
    if d == 0 {
        '0'
    } else if d == 1 {
        '1'
    } else if d == 2 {
        '2'
    } else if d == 3 {
        '3'
    } else if d == 4 {
        '4'
    } else if d == 5 {
        '5'
    } else if d == 6 {
        '6'
    } else if d == 7 {
        '7'
    } else if d == 8 {
        '8'
    } else {
        '9'
    }
}

/// The decimal digits of `n`, most significant first: no sign, no padding
/// and no leading zeros (zero itself is the single digit `0`).
pub open spec fn spec_decimal(n: nat) -> Seq<char>
    decreases n,
{
    if n < 10 {
        seq![spec_digit(n)]
    } else {
        spec_decimal(n / 10) + seq![spec_digit(n % 10)]
    }
}

/// Whether `c` is one of the ten decimal digit characters.
pub open spec fn is_decimal_digit(c: char) -> bool {
    c == '0' || c == '1' || c == '2' || c == '3' || c == '4' || c == '5' || c == '6' || c == '7'
        || c == '8' || c == '9'
}

/// The value of a single decimal digit character (zero on any other character).
pub open spec fn spec_digit_value(c: char) -> nat {
    if c == '1' {
        1
    } else if c == '2' {
        2
    } else if c == '3' {
        3
    } else if c == '4' {
        4
    } else if c == '5' {
        5
    } else if c == '6' {
        6
    } else if c == '7' {
        7
    } else if c == '8' {
        8
    } else if c == '9' {
        9
    } else {
        0
    }
}

/// The number that a sequence of decimal digit characters denotes,
/// most significant first.
pub open spec fn spec_decimal_value(s: Seq<char>) -> nat
    decreases s.len(),
{
    if s.len() == 0 {
        0
    } else {
        spec_decimal_value(s.drop_last()) * 10 + spec_digit_value(s.last())
    }
}

/// Law: `spec_decimal(n)` is the plain decimal form of `n`: at least one
/// character, every character a decimal digit, no leading zero unless the
/// number is zero itself, and reading the digits back gives `n`.
pub proof fn lemma_decimal_digits(n: nat)
    ensures
        spec_decimal(n).len() >= 1,
        forall|i: int|
            0 <= i < spec_decimal(n).len() ==> is_decimal_digit(#[trigger] spec_decimal(n)[i]),
        n >= 1 ==> spec_decimal(n)[0] != '0',
        spec_decimal_value(spec_decimal(n)) == n,
    decreases n,
{
    if n < 10 {
        let s = spec_decimal(n);
        assert(s =~= seq![spec_digit(n)]);
        assert(s.drop_last() =~= Seq::<char>::empty());
        assert(spec_decimal_value(Seq::<char>::empty()) == 0);
        assert(spec_decimal_value(s) == spec_digit_value(spec_digit(n)));
    } else {
        lemma_decimal_digits(n / 10);
        let prefix = spec_decimal(n / 10);
        let whole = spec_decimal(n);
        assert(whole =~= prefix + seq![spec_digit(n % 10)]);
        assert(whole.drop_last() =~= prefix);
        assert(whole.last() == spec_digit(n % 10));
        assert(n / 10 * 10 + n % 10 == n) by (nonlinear_arith);
        assert(spec_decimal_value(whole) == n);
        assert forall|i: int| 0 <= i < whole.len() implies is_decimal_digit(
            #[trigger] whole[i],
        ) by {
            if i < prefix.len() {
                assert(whole[i] == prefix[i]);
            } else {
                assert(whole[i] == spec_digit(n % 10));
            }
        }
        assert(whole[0] == prefix[0]);
    }
}

/// The one-character string for a decimal digit value.
fn digit_str(d: u32) -> (s: &'static str)
    requires
        d < 10,
    ensures
        s@ == seq![spec_digit(d as nat)],
{
    let s: &'static str = if d == 0 {
        "0"
    } else if d == 1 {
        "1"
    } else if d == 2 {
        "2"
    } else if d == 3 {
        "3"
    } else if d == 4 {
        "4"
    } else if d == 5 {
        "5"
    } else if d == 6 {
        "6"
    } else if d == 7 {
        "7"
    } else if d == 8 {
        "8"
    } else {
        "9"
    };
    proof {
        reveal_strlit("0");
        reveal_strlit("1");
        reveal_strlit("2");
        reveal_strlit("3");
        reveal_strlit("4");
        reveal_strlit("5");
        reveal_strlit("6");
        reveal_strlit("7");
        reveal_strlit("8");
        reveal_strlit("9");
        assert(s@ =~= seq![spec_digit(d as nat)]);
    }
    s
}

/// Appends the plain decimal form of `n` to `out`.
pub(crate) fn append_decimal(out: &mut String, n: u32)
    ensures
        final(out)@ == old(out)@ + spec_decimal(n as nat),
    decreases n,
{
    if n >= 10 {
        append_decimal(out, n / 10);
    }
    let s = digit_str(n % 10);
    out.append(s);
    proof {
        assert(out@ =~= old(out)@ + spec_decimal(n as nat));
    }
}

} // verus!
