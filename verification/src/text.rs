use vstd::prelude::*;

verus! {

/// The decimal digit character for `d` (`0 <= d < 10`).
pub open spec fn digit_char(d: int) -> char {
    (d + 48) as char
}

/// The decimal representation of a natural number, most significant digit
/// first, without leading zeros (zero is the single digit `0`).
pub open spec fn nat_decimal(n: nat) -> Seq<char>
    decreases n,
{
    if n < 10 {
        seq![digit_char(n as int)]
    } else {
        nat_decimal(n / 10).push(digit_char((n % 10) as int))
    }
}

/// The decimal representation of an integer: a `-` before the magnitude of
/// a negative number, as Rust's `Display` writes integers.
pub open spec fn int_decimal(x: int) -> Seq<char> {
    if x < 0 {
        seq!['-'] + nat_decimal((-x) as nat)
    } else {
        nat_decimal(x as nat)
    }
}

/// The text `true` or `false`, as Rust's `Display` writes a `bool`.
pub open spec fn bool_text(b: bool) -> Seq<char> {
    if b {
        seq!['t', 'r', 'u', 'e']
    } else {
        seq!['f', 'a', 'l', 's', 'e']
    }
}

fn digit_str(d: u64) -> (s: &'static str)
    requires
        d < 10,
    ensures
        s@ == seq![digit_char(d as int)],
{
    match d {
        0 => { proof { reveal_strlit("0"); } "0" },
        1 => { proof { reveal_strlit("1"); } "1" },
        2 => { proof { reveal_strlit("2"); } "2" },
        3 => { proof { reveal_strlit("3"); } "3" },
        4 => { proof { reveal_strlit("4"); } "4" },
        5 => { proof { reveal_strlit("5"); } "5" },
        6 => { proof { reveal_strlit("6"); } "6" },
        7 => { proof { reveal_strlit("7"); } "7" },
        8 => { proof { reveal_strlit("8"); } "8" },
        _ => { proof { reveal_strlit("9"); } "9" },
    }
}

/// Appends the decimal digits of `n` to `out`.
pub fn push_nat_decimal(out: &mut String, n: u64)
    ensures
        final(out)@ == old(out)@ + nat_decimal(n as nat),
    decreases n,
{
    if n >= 10 {
        push_nat_decimal(out, n / 10);
    }
    out.append(digit_str(n % 10));
}

/// Appends the decimal representation of `x` to `out`.
pub fn push_int_decimal(out: &mut String, x: i64)
    ensures
        final(out)@ == old(out)@ + int_decimal(x as int),
{
    if x < 0 {
        proof { reveal_strlit("-"); }
        out.append("-");
        let magnitude: u64 = ((-(x + 1)) as u64) + 1;
        push_nat_decimal(out, magnitude);
    } else {
        push_nat_decimal(out, x as u64);
    }
}

/// Appends `true` or `false` to `out`.
pub fn push_bool(out: &mut String, b: bool)
    ensures
        final(out)@ == old(out)@ + bool_text(b),
{
    if b {
        proof { reveal_strlit("true"); }
        out.append("true");
    } else {
        proof { reveal_strlit("false"); }
        out.append("false");
    }
}

/// The decimal representation of `x` as a new string.
pub fn decimal_string(x: i64) -> (s: String)
    ensures
        s@ == int_decimal(x as int),
{
    let mut s = String::new();
    push_int_decimal(&mut s, x);
    s
}

/// Whether `value` stands in `line` right after `label`.
pub open spec fn labelled(line: Seq<char>, label: Seq<char>, value: Seq<char>) -> bool {
    exists|pre: Seq<char>, post: Seq<char>| line == pre + label + value + post
}

/// Whether a character is a decimal digit.
pub open spec fn is_digit(c: char) -> bool {
    48 <= (c as int) <= 57
}

/// The number that a string of decimal digits denotes.
pub open spec fn digits_value(s: Seq<char>) -> int
    decreases s.len(),
{
    if s.len() == 0 {
        0
    } else {
        digits_value(s.drop_last()) * 10 + (s.last() as int - 48)
    }
}

/// The decimal text of a natural number is made of digits only, denotes
/// that number, and has no leading zero (zero itself is the one digit `0`).
pub proof fn law_nat_decimal_denotes(n: nat)
    ensures
        nat_decimal(n).len() >= 1,
        forall|i: int| 0 <= i < nat_decimal(n).len() ==> is_digit(#[trigger] nat_decimal(n)[i]),
        digits_value(nat_decimal(n)) == n,
        nat_decimal(n).len() > 1 ==> nat_decimal(n)[0] != '0',
        n == 0 ==> nat_decimal(n) == seq!['0'],
    decreases n,
{
    if n < 10 {
        assert(nat_decimal(n).drop_last() =~= Seq::<char>::empty());
        assert(digit_char(n as int) as int == n + 48);
        assert(digits_value(Seq::<char>::empty()) == 0);
        assert(digits_value(nat_decimal(n)) == digits_value(nat_decimal(n).drop_last()) * 10 + (
        nat_decimal(n).last() as int - 48));
    } else {
        law_nat_decimal_denotes(n / 10);
        let s = nat_decimal(n);
        assert(s.drop_last() =~= nat_decimal(n / 10));
        assert(digit_char((n % 10) as int) as int == n % 10 + 48);
        assert((n / 10) * 10 + n % 10 == n);
        if n / 10 < 10 {
            assert(digit_char((n / 10) as int) as int == n / 10 + 48);
            assert(('0' as int) == 48);
            assert(nat_decimal(n / 10)[0] == digit_char((n / 10) as int));
            assert(s[0] != '0');
        } else {
            assert(nat_decimal(n / 10) == nat_decimal(n / 10 / 10).push(digit_char((n / 10 % 10) as int)));
            assert(nat_decimal(n / 10).len() > 1);
        }
        assert(s.last() == digit_char((n % 10) as int));
        assert(digits_value(s) == digits_value(s.drop_last()) * 10 + (s.last() as int - 48));
        let q: nat = n / 10;
        assert(digits_value(nat_decimal(q)) == q);
        assert(digits_value(s.drop_last()) == q);
        assert(s.last() as int - 48 == n % 10);
        assert(digits_value(s) == q * 10 + n % 10);
        assert(s[0] == nat_decimal(n / 10)[0]);
        assert forall|i: int| 0 <= i < s.len() implies is_digit(#[trigger] s[i]) by {
            if i < s.len() - 1 {
                assert(s[i] == nat_decimal(n / 10)[i]);
            }
        }
    }
}

/// The decimal text of an integer: a negative number is `-` followed by the
/// decimal text of its magnitude; any other number is its decimal text, which
/// denotes it.
pub proof fn law_int_decimal_denotes(x: int)
    ensures
        x < 0 ==> int_decimal(x)[0] == '-' && int_decimal(x).drop_first() == nat_decimal((-x) as nat)
            && digits_value(int_decimal(x).drop_first()) == -x,
        x >= 0 ==> digits_value(int_decimal(x)) == x && int_decimal(x)[0] != '-',
{
    if x < 0 {
        law_nat_decimal_denotes((-x) as nat);
        assert(int_decimal(x).drop_first() =~= nat_decimal((-x) as nat));
    } else {
        law_nat_decimal_denotes(x as nat);
        assert(is_digit(int_decimal(x)[0]));
    }
}

/// `true` and `false` are written as those words.
pub proof fn law_bool_text(b: bool)
    ensures
        bool_text(true) == "true"@,
        bool_text(false) == "false"@,
        bool_text(b) != bool_text(!b),
{
    reveal_strlit("true");
    reveal_strlit("false");
    assert(bool_text(true) =~= "true"@);
    assert(bool_text(false) =~= "false"@);
}

} // verus!
