use vstd::prelude::*;

verus! {

/// The character of a decimal digit `d` (0 to 9).
pub open spec fn digit_char(d: int) -> char {
    if d == 0 {
        '0'
    } else if d == 1 {
        '1'
    } else if d == 2 {
        '2'
    } else if d == 3 {
        '3'
    } else if d == 4 {
        '4'
    } else if d == 5 {
        '5'
    } else if d == 6 {
        '6'
    } else if d == 7 {
        '7'
    } else if d == 8 {
        '8'
    } else {
        '9'
    }
}

/// The digit that a decimal digit character stands for.
pub open spec fn digit_value(c: char) -> int {
    if c == '0' {
        0
    } else if c == '1' {
        1
    } else if c == '2' {
        2
    } else if c == '3' {
        3
    } else if c == '4' {
        4
    } else if c == '5' {
        5
    } else if c == '6' {
        6
    } else if c == '7' {
        7
    } else if c == '8' {
        8
    } else {
        9
    }
}

/// Whether `c` is one of the characters 0 to 9.
pub open spec fn is_digit(c: char) -> bool {
    '0' <= c && c <= '9'
}

/// The shortest decimal spelling of `n`, as `Display` writes it.
pub open spec fn nat_decimal(n: nat) -> Seq<char>
    decreases n,
{
    if n < 10 {
        seq![digit_char(n as int)]
    } else {
        nat_decimal(n / 10).push(digit_char((n % 10) as int))
    }
}

/// The decimal spelling of an integer, with a leading '-' when it is negative.
pub open spec fn int_decimal(i: int) -> Seq<char> {
    if i < 0 {
        seq!['-'] + nat_decimal((-i) as nat)
    } else {
        nat_decimal(i as nat)
    }
}

/// The number that a sequence of decimal digits spells.
pub open spec fn decimal_value(s: Seq<char>) -> int
    decreases s.len(),
{
    if s.len() == 0 {
        0
    } else {
        decimal_value(s.drop_last()) * 10 + digit_value(s.last())
    }
}

fn digit_to_char(d: u64) -> (c: char)
    requires
        d < 10,
    ensures
        c == digit_char(d as int),
{
    if d == 0 {
        '0'
    } else if d == 1 {
        '1'
    } else if d == 2 {
        '2'
    } else if d == 3 {
        '3'
    } else if d == 4 {
        '4'
    } else if d == 5 {
        '5'
    } else if d == 6 {
        '6'
    } else if d == 7 {
        '7'
    } else if d == 8 {
        '8'
    } else {
        '9'
    }
}

/// Appends the decimal spelling of `n` to `out`.
pub fn push_decimal(out: &mut String, n: u64)
    ensures
        final(out)@ == old(out)@ + nat_decimal(n as nat),
    decreases n,
{
    if n >= 10 {
        push_decimal(out, n / 10);
    }
    out.push(digit_to_char(n % 10));
    proof {
        if n >= 10 {
            assert(old(out)@ + nat_decimal(n as nat) =~= old(out)@ + nat_decimal((n / 10) as nat)
                + seq![digit_char((n % 10) as int)]);
        } else {
            assert(old(out)@ + nat_decimal(n as nat) =~= old(out)@.push(digit_char((n % 10) as int)));
        }
    }
}

/// The decimal spelling of an unsigned size.
pub fn usize_to_decimal(n: usize) -> (r: String)
    ensures
        r@ == nat_decimal(n as nat),
{
    let mut out = String::new();
    push_decimal(&mut out, n as u64);
    proof { assert(out@ =~= nat_decimal(n as nat)); }
    out
}

/// The decimal spelling of a 32-bit integer, as `Display` writes it.
pub fn i32_to_decimal(i: i32) -> (r: String)
    ensures
        r@ == int_decimal(i as int),
{
    let mut out = String::new();
    if i < 0 {
        out.push('-');
        let m: u64 = (0i64 - (i as i64)) as u64;
        push_decimal(&mut out, m);
    } else {
        push_decimal(&mut out, i as u64);
        proof { assert(out@ =~= nat_decimal(i as nat)); }
    }
    out
}

/// The number of characters in the decimal spelling of `n`.
pub fn decimal_len(n: usize) -> (r: usize)
    ensures
        r == nat_decimal(n as nat).len(),
    decreases n,
{
    if n < 10 {
        1
    } else {
        proof { lemma_decimal_len_bound((n / 10) as nat); }
        decimal_len(n / 10) + 1
    }
}

proof fn lemma_decimal_len_bound(n: nat)
    ensures
        nat_decimal(n).len() <= n + 1,
    decreases n,
{
    if n >= 10 {
        lemma_decimal_len_bound(n / 10);
    }
}

/// Every character of a decimal spelling is a digit, and only zero is
/// spelled with a leading '0'.
pub proof fn lemma_nat_decimal_digits(n: nat)
    ensures
        nat_decimal(n).len() >= 1,
        forall|k: int| 0 <= k < nat_decimal(n).len() ==> is_digit(#[trigger] nat_decimal(n)[k]),
        nat_decimal(n)[0] == '0' <==> n == 0,
    decreases n,
{
    if n >= 10 {
        lemma_nat_decimal_digits(n / 10);
        let p = nat_decimal(n / 10);
        assert forall|k: int| 0 <= k < nat_decimal(n).len() implies is_digit(#[trigger] nat_decimal(n)[k]) by {
            if k < p.len() {
                assert(nat_decimal(n)[k] == p[k]);
            }
        }
        assert(nat_decimal(n)[0] == p[0]);
    }
}

proof fn lemma_digit_roundtrip(d: int)
    requires
        0 <= d < 10,
    ensures
        digit_value(digit_char(d)) == d,
        is_digit(digit_char(d)),
{
}

/// Reading a decimal spelling back gives the number spelled.
pub proof fn lemma_nat_decimal_value(n: nat)
    ensures
        decimal_value(nat_decimal(n)) == n,
    decreases n,
{
    if n < 10 {
        let s = nat_decimal(n);
        lemma_digit_roundtrip(n as int);
        assert(s.drop_last() =~= Seq::<char>::empty());
        assert(decimal_value(s) == decimal_value(s.drop_last()) * 10 + digit_value(s.last()));
    } else {
        lemma_nat_decimal_value(n / 10);
        let s = nat_decimal(n);
        assert(s.drop_last() =~= nat_decimal(n / 10));
        lemma_digit_roundtrip((n % 10) as int);
        assert(s.last() == digit_char((n % 10) as int));
        assert(decimal_value(s) == decimal_value(s.drop_last()) * 10 + digit_value(s.last()));
        assert(n == (n / 10) * 10 + n % 10) by (nonlinear_arith);
    }
}

/// Different numbers have different decimal spellings.
pub proof fn lemma_nat_decimal_injective(a: nat, b: nat)
    requires
        nat_decimal(a) == nat_decimal(b),
    ensures
        a == b,
{
    lemma_nat_decimal_value(a);
    lemma_nat_decimal_value(b);
}

} // verus!
