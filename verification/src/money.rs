//! Amounts of money as the pages show them: cents as dollars and cents, and account
//! balances with the side they stand on.

use vstd::prelude::*;

verus! {

/// The character of a decimal digit.
pub open spec fn digit_char(d: int) -> char {
    if d == 0 {
        '0'
    } else if d == 1 {
        '1'
    } else if d == 2 {
        '2'
    } else if d == 3 {
        '3'
    } else if d == 4 {
        '4'
    } else if d == 5 {
        '5'
    } else if d == 6 {
        '6'
    } else if d == 7 {
        '7'
    } else if d == 8 {
        '8'
    } else {
        '9'
    }
}

/// The decimal digits of a number, without leading zeros (`0` for zero).
pub open spec fn digits_of(n: nat) -> Seq<char>
    decreases n,
{
    if n < 10 {
        seq![digit_char(n as int)]
    } else {
        digits_of(n / 10).push(digit_char((n % 10) as int))
    }
}

/// How a number displays: its digits, after a minus sign if it is negative.
pub open spec fn int_text(n: int) -> Seq<char> {
    if n < 0 {
        seq!['-'] + digits_of((-n) as nat)
    } else {
        digits_of(n as nat)
    }
}

/// How a number displays with a width of two, padded with zeros after the sign.
pub open spec fn two_wide(n: int) -> Seq<char> {
    if 0 <= n < 10 {
        seq!['0', digit_char(n)]
    } else {
        int_text(n)
    }
}

/// Division rounding toward zero, as integer division does.
pub open spec fn div_toward_zero(a: int, b: int) -> int {
    if a >= 0 {
        a / b
    } else {
        -((-a) / b)
    }
}

/// `${a / 100}.{a % 100:02}`: an amount in cents as dollars and cents.
pub open spec fn cents_text(a: int) -> Seq<char> {
    let q = div_toward_zero(a, 100);
    "$"@ + int_text(q) + "."@ + two_wide(a - 100 * q)
}

fn digit(d: u64) -> (c: char)
    requires
        d < 10,
    ensures
        c == digit_char(d as int),
{
    if d == 0 {
        '0'
    } else if d == 1 {
        '1'
    } else if d == 2 {
        '2'
    } else if d == 3 {
        '3'
    } else if d == 4 {
        '4'
    } else if d == 5 {
        '5'
    } else if d == 6 {
        '6'
    } else if d == 7 {
        '7'
    } else if d == 8 {
        '8'
    } else {
        '9'
    }
}

fn push_digits(v: &mut Vec<char>, n: u64)
    ensures
        final(v)@ == old(v)@ + digits_of(n as nat),
    decreases n,
{
    if n < 10 {
        v.push(digit(n));
        assert(final(v)@ =~= old(v)@ + digits_of(n as nat));
    } else {
        push_digits(v, n / 10);
        v.push(digit(n % 10));
        assert(digits_of(n as nat) == digits_of((n / 10) as nat).push(digit_char((n % 10) as int)));
        assert(v@ =~= old(v)@ + digits_of(n as nat));
    }
}

fn push_int(v: &mut Vec<char>, n: i64)
    ensures
        final(v)@ == old(v)@ + int_text(n as int),
{
    if n < 0 {
        v.push('-');
        let m: u64 = if n == i64::MIN {
            0x8000_0000_0000_0000u64
        } else {
            (-n) as u64
        };
        push_digits(v, m);
        assert(v@ =~= old(v)@ + int_text(n as int));
    } else {
        push_digits(v, n as u64);
    }
}

fn push_cents(v: &mut Vec<char>, a: i64)
    ensures
        final(v)@ == old(v)@ + cents_text(a as int),
{
    let neg = a < 0;
    let m: u64 = if a == i64::MIN {
        0x8000_0000_0000_0000u64
    } else if neg {
        (-a) as u64
    } else {
        a as u64
    };
    assert(m as int == if a < 0 { -(a as int) } else { a as int });
    let qm: u64 = m / 100;
    assert(qm <= 0x8000_0000_0000_0000u64 / 100);
    let q: i64 = if neg { -(qm as i64) } else { qm as i64 };
    assert(q as int == div_toward_zero(a as int, 100));
    assert(0 <= m - 100 * qm < 100);
    let r: i64 = a - 100 * q;
    v.push('$');
    push_int(v, q);
    v.push('.');
    if 0 <= r && r < 10 {
        v.push('0');
        v.push(digit(r as u64));
    } else {
        push_int(v, r);
    }
    proof {
        reveal_strlit("$");
        reveal_strlit(".");
    }
    assert(v@ =~= old(v)@ + cents_text(a as int));
}

/// An amount in cents as dollars and cents: `${amount / 100}.{amount % 100:02}`, the
/// division rounding toward zero.
pub fn format_amount(amount: i64) -> (s: String)
    ensures
        s@ == cents_text(amount as int),
{
    let mut v: Vec<char> = Vec::new();
    push_cents(&mut v, amount);
    assert(v@ =~= cents_text(amount as int));
    crate::ident::string_from_chars(&v)
}

/// The text of a balance: its size as dollars and cents, then `Dr` if it is negative
/// and `Cr` otherwise.
pub open spec fn balance_text(balance: int) -> Seq<char> {
    cents_text(if balance < 0 { -balance } else { balance }) + if balance < 0 {
        " Dr"@
    } else {
        " Cr"@
    }
}

/// The text of an account's balance, as `balance_text` says. The balance cannot be the
/// least `i64`, whose size does not fit.
pub fn format_balance(balance: i64) -> (s: String)
    requires
        balance != i64::MIN,
    ensures
        s@ == balance_text(balance as int),
{
    let size: i64 = if balance < 0 { -balance } else { balance };
    let mut v: Vec<char> = Vec::new();
    push_cents(&mut v, size);
    if balance < 0 {
        crate::ident::push_chars(&mut v, " Dr");
    } else {
        crate::ident::push_chars(&mut v, " Cr");
    }
    assert(v@ =~= balance_text(balance as int));
    crate::ident::string_from_chars(&v)
}

} // verus!
