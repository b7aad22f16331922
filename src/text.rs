//! Writing numbers, amounts of money and padded columns as text.
use vstd::prelude::*;

verus! {

/// The decimal digit character for `d`.
pub open spec fn digit_char(d: nat) -> char
    recommends
        d < 10,
{
    "0123456789"@[d as int]
}

/// `n` written in decimal, without leading zeros.
pub open spec fn dec_text(n: nat) -> Seq<char>
    decreases n,
{
    if n < 10 {
        seq![digit_char(n)]
    } else {
        dec_text(n / 10).push(digit_char(n % 10))
    }
}

/// An amount of `cents` written as currency units with two decimals, with a
/// leading `-` when it is negative: `-1205` is `-12.05`.
pub open spec fn money_text(cents: int) -> Seq<char> {
    let a = if cents < 0 { -cents } else { cents };
    let sign = if cents < 0 { seq!['-'] } else { Seq::<char>::empty() };
    sign + dec_text((a / 100) as nat) + seq!['.', digit_char(((a % 100) / 10) as nat), digit_char((a % 10) as nat)]
}

/// `k` spaces.
pub open spec fn spaces(k: nat) -> Seq<char> {
    Seq::new(k, |i: int| ' ')
}

/// `t` followed by spaces up to `width` characters; `t` itself when it is
/// that long already.
pub open spec fn pad_right(t: Seq<char>, width: nat) -> Seq<char> {
    if t.len() >= width {
        t
    } else {
        t + spaces((width - t.len()) as nat)
    }
}

/// Appends the digit for `d`.
fn push_digit(s: &mut String, d: u128)
    requires
        d < 10,
    ensures
        final(s)@ == old(s)@.push(digit_char(d as nat)),
{
    let digits = "0123456789";
    proof {
        reveal_strlit("0123456789");
    }
    let u = d as usize;
    s.append(digits.substring_char(u, u + 1));
    assert(final(s)@ =~= old(s)@.push(digit_char(d as nat)));
}

/// Appends `n` in decimal.
fn push_decimal(s: &mut String, n: u128)
    ensures
        final(s)@ == old(s)@ + dec_text(n as nat),
    decreases n,
{
    if n < 10 {
        push_digit(s, n);
        assert(final(s)@ =~= old(s)@ + dec_text(n as nat));
    } else {
        push_decimal(s, n / 10);
        push_digit(s, n % 10);
        assert(final(s)@ =~= old(s)@ + dec_text(n as nat));
    }
}

/// `n` in decimal.
pub fn decimal_text(n: u128) -> (r: String)
    ensures
        r@ == dec_text(n as nat),
{
    let mut s = String::new();
    push_decimal(&mut s, n);
    assert(s@ =~= dec_text(n as nat));
    s
}

/// An amount of `cents` as currency units with two decimals.
pub fn money_string(cents: i128) -> (r: String)
    ensures
        r@ == money_text(cents as int),
{
    let mut s = String::new();
    let a: u128 = if cents < 0 {
        s.append("-");
        (-(cents + 1)) as u128 + 1
    } else {
        cents as u128
    };
    proof {
        reveal_strlit("-");
    }
    let ghost sign = s@;
    push_decimal(&mut s, a / 100);
    s.append(".");
    proof {
        reveal_strlit(".");
    }
    push_digit(&mut s, (a % 100) / 10);
    push_digit(&mut s, a % 10);
    assert(s@ =~= money_text(cents as int));
    s
}

/// Appends `piece`, then spaces up to `width` characters in all.
pub fn push_padded(s: &mut String, piece: &str, width: usize)
    ensures
        final(s)@ == old(s)@ + pad_right(piece@, width as nat),
{
    s.append(piece);
    let mut n: usize = piece.unicode_len();
    proof {
        reveal_strlit(" ");
        assert(s@ =~= old(s)@ + piece@ + spaces(0));
    }
    while n < width
        invariant
            piece@.len() <= n <= if piece@.len() <= width { width as int } else { piece@.len() as int },
            s@ == old(s)@ + piece@ + spaces((n - piece@.len()) as nat),
        decreases width - n,
    {
        s.append(" ");
        proof {
            reveal_strlit(" ");
        }
        assert(spaces((n + 1 - piece@.len()) as nat) =~= spaces((n - piece@.len()) as nat).push(' '));
        n = n + 1;
        assert(s@ =~= old(s)@ + piece@ + spaces((n - piece@.len()) as nat));
    }
    assert(s@ =~= old(s)@ + pad_right(piece@, width as nat));
}

} // verus!
