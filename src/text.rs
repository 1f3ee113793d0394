//! Decimal rendering of integers, for the textual forms of the library's
//! values.

use vstd::prelude::*;

verus! {

/// The ASCII character of the decimal digit `d`.
pub open spec fn digit_char(d: int) -> char {
    ((d + 48) as u8) as char
}

/// The decimal digits of `n`, without leading zeros.
pub open spec fn nat_text(n: nat) -> Seq<char>
    decreases n,
{
    if n < 10 {
        seq![digit_char(n as int)]
    } else {
        nat_text(n / 10).push(digit_char((n % 10) as int))
    }
}

/// The decimal text of `v`: a `-` before the digits of a negative value.
pub open spec fn int_text(v: int) -> Seq<char> {
    if v < 0 {
        seq!['-'] + nat_text((-v) as nat)
    } else {
        nat_text(v as nat)
    }
}

/// Appends the decimal digits of `n` to `out`.
fn push_digits(n: u64, out: &mut Vec<char>)
    ensures
        final(out)@ == old(out)@ + nat_text(n as nat),
    decreases n,
{
    if n >= 10 {
        push_digits(n / 10, out);
    }
    let d: u8 = (n % 10) as u8;
    out.push((d + 48u8) as char);
    proof {
        assert(old(out)@ + nat_text(n as nat) =~= if n >= 10 {
            old(out)@ + nat_text((n / 10) as nat)
        } else {
            old(out)@
        }.push(digit_char((n % 10) as int)));
    }
}

/// Appends the decimal text of `v` to `out`.
pub fn push_int_text(v: i64, out: &mut Vec<char>)
    ensures
        final(out)@ == old(out)@ + int_text(v as int),
{
    if v < 0 {
        out.push('-');
        let magnitude: u64 = if v == i64::MIN {
            0x8000_0000_0000_0000u64
        } else {
            (-v) as u64
        };
        push_digits(magnitude, out);
        assert(final(out)@ =~= old(out)@ + int_text(v as int));
    } else {
        push_digits(v as u64, out);
    }
}

/// Relies on `String`'s `FromIterator<char>`: the string holds exactly the
/// collected characters, in order.
#[verifier::external_body]
pub fn string_of(chars: Vec<char>) -> (r: String)
    ensures
        r@ == chars@,
{
    chars.into_iter().collect()
}

} // verus!
