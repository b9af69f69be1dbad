//! Numbers written in decimal digits.
use crate::fixed::fits;
use crate::text::{pieces, split, texts_of};
use vstd::prelude::*;

verus! {

/// Whether a character is one of the digits `0` to `9`.
pub open spec fn is_digit(c: char) -> bool {
    '0' <= c && c <= '9'
}

/// The value of a digit.
pub open spec fn digit(c: char) -> int {
    c as int - 48
}

/// Whether a text holds digits only.
pub open spec fn all_digits(text: Seq<char>) -> bool {
    forall|i: int| 0 <= i < text.len() ==> is_digit(#[trigger] text[i])
}

/// The number that a text of digits writes. The empty text writes zero.
pub open spec fn number(text: Seq<char>) -> nat
    decreases text.len(),
{
    if text.len() == 0 {
        0
    } else {
        (10 * number(text.drop_last()) + digit(text.last())) as nat
    }
}

/// A power of ten.
pub open spec fn ten_to(exponent: nat) -> nat
    decreases exponent,
{
    if exponent == 0 {
        1
    } else {
        10 * ten_to((exponent - 1) as nat)
    }
}

/// A text of digits writes a number that is at least what any of its beginnings
/// writes.
pub proof fn lemma_number_grows(text: Seq<char>, count: int)
    requires
        all_digits(text),
        0 <= count <= text.len(),
    ensures
        number(text.take(count)) <= number(text),
    decreases text.len(),
{
    if count == text.len() {
        assert(text.take(count) =~= text);
    } else {
        assert(text.drop_last().take(count) =~= text.take(count));
        assert(is_digit(text.last()));
        lemma_number_grows(text.drop_last(), count);
    }
}

/// The number that a text of digits writes, where it is below 2 to the 64th.
pub fn read_digits(text: &Vec<char>) -> (r: Option<u64>)
    ensures
        r == if all_digits(text@) && number(text@) <= u64::MAX {
            Some(number(text@) as u64)
        } else {
            None::<u64>
        },
{
    let mut value: u64 = 0;
    let mut i: usize = 0;
    assert(text@.take(0) =~= Seq::<char>::empty());
    while i < text.len()
        invariant
            i <= text@.len(),
            all_digits(text@.take(i as int)),
            value == number(text@.take(i as int)),
        decreases text@.len() - i,
    {
        let c = text[i];
        if !(c >= '0' && c <= '9') {
            assert(!is_digit(text@[i as int]));
            return None;
        }
        let d: u64 = (c as u32 - 48) as u64;
        proof {
            let longer = text@.take(i + 1);
            assert(longer.drop_last() =~= text@.take(i as int));
            assert(longer.last() == c);
            assert(all_digits(longer)) by {
                assert forall|k: int| 0 <= k < longer.len() implies is_digit(
                    #[trigger] longer[k],
                ) by {
                    if k < i {
                        assert(text@.take(i as int)[k] == longer[k]);
                    }
                }
            }
            assert(number(longer) == 10 * value + d);
        }
        if value > (u64::MAX - d) / 10 {
            proof {
                if all_digits(text@) {
                    lemma_number_grows(text@, i + 1);
                }
            }
            return None;
        }
        value = value * 10 + d;
        i = i + 1;
    }
    assert(text@.take(i as int) =~= text@);
    Some(value)
}

/// The whole number that a text writes in digits, with or without a plus sign
/// before them, where there is at least one digit and the number is below 2 to
/// the 32nd.
pub open spec fn unsigned(text: Seq<char>) -> Option<u32> {
    let digits = if text.len() > 0 && text[0] == '+' {
        text.drop_first()
    } else {
        text
    };
    if digits.len() > 0 && all_digits(digits) && number(digits) <= u32::MAX {
        Some(number(digits) as u32)
    } else {
        None
    }
}

/// The characters of a text from the position `from` on.
pub(crate) fn tail(text: &Vec<char>, from: usize) -> (r: Vec<char>)
    requires
        from <= text@.len(),
    ensures
        r@ == text@.skip(from as int),
{
    let mut rest: Vec<char> = Vec::new();
    let mut i: usize = from;
    while i < text.len()
        invariant
            from <= i <= text@.len(),
            rest@ == text@.subrange(from as int, i as int),
        decreases text@.len() - i,
    {
        rest.push(text[i]);
        assert(rest@ =~= text@.subrange(from as int, i + 1));
        i = i + 1;
    }
    assert(rest@ =~= text@.skip(from as int));
    rest
}

/// Reads a whole number: see [`unsigned`].
pub fn read_unsigned(text: &Vec<char>) -> (r: Option<u32>)
    ensures
        r == unsigned(text@),
{
    let digits = if text.len() > 0 && text[0] == '+' {
        assert(text@.skip(1) =~= text@.drop_first());
        tail(text, 1)
    } else {
        assert(text@.skip(0) =~= text@);
        tail(text, 0)
    };
    if digits.len() == 0 {
        return None;
    }
    let value: u64 = read_digits(&digits)?;
    if value > 0xffff_ffff {
        return None;
    }
    Some(value as u32)
}

/// The millionths that the digits after a decimal point write. Digits after the
/// sixth are dropped: the amount is rounded toward zero.
pub open spec fn millionths(fraction: Seq<char>) -> nat {
    if fraction.len() >= 6 {
        number(fraction.take(6))
    } else {
        number(fraction) * ten_to((6 - fraction.len()) as nat)
    }
}

/// The amount in millionths that a text writes as a decimal number.
///
/// The text is a sign or none, then digits, and at most one decimal point among
/// or beside them; there is at least one digit. Nothing else is read as an
/// amount: no spaces, no exponent, no separators of thousands. There is no value
/// either where the amount cannot be stored.
pub open spec fn amount(text: Seq<char>) -> Option<i64> {
    let signed = text.len() > 0 && (text[0] == '-' || text[0] == '+');
    let negative = text.len() > 0 && text[0] == '-';
    let parts = pieces(
        if signed {
            text.drop_first()
        } else {
            text
        },
        '.',
    );
    let whole = parts[0];
    let fraction = if parts.len() == 2 {
        parts[1]
    } else {
        Seq::empty()
    };
    let magnitude = number(whole) * 1_000_000 + millionths(fraction);
    let value = if negative {
        -magnitude
    } else {
        magnitude as int
    };
    if parts.len() <= 2 && whole.len() + fraction.len() > 0 && all_digits(whole) && all_digits(
        fraction,
    ) && fits(value) {
        Some(value as i64)
    } else {
        None
    }
}

/// Whether a text holds digits only.
pub fn only_digits(text: &Vec<char>) -> (r: bool)
    ensures
        r == all_digits(text@),
{
    let mut i: usize = 0;
    while i < text.len()
        invariant
            i <= text@.len(),
            forall|k: int| 0 <= k < i ==> is_digit(#[trigger] text@[k]),
        decreases text@.len() - i,
    {
        let c = text[i];
        if !(c >= '0' && c <= '9') {
            assert(!is_digit(text@[i as int]));
            return false;
        }
        i = i + 1;
    }
    true
}

/// At most six digits write a number below a million.
pub proof fn lemma_six_digits(text: Seq<char>)
    requires
        all_digits(text),
        text.len() <= 6,
    ensures
        number(text) < ten_to(text.len()),
        ten_to(6) == 1_000_000,
    decreases text.len(),
{
    reveal_with_fuel(ten_to, 7);
    if text.len() > 0 {
        assert(is_digit(text.last()));
        lemma_six_digits(text.drop_last());
    }
}

/// Reads the millionths that the digits after a decimal point write: see
/// [`millionths`].
fn read_millionths(fraction: &Vec<char>) -> (r: u64)
    requires
        all_digits(fraction@),
    ensures
        r == millionths(fraction@),
        r < 1_000_000,
{
    let mut value: u64 = 0;
    let mut i: usize = 0;
    let kept: usize = if fraction.len() >= 6 {
        6
    } else {
        fraction.len()
    };
    assert(fraction@.take(0) =~= Seq::<char>::empty());
    while i < kept
        invariant
            i <= kept <= fraction@.len(),
            kept <= 6,
            all_digits(fraction@),
            all_digits(fraction@.take(i as int)),
            value == number(fraction@.take(i as int)),
            value < ten_to(i as nat),
        decreases kept - i,
    {
        let c = fraction[i];
        assert(is_digit(fraction@[i as int]));
        let d: u64 = (c as u32 - 48) as u64;
        proof {
            let longer = fraction@.take(i + 1);
            assert(longer.drop_last() =~= fraction@.take(i as int));
            assert(longer.last() == c);
            assert(all_digits(longer)) by {
                assert forall|k: int| 0 <= k < longer.len() implies is_digit(
                    #[trigger] longer[k],
                ) by {
                    assert(longer[k] == fraction@[k]);
                }
            }
            lemma_six_digits(longer);
            lemma_six_digits(fraction@.take(i as int));
            reveal_with_fuel(ten_to, 7);
        }
        value = value * 10 + d;
        i = i + 1;
    }
    proof {
        lemma_six_digits(fraction@.take(kept as int));
        reveal_with_fuel(ten_to, 7);
        if fraction@.len() < 6 {
            assert(fraction@.take(kept as int) =~= fraction@);
        }
    }
    let mut padded: usize = kept;
    let ghost read = value as nat;
    assert(ten_to(0) == 1);
    assert(read * ten_to(0) == read) by (nonlinear_arith)
        requires
            ten_to(0) == 1,
    ;
    while padded < 6
        invariant
            kept <= padded <= 6,
            read == number(fraction@.take(kept as int)),
            kept == if fraction@.len() >= 6 {
                6
            } else {
                fraction@.len()
            },
            value == read * ten_to((padded - kept) as nat),
            value < ten_to(padded as nat),
            read < ten_to(kept as nat),
        decreases 6 - padded,
    {
        proof {
            reveal_with_fuel(ten_to, 7);
            assert(read * ten_to((padded + 1 - kept) as nat) == 10 * (read * ten_to(
                (padded - kept) as nat,
            ))) by (nonlinear_arith)
                requires
                    ten_to((padded + 1 - kept) as nat) == 10 * ten_to((padded - kept) as nat),
            ;
        }
        value = value * 10;
        padded = padded + 1;
    }
    proof {
        if fraction@.len() < 6 {
            assert(fraction@.take(kept as int) =~= fraction@);
        }
    }
    value
}

/// Reads an amount in millionths: see [`amount`].
pub fn read_amount(text: &Vec<char>) -> (r: Option<i64>)
    ensures
        r == amount(text@),
{
    let signed = text.len() > 0 && (text[0] == '-' || text[0] == '+');
    let negative = text.len() > 0 && text[0] == '-';
    let unsigned_text = if signed {
        assert(text@.skip(1) =~= text@.drop_first());
        tail(text, 1)
    } else {
        assert(text@.skip(0) =~= text@);
        tail(text, 0)
    };
    let parts = split(&unsigned_text, '.');
    assert(texts_of(parts@)[0] == parts@[0]@);
    if parts.len() > 2 {
        return None;
    }
    let empty: Vec<char> = Vec::new();
    let whole = &parts[0];
    let fraction = if parts.len() == 2 {
        assert(texts_of(parts@)[1] == parts@[1]@);
        &parts[1]
    } else {
        &empty
    };
    if whole.len() == 0 && fraction.len() == 0 {
        return None;
    }
    if !only_digits(fraction) {
        return None;
    }
    let units: u64 = match read_digits(whole) {
        Some(units) => units,
        None => {
            return None;
        },
    };
    let part: u64 = read_millionths(fraction);
    let magnitude: i128 = units as i128 * 1_000_000 + part as i128;
    if negative {
        crate::fixed::narrow(-magnitude)
    } else {
        crate::fixed::narrow(magnitude)
    }
}

} // verus!
