//! Numbers as text: decimal digits, fixed-point figures and padding.

use vstd::prelude::*;
use vstd::string::{StrSliceExecFns, StringExecFns};

verus! {

/// `String::push` of the standard library.
///
/// Trusted: the character is appended and nothing else changes.
pub assume_specification[ String::push ](text: &mut String, ch: char)
    ensures
        final(text)@ == old(text)@.push(ch),
;

/// The character of the decimal digit `d`.
pub open spec fn digit_char(d: nat) -> char {
    if d == 0 {
        '0'
    } else if d == 1 {
        '1'
    } else if d == 2 {
        '2'
    } else if d == 3 {
        '3'
    } else if d == 4 {
        '4'
    } else if d == 5 {
        '5'
    } else if d == 6 {
        '6'
    } else if d == 7 {
        '7'
    } else if d == 8 {
        '8'
    } else {
        '9'
    }
}

/// Whether `c` is one of the ten decimal digits.
pub open spec fn is_digit_char(c: char) -> bool {
    c == '0' || c == '1' || c == '2' || c == '3' || c == '4' || c == '5' || c == '6' || c == '7'
        || c == '8' || c == '9'
}

/// How often the character `c` stands in `text`.
pub open spec fn count_of(text: Seq<char>, c: char) -> nat
    decreases text.len(),
{
    if text.len() == 0 {
        0
    } else {
        count_of(text.drop_last(), c) + if text.last() == c {
            1nat
        } else {
            0nat
        }
    }
}

/// The decimal digits of `n`, without leading zeros.
pub open spec fn decimal(n: nat) -> Seq<char>
    decreases n,
{
    if n < 10 {
        seq![digit_char(n)]
    } else {
        decimal(n / 10).push(digit_char(n % 10))
    }
}

/// The last `places` decimal digits of `n`, with leading zeros.
pub open spec fn trailing_digits(n: nat, places: nat) -> Seq<char>
    decreases places,
{
    if places == 0 {
        Seq::empty()
    } else {
        trailing_digits(n / 10, (places - 1) as nat).push(digit_char(n % 10))
    }
}

/// Ten to the power `places`.
pub open spec fn pow10(places: nat) -> nat
    decreases places,
{
    if places == 0 {
        1
    } else {
        10 * pow10((places - 1) as nat)
    }
}

/// `scaled / 10^places` written with exactly `places` digits after the
/// point.
pub open spec fn fixed_point(scaled: nat, places: nat) -> Seq<char> {
    decimal(scaled / pow10(places)) + seq!['.'] + trailing_digits(scaled, places)
}

/// `n / d` rounded to the nearest whole number, halves up.
pub open spec fn rounded_div(n: nat, d: nat) -> nat {
    (n + d / 2) / d
}

/// `count` spaces.
pub open spec fn spaces(count: int) -> Seq<char> {
    Seq::new(
        if count > 0 {
            count as nat
        } else {
            0
        },
        |i: int| ' ',
    )
}

/// `text` moved to the right end of a field of `width` characters; longer
/// text is left as it is.
pub open spec fn right_aligned(text: Seq<char>, width: nat) -> Seq<char> {
    spaces(width - text.len()) + text
}

/// `text` at the left end of a field of `width` characters; longer text is
/// left as it is.
pub open spec fn left_aligned(text: Seq<char>, width: nat) -> Seq<char> {
    text + spaces(width - text.len())
}

/// Appends the character of the decimal digit `d`.
fn push_digit(out: &mut String, d: u8)
    requires
        d < 10,
    ensures
        final(out)@ == old(out)@.push(digit_char(d as nat)),
{
    let ch = if d == 0 {
        '0'
    } else if d == 1 {
        '1'
    } else if d == 2 {
        '2'
    } else if d == 3 {
        '3'
    } else if d == 4 {
        '4'
    } else if d == 5 {
        '5'
    } else if d == 6 {
        '6'
    } else if d == 7 {
        '7'
    } else if d == 8 {
        '8'
    } else {
        '9'
    };
    out.push(ch);
}

/// Appends the decimal digits of `n`.
pub fn push_decimal(out: &mut String, n: u128)
    ensures
        final(out)@ == old(out)@ + decimal(n as nat),
    decreases n,
{
    if n >= 10 {
        push_decimal(out, n / 10);
    }
    push_digit(out, (n % 10) as u8);
    assert(out@ =~= old(out)@ + decimal(n as nat));
}

/// Appends the last `places` decimal digits of `n`, with leading zeros.
pub fn push_trailing_digits(out: &mut String, n: u128, places: u8)
    ensures
        final(out)@ == old(out)@ + trailing_digits(n as nat, places as nat),
    decreases places,
{
    if places > 0 {
        push_trailing_digits(out, n / 10, places - 1);
        push_digit(out, (n % 10) as u8);
    }
    assert(out@ =~= old(out)@ + trailing_digits(n as nat, places as nat));
}

/// Ten to any power is positive.
pub proof fn lemma_pow10_positive(places: nat)
    ensures
        pow10(places) > 0,
    decreases places,
{
    if places > 0 {
        lemma_pow10_positive((places - 1) as nat);
    }
}

/// Appends `scaled / 10^places` with exactly `places` digits after the
/// point.
pub fn push_fixed_point(out: &mut String, scaled: u128, places: u8)
    ensures
        final(out)@ == old(out)@ + fixed_point(scaled as nat, places as nat),
{
    let mut whole = scaled;
    let mut k: u8 = 0;
    assert(pow10(0) == 1);
    while k < places
        invariant
            k <= places,
            whole == (scaled as nat) / pow10(k as nat),
        decreases places - k,
    {
        proof {
            lemma_pow10_positive(k as nat);
            vstd::arithmetic::div_mod::lemma_div_denominator(
                scaled as int,
                pow10(k as nat) as int,
                10,
            );
            assert(pow10(k as nat) * 10 == pow10((k + 1) as nat));
        }
        whole = whole / 10;
        k = k + 1;
    }
    push_decimal(out, whole);
    out.push('.');
    push_trailing_digits(out, scaled, places);
    assert(out@ =~= old(out)@ + fixed_point(scaled as nat, places as nat));
}

/// Appends `count` spaces.
pub fn push_spaces(out: &mut String, count: usize)
    ensures
        final(out)@ == old(out)@ + spaces(count as int),
{
    let mut i: usize = 0;
    while i < count
        invariant
            i <= count,
            out@ == old(out)@ + spaces(i as int),
        decreases count - i,
    {
        out.push(' ');
        i = i + 1;
        assert(out@ =~= old(out)@ + spaces(i as int));
    }
}

/// Appends `text` at the right end of a field of `width` characters.
pub fn push_right_aligned(out: &mut String, text: &str, width: usize)
    ensures
        final(out)@ == old(out)@ + right_aligned(text@, width as nat),
{
    let len = text.unicode_len();
    if len < width {
        push_spaces(out, width - len);
    }
    out.append(text);
    assert(out@ =~= old(out)@ + right_aligned(text@, width as nat));
}

/// Appends `text` at the left end of a field of `width` characters.
pub fn push_left_aligned(out: &mut String, text: &str, width: usize)
    ensures
        final(out)@ == old(out)@ + left_aligned(text@, width as nat),
{
    let len = text.unicode_len();
    out.append(text);
    if len < width {
        push_spaces(out, width - len);
    }
    assert(out@ =~= old(out)@ + left_aligned(text@, width as nat));
}

/// A character stands once in the text made of itself, and not at all in
/// the text made of another character.
pub proof fn lemma_count_of_single(x: char, c: char)
    ensures
        count_of(seq![x], c) == if x == c {
            1nat
        } else {
            0nat
        },
{
    let single = seq![x];
    assert(single.drop_last() =~= Seq::<char>::empty());
    assert(count_of(Seq::<char>::empty(), c) == 0);
    assert(single.last() == x);
}

/// A character stands in `a + b` as often as in `a` and in `b` together.
pub proof fn lemma_count_of_concat(a: Seq<char>, b: Seq<char>, c: char)
    ensures
        count_of(a + b, c) == count_of(a, c) + count_of(b, c),
    decreases b.len(),
{
    if b.len() == 0 {
        assert(a + b =~= a);
    } else {
        assert((a + b).drop_last() =~= a + b.drop_last());
        assert((a + b).last() == b.last());
        lemma_count_of_concat(a, b.drop_last(), c);
    }
}

/// A character stands nowhere in a text exactly when its count there is
/// zero.
pub proof fn lemma_count_of_zero(text: Seq<char>, c: char)
    ensures
        count_of(text, c) == 0 <==> forall|i: int| 0 <= i < text.len() ==> text[i] != c,
    decreases text.len(),
{
    if text.len() > 0 {
        let rest = text.drop_last();
        lemma_count_of_zero(rest, c);
        if count_of(text, c) == 0 {
            assert forall|i: int| 0 <= i < text.len() implies text[i] != c by {
                if i < rest.len() {
                    assert(rest[i] == text[i]);
                }
            }
        } else if text.last() != c {
            let i = choose|i: int| 0 <= i < rest.len() && rest[i] == c;
            assert(text[i] == c);
        }
    }
}

/// A number in decimal is made of digits, and of one at least.
pub proof fn lemma_decimal_is_digits(n: nat)
    ensures
        decimal(n).len() >= 1,
        forall|i: int| 0 <= i < decimal(n).len() ==> is_digit_char(#[trigger] decimal(n)[i]),
    decreases n,
{
    if n >= 10 {
        lemma_decimal_is_digits(n / 10);
    }
}

/// The last `places` digits of a number are `places` digits.
pub proof fn lemma_trailing_digits_are_digits(n: nat, places: nat)
    ensures
        trailing_digits(n, places).len() == places,
        forall|i: int|
            0 <= i < places ==> is_digit_char(#[trigger] trailing_digits(n, places)[i]),
    decreases places,
{
    if places > 0 {
        lemma_trailing_digits_are_digits(n / 10, (places - 1) as nat);
    }
}

/// A fixed-point figure is made of digits and one point, which has
/// `places` digits behind it and one digit at least before it.
pub proof fn lemma_fixed_point_shape(scaled: nat, places: nat)
    ensures
        ({
            let text = fixed_point(scaled, places);
            let point = text.len() - places - 1;
            &&& point >= 1
            &&& text[point] == '.'
            &&& forall|i: int| 0 <= i < text.len() && i != point ==> is_digit_char(#[trigger] text[i])
        }),
{
    lemma_decimal_is_digits(scaled / pow10(places));
    lemma_trailing_digits_are_digits(scaled, places);
}

} // verus!
