use crate::casing::{cased, four_digits, lower_char, Name, TokenCase};
use vstd::prelude::*;

verus! {

/// `c` is an ASCII small letter.
pub open spec fn is_small(c: char) -> bool {
    'a' <= c && c <= 'z'
}

/// `c` is an ASCII capital letter.
pub open spec fn is_capital(c: char) -> bool {
    'A' <= c && c <= 'Z'
}

/// `c` is an ASCII decimal digit.
pub open spec fn is_digit(c: char) -> bool {
    '0' <= c && c <= '9'
}

/// `s` is a single word of ASCII letters, in any case.
pub open spec fn is_ascii_word(s: Seq<char>) -> bool {
    s.len() > 0 && forall|i: int| 0 <= i < s.len() ==> is_small(#[trigger] s[i]) || is_capital(s[i])
}

/// `s` is a single word of ASCII letters, written in case `k`.
pub open spec fn in_case(s: Seq<char>, k: TokenCase) -> bool {
    s.len() > 0 && forall|i: int|
        0 <= i < s.len() ==> if k == TokenCase::Upper || (k == TokenCase::Capital && i == 0) {
            is_capital(#[trigger] s[i])
        } else {
            is_small(s[i])
        }
}

/// `s` is four decimal digits.
pub open spec fn is_four_digits(s: Seq<char>) -> bool {
    s.len() == 4 && forall|i: int| 0 <= i < 4 ==> is_digit(#[trigger] s[i])
}

/// The number that the four digits `s` write.
pub open spec fn digits_value(s: Seq<char>) -> int {
    1000 * (s[0] as int - 48) + 100 * (s[1] as int - 48) + 10 * (s[2] as int - 48) + (s[3] as int - 48)
}

/// `s` has the shape that `style` gives a name: the adjective and the noun as
/// words in the style's cases, joined by its separator, followed (when
/// `with_number`) by the separator and four digits.
pub open spec fn has_shape(style: Name, s: Seq<char>, with_number: bool) -> bool {
    exists|a: Seq<char>, n: Seq<char>, tail: Seq<char>|
        #![trigger in_case(a, style.adjective_case()), in_case(n, style.noun_case()), a + style.separator() + n + tail]
        in_case(a, style.adjective_case()) && in_case(n, style.noun_case())
            && s == a + style.separator() + n + tail
            && if with_number {
            tail.len() == style.separator().len() + 4
                && tail.take(style.separator().len() as int) == style.separator()
                && is_four_digits(tail.skip(style.separator().len() as int))
        } else {
            tail.len() == 0
        }
}

proof fn lemma_cased_in_case(k: TokenCase, s: Seq<char>)
    requires
        is_ascii_word(s),
    ensures
        in_case(cased(k, s), k),
        cased(TokenCase::Lower, cased(k, s)) == cased(TokenCase::Lower, s),
{
    let t = cased(k, s);
    assert forall|i: int| 0 <= i < t.len() implies if k == TokenCase::Upper || (k == TokenCase::Capital
        && i == 0) {
        is_capital(#[trigger] t[i])
    } else {
        is_small(t[i])
    } by {
        assert(is_small(s[i]) || is_capital(s[i]));
    }
    assert forall|i: int| 0 <= i < s.len() implies #[trigger] lower_char(t[i]) == lower_char(s[i]) by {
        assert(is_small(s[i]) || is_capital(s[i]));
    }
    assert(cased(TokenCase::Lower, t) =~= cased(TokenCase::Lower, s));
}

/// The digits of `n` (0 to 9999) are four decimal digits that write `n`.
pub proof fn lemma_four_digits(n: int)
    requires
        0 <= n <= 9999,
    ensures
        is_four_digits(four_digits(n)),
        digits_value(four_digits(n)) == n,
{
    let d = four_digits(n);
    let below_thousand = n % 1000;
    let below_hundred = below_thousand % 100;
    assert(d[0] as int == n / 1000 + 48);
    assert(d[1] as int == below_thousand / 100 + 48);
    assert(d[2] as int == below_hundred / 10 + 48);
    assert(d[3] as int == below_hundred % 10 + 48);
}

/// For every style, and every adjective and noun that are single words of ASCII
/// letters, the formatted name has the style's shape, with a number exactly
/// when one is given; its two words are the adjective and the noun, up to case.
pub proof fn lemma_formatted_shape(style: Name, adjective: Seq<char>, noun: Seq<char>, number: Option<u16>)
    requires
        is_ascii_word(adjective),
        is_ascii_word(noun),
        number matches Some(k) ==> k <= 9999,
    ensures
        has_shape(style, style.formatted(adjective, noun, number), number is Some),
        style.formatted(adjective, noun, number) == cased(style.adjective_case(), adjective)
            + style.separator() + cased(style.noun_case(), noun) + style.suffix(number),
        cased(TokenCase::Lower, cased(style.adjective_case(), adjective)) == cased(
            TokenCase::Lower,
            adjective,
        ),
        cased(TokenCase::Lower, cased(style.noun_case(), noun)) == cased(TokenCase::Lower, noun),
{
    let a = cased(style.adjective_case(), adjective);
    let n = cased(style.noun_case(), noun);
    let tail = style.suffix(number);
    lemma_cased_in_case(style.adjective_case(), adjective);
    lemma_cased_in_case(style.noun_case(), noun);
    if let Some(k) = number {
        lemma_four_digits(k as int);
        assert(tail.take(style.separator().len() as int) =~= style.separator());
        assert(tail.skip(style.separator().len() as int) =~= four_digits(k as int));
    }
    assert(style.formatted(adjective, noun, number) == a + style.separator() + n + tail);
}

/// A number from 1 to 9999 is shown as four digits that are not all zero, and
/// that write the number.
pub proof fn lemma_number_suffix(style: Name, adjective: Seq<char>, noun: Seq<char>, k: u16)
    requires
        1 <= k <= 9999,
    ensures
        ({
            let s = style.formatted(adjective, noun, Some(k));
            let digits = s.skip(s.len() - 4);
            &&& digits == four_digits(k as int)
            &&& is_four_digits(digits)
            &&& digits_value(digits) == k
            &&& 1 <= digits_value(digits) <= 9999
            &&& digits != seq!['0', '0', '0', '0']
        }),
{
    let s = style.formatted(adjective, noun, Some(k));
    lemma_four_digits(k as int);
    assert(s.skip(s.len() - 4) =~= four_digits(k as int));
    let z = seq!['0', '0', '0', '0'];
    assert(digits_value(z) == 0);
}

} // verus!
