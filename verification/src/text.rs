//! Text helpers shared by the other modules. Strings are reasoned about
//! through their view, the sequence of their characters.

use vstd::prelude::*;
use vstd::string::*;

verus! {

/// `str` equality from the standard library: two string slices are equal
/// exactly when they hold the same characters.
pub assume_specification[ <str as PartialEq>::eq ](a: &str, b: &str) -> (r: bool)
    ensures
        r == (a@ == b@),
;

/// `String::push` from the standard library: appends one character.
pub assume_specification[ String::push ](s: &mut String, c: char)
    ensures
        final(s)@ == old(s)@.push(c),
;

/// The characters of each string of a sequence.
pub open spec fn views(strings: Seq<String>) -> Seq<Seq<char>> {
    strings.map_values(|s: String| s@)
}

/// The characters of a string that may be absent.
pub open spec fn opt_view(s: Option<String>) -> Option<Seq<char>> {
    match s {
        Some(s) => Some(s@),
        None => None,
    }
}

/// The characters of each string of a sequence of pairs.
pub open spec fn pair_views(pairs: Seq<(String, String)>) -> Seq<(Seq<char>, Seq<char>)> {
    pairs.map_values(|p: (String, String)| (p.0@, p.1@))
}

/// Lower-case form of an ASCII capital; any other character is kept.
pub open spec fn ascii_lower(c: char) -> char {
    if 'A' <= c && c <= 'Z' {
        ((c as u8 + 32) as u8) as char
    } else {
        c
    }
}

/// `s` with every ASCII capital replaced by its lower-case form.
pub open spec fn ascii_lowercase(s: Seq<char>) -> Seq<char> {
    s.map_values(|c: char| ascii_lower(c))
}

/// `prefix` is a prefix of `s`.
pub open spec fn has_prefix(s: Seq<char>, prefix: Seq<char>) -> bool {
    prefix.len() <= s.len() && s.subrange(0, prefix.len() as int) == prefix
}

/// `suffix` is a suffix of `s`.
pub open spec fn has_suffix(s: Seq<char>, suffix: Seq<char>) -> bool {
    suffix.len() <= s.len() && s.subrange(s.len() - suffix.len(), s.len() as int) == suffix
}

/// The decimal digit `d` as a character.
pub open spec fn digit_char(d: nat) -> char
    recommends
        d < 10,
{
    (('0' as u8 + d) as u8) as char
}

/// Decimal notation of `n`, without sign or leading zeros.
pub open spec fn decimal(n: nat) -> Seq<char>
    decreases n,
{
    if n < 10 {
        seq![digit_char(n)]
    } else {
        decimal(n / 10).push(digit_char(n % 10))
    }
}

/// Different numbers have different decimal notations.
pub proof fn lemma_decimal_injective(a: nat, b: nat)
    requires
        decimal(a) == decimal(b),
    ensures
        a == b,
    decreases a,
{
    if a < 10 && b < 10 {
        assert(decimal(a)[0] == digit_char(a));
        assert(decimal(b)[0] == digit_char(b));
    } else if a < 10 {
        lemma_decimal_len(b / 10);
        assert(decimal(b).len() >= 2);
    } else if b < 10 {
        lemma_decimal_len(a / 10);
        assert(decimal(a).len() >= 2);
    } else {
        let da = decimal(a / 10);
        let db = decimal(b / 10);
        assert(decimal(a).last() == digit_char(a % 10));
        assert(decimal(b).last() == digit_char(b % 10));
        assert(decimal(a).drop_last() =~= da);
        assert(decimal(b).drop_last() =~= db);
        lemma_decimal_injective(a / 10, b / 10);
    }
}

/// A decimal notation has at least one digit.
pub proof fn lemma_decimal_len(n: nat)
    ensures
        decimal(n).len() >= 1,
    decreases n,
{
    if n >= 10 {
        lemma_decimal_len(n / 10);
    }
}

/// The text is made of decimal digits, one at least.
pub open spec fn is_digits(s: Seq<char>) -> bool {
    s.len() > 0 && forall|i: int| 0 <= i < s.len() ==> '0' <= #[trigger] s[i] <= '9'
}

/// The number that a text of decimal digits stands for.
pub open spec fn digits_value(s: Seq<char>) -> nat
    decreases s.len(),
{
    if s.len() == 0 {
        0
    } else {
        (digits_value(s.drop_last()) * 10 + (s.last() as u8 - '0' as u8)) as nat
    }
}

/// The text without a sign at its start.
pub open spec fn unsigned_part(text: Seq<char>, minus_too: bool) -> Seq<char> {
    if text.len() > 0 && (text[0] == '+' || (minus_too && text[0] == '-')) {
        text.drop_first()
    } else {
        text
    }
}

/// The number in `0..=255` that a text stands for: decimal digits, with or
/// without a plus sign before them, and nothing else.
pub open spec fn u8_of_text(text: Seq<char>) -> Option<u8> {
    let digits = unsigned_part(text, false);
    if is_digits(digits) && digits_value(digits) <= u8::MAX {
        Some(digits_value(digits) as u8)
    } else {
        None
    }
}

/// The number of 32 bits that a text stands for: decimal digits, with or
/// without a plus or minus sign before them, and nothing else.
pub open spec fn i32_of_text(text: Seq<char>) -> Option<i32> {
    let digits = unsigned_part(text, true);
    let value: int = if text.len() > 0 && text[0] == '-' {
        -(digits_value(digits) as int)
    } else {
        digits_value(digits) as int
    };
    if is_digits(digits) && i32::MIN <= value <= i32::MAX {
        Some(value as i32)
    } else {
        None
    }
}

/// Calls `str::parse::<u8>` of the standard library, which reads decimal
/// digits after an optional plus sign, and rejects every other text and
/// every number above 255.
#[verifier::external_body]
pub(crate) fn parse_u8(text: &str) -> (number: Option<u8>)
    ensures
        number == u8_of_text(text@),
{
    text.parse::<u8>().ok()
}

/// Calls `str::parse::<i32>` of the standard library, which reads decimal
/// digits after an optional plus or minus sign, and rejects every other
/// text and every number that 32 bits cannot hold.
#[verifier::external_body]
pub(crate) fn parse_i32(text: &str) -> (number: Option<i32>)
    ensures
        number == i32_of_text(text@),
{
    text.parse::<i32>().ok()
}

/// Lower-case form of one character, for ASCII capitals.
pub fn lower_char(c: char) -> (r: char)
    ensures
        r == ascii_lower(c),
{
    if 'A' <= c && c <= 'Z' {
        ((c as u8) + 32) as char
    } else {
        c
    }
}

/// Tests whether `s` starts with `prefix`.
pub fn starts_with(s: &str, prefix: &str) -> (r: bool)
    ensures
        r == has_prefix(s@, prefix@),
{
    let n: usize = s.unicode_len();
    let m: usize = prefix.unicode_len();
    if n < m {
        return false;
    }
    let mut i: usize = 0;
    while i < m
        invariant
            i <= m <= n,
            n == s@.len(),
            m == prefix@.len(),
            forall|j: int| 0 <= j < i ==> s@[j] == prefix@[j],
        decreases m - i,
    {
        if s.get_char(i) != prefix.get_char(i) {
            assert(s@.subrange(0, m as int)[i as int] != prefix@[i as int]);
            return false;
        }
        i += 1;
    }
    assert(s@.subrange(0, m as int) =~= prefix@);
    true
}

/// Tests whether no string occurs twice among `strings`.
pub fn all_distinct(strings: &Vec<String>) -> (distinct: bool)
    ensures
        distinct == views(strings@).no_duplicates(),
{
    let ghost all = views(strings@);
    let mut i: usize = 0;
    while i < strings.len()
        invariant
            i <= strings.len(),
            all == views(strings@),
            forall|a: int, b: int| 0 <= a < b < i ==> all[a] != all[b],
        decreases strings.len() - i,
    {
        let mut j: usize = 0;
        while j < i
            invariant
                j <= i < strings.len(),
                all == views(strings@),
                forall|a: int| 0 <= a < j ==> all[a] != all[i as int],
            decreases i - j,
        {
            if strings[j].as_str().eq(strings[i].as_str()) {
                assert(all[j as int] == all[i as int]);
                return false;
            }
            j += 1;
        }
        i += 1;
    }
    true
}

/// The first of each pair, as characters.
pub open spec fn keys_of_pairs<T>(pairs: Seq<(String, T)>) -> Seq<Seq<char>> {
    Seq::new(pairs.len(), |i: int| pairs[i].0@)
}

/// Tests whether no two pairs have the same first.
pub fn distinct_keys<T>(pairs: &Vec<(String, T)>) -> (distinct: bool)
    ensures
        distinct == keys_of_pairs(pairs@).no_duplicates(),
{
    let ghost all = keys_of_pairs(pairs@);
    let mut i: usize = 0;
    while i < pairs.len()
        invariant
            i <= pairs.len(),
            all == keys_of_pairs(pairs@),
            forall|a: int, b: int| 0 <= a < b < i ==> all[a] != all[b],
        decreases pairs.len() - i,
    {
        let mut j: usize = 0;
        while j < i
            invariant
                j <= i < pairs.len(),
                all == keys_of_pairs(pairs@),
                forall|a: int| 0 <= a < j ==> all[a] != all[i as int],
            decreases i - j,
        {
            if pairs[j].0.as_str().eq(pairs[i].0.as_str()) {
                assert(all[j as int] == all[i as int]);
                return false;
            }
            j += 1;
        }
        i += 1;
    }
    true
}

/// Tests whether one of `strings` holds the characters of `s`.
pub fn contains_str(strings: &Vec<String>, s: &str) -> (found: bool)
    ensures
        found == views(strings@).contains(s@),
{
    let mut i: usize = 0;
    while i < strings.len()
        invariant
            i <= strings.len(),
            forall|j: int| 0 <= j < i ==> strings@[j]@ != s@,
        decreases strings.len() - i,
    {
        if strings[i].as_str().eq(s) {
            assert(views(strings@)[i as int] == s@);
            return true;
        }
        i += 1;
    }
    false
}

/// `s` with each occurrence of `quote` doubled.
pub open spec fn doubled(s: Seq<char>, quote: char) -> Seq<char>
    decreases s.len(),
{
    if s.len() == 0 {
        Seq::empty()
    } else if s.last() == quote {
        doubled(s.drop_last(), quote).push(quote).push(quote)
    } else {
        doubled(s.drop_last(), quote).push(s.last())
    }
}

/// `s` between two `quote` characters, each `quote` inside it doubled. With
/// `"` this is how SQL writes an identifier, with `'` how it writes a text.
pub open spec fn quoted(s: Seq<char>, quote: char) -> Seq<char> {
    seq![quote] + doubled(s, quote) + seq![quote]
}

/// Decimal notation of `i`, with a minus sign where it is negative.
pub open spec fn signed_decimal(i: int) -> Seq<char> {
    if i < 0 {
        seq!['-'] + decimal((-i) as nat)
    } else {
        decimal(i as nat)
    }
}

/// Appends `s` to `out`, between two `quote` characters and with each
/// `quote` inside it doubled.
pub fn push_quoted(out: &mut String, s: &str, quote: char)
    ensures
        final(out)@ == old(out)@ + quoted(s@, quote),
{
    let ghost before = out@;
    out.push(quote);
    let n: usize = s.unicode_len();
    let mut i: usize = 0;
    assert(s@.take(0) =~= Seq::<char>::empty());
    while i < n
        invariant
            i <= n,
            n == s@.len(),
            out@ == before.push(quote) + doubled(s@.take(i as int), quote),
        decreases n - i,
    {
        let c: char = s.get_char(i);
        proof {
            let next = s@.take(i + 1);
            assert(next.drop_last() =~= s@.take(i as int));
            assert(next.last() == c);
        }
        let ghost so_far = doubled(s@.take(i as int), quote);
        if c == quote {
            out.push(quote);
            out.push(quote);
            assert(out@ =~= before.push(quote) + so_far.push(quote).push(quote));
        } else {
            out.push(c);
            assert(out@ =~= before.push(quote) + so_far.push(c));
        }
        i += 1;
    }
    assert(s@.take(n as int) =~= s@);
    out.push(quote);
    assert(out@ =~= before + quoted(s@, quote));
}

/// Appends the decimal notation of `i` to `out`.
pub fn push_signed_decimal(out: &mut String, i: i64)
    ensures
        final(out)@ == old(out)@ + signed_decimal(i as int),
{
    let ghost before = out@;
    if i < 0 {
        out.push('-');
        let magnitude: u128 = (-(i as i128)) as u128;
        push_decimal(out, magnitude);
        assert(out@ =~= before + signed_decimal(i as int));
    } else {
        push_decimal(out, i as u128);
    }
}

/// Appends the decimal notation of `n` to `out`.
pub fn push_decimal(out: &mut String, n: u128)
    ensures
        final(out)@ == old(out)@ + decimal(n as nat),
    decreases n,
{
    if n >= 10 {
        push_decimal(out, n / 10);
    }
    let d: u8 = (n % 10) as u8;
    out.push((48u8 + d) as char);
    assert(final(out)@ =~= old(out)@ + decimal(n as nat));
}

} // verus!
