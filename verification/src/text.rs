//! Text helpers: exact concatenation, comparison and search over `&str`, and
//! the decimal and hexadecimal text of numbers.

use vstd::prelude::*;
use vstd::string::*;
#[allow(unused_imports)]
use vstd::utf8::*;

verus! {

/// The lower-case hexadecimal digit for a value below sixteen.
pub open spec fn digit_char(d: int) -> char {
    if d == 0 { '0' } else if d == 1 { '1' } else if d == 2 { '2' } else if d == 3 { '3' }
    else if d == 4 { '4' } else if d == 5 { '5' } else if d == 6 { '6' } else if d == 7 { '7' }
    else if d == 8 { '8' } else if d == 9 { '9' } else if d == 10 { 'a' } else if d == 11 { 'b' }
    else if d == 12 { 'c' } else if d == 13 { 'd' } else if d == 14 { 'e' } else { 'f' }
}

/// The text of `n` in the given base, without leading zeros.
pub open spec fn number_text(n: nat, base: nat) -> Seq<char>
    decreases n,
{
    if n < base || base < 2 {
        seq![digit_char(n as int)]
    } else {
        proof {
            vstd::arithmetic::div_mod::lemma_div_decreases(n as int, base as int);
        }
        number_text(n / base, base).push(digit_char((n % base) as int))
    }
}

/// The decimal text of `n`.
pub open spec fn decimal_text(n: nat) -> Seq<char> {
    number_text(n, 10)
}

/// The lower-case hexadecimal text of `n`, without leading zeros or prefix.
pub open spec fn hex_number_text(n: nat) -> Seq<char> {
    number_text(n, 16)
}

/// The lower-case hexadecimal text of a byte sequence, two digits per byte.
pub open spec fn hex_text(bytes: Seq<u8>) -> Seq<char> {
    Seq::new(
        2 * bytes.len(),
        |i: int|
            if i % 2 == 0 {
                digit_char(bytes[i / 2] as int / 16)
            } else {
                digit_char(bytes[i / 2] as int % 16)
            },
    )
}

/// Whether a byte is an ASCII hexadecimal digit of either case.
pub open spec fn is_hex_digit(b: u8) -> bool {
    (0x30 <= b <= 0x39) || (0x61 <= b <= 0x66) || (0x41 <= b <= 0x46)
}

/// The value of an ASCII hexadecimal digit.
pub open spec fn hex_digit_value(b: u8) -> int {
    if b <= 0x39 {
        b - 0x30
    } else if b <= 0x46 {
        b - 0x41 + 10
    } else {
        b - 0x61 + 10
    }
}

/// Whether every byte is a hexadecimal digit.
pub open spec fn all_hex_digits(bytes: Seq<u8>) -> bool {
    forall|i: int| 0 <= i < bytes.len() ==> is_hex_digit(#[trigger] bytes[i])
}

/// The bytes that a run of hexadecimal digits spells, two digits per byte.
pub open spec fn hex_decoded(digits: Seq<u8>) -> Seq<u8> {
    Seq::new(
        digits.len() / 2,
        |i: int| (16 * hex_digit_value(digits[2 * i]) + hex_digit_value(digits[2 * i + 1])) as u8,
    )
}

/// The number that a run of hexadecimal digits spells, most significant first.
pub open spec fn hex_value(digits: Seq<u8>) -> nat
    decreases digits.len(),
{
    if digits.len() == 0 {
        0
    } else {
        (16 * hex_value(digits.drop_last()) + hex_digit_value(digits.last())) as nat
    }
}

/// Whether `needle` occurs in `hay` as a run of adjacent characters.
pub open spec fn is_substring(hay: Seq<char>, needle: Seq<char>) -> bool {
    exists|i: int| occurs_at(hay, needle, i)
}

/// Whether `needle` stands in `hay` at position `i`.
pub open spec fn occurs_at(hay: Seq<char>, needle: Seq<char>, i: int) -> bool {
    0 <= i && i + needle.len() <= hay.len() && hay.subrange(i, i + needle.len()) == needle
}

/// `s` without a leading `prefix`; `s` itself where it does not start so.
pub open spec fn without_prefix(s: Seq<char>, prefix: Seq<char>) -> Seq<char> {
    if prefix.is_prefix_of(s) {
        s.skip(prefix.len() as int)
    } else {
        s
    }
}

/// `s` without any number of leading repetitions of `prefix`.
pub open spec fn without_prefixes(s: Seq<char>, prefix: Seq<char>) -> Seq<char>
    decreases s.len(),
{
    if prefix.len() > 0 && prefix.is_prefix_of(s) {
        without_prefixes(s.skip(prefix.len() as int), prefix)
    } else {
        s
    }
}

/// Joins two texts.
pub fn concat2(a: &str, b: &str) -> (r: String)
    ensures
        r@ == a@ + b@,
{
    let mut out = String::from_str(a);
    out.append(b);
    out
}

/// Joins three texts.
pub fn concat3(a: &str, b: &str, c: &str) -> (r: String)
    ensures
        r@ == a@ + b@ + c@,
{
    let mut out = concat2(a, b);
    out.append(c);
    out
}

/// Joins four texts.
pub fn concat4(a: &str, b: &str, c: &str, d: &str) -> (r: String)
    ensures
        r@ == a@ + b@ + c@ + d@,
{
    let mut out = concat3(a, b, c);
    out.append(d);
    out
}

/// Joins five texts.
pub fn concat5(a: &str, b: &str, c: &str, d: &str, e: &str) -> (r: String)
    ensures
        r@ == a@ + b@ + c@ + d@ + e@,
{
    let mut out = concat4(a, b, c, d);
    out.append(e);
    out
}

/// Compares two texts character by character.
pub fn text_eq(a: &str, b: &str) -> (r: bool)
    ensures
        r == (a@ == b@),
{
    String::from_str(a) == String::from_str(b)
}

/// Whether `s` starts with `prefix`.
pub fn starts_with(s: &str, prefix: &str) -> (r: bool)
    ensures
        r == prefix@.is_prefix_of(s@),
{
    let n: usize = prefix.unicode_len();
    if s.unicode_len() < n {
        false
    } else {
        let head = s.substring_char(0, n);
        assert(head@ == s@.subrange(0, n as int));
        text_eq(head, prefix)
    }
}

/// The text behind the first `n` characters of `s`.
pub fn skip_chars<'a>(s: &'a str, n: usize) -> (r: &'a str)
    requires
        n <= s@.len(),
    ensures
        r@ == s@.skip(n as int),
{
    let r = s.substring_char(n, s.unicode_len());
    assert(r@ =~= s@.skip(n as int));
    r
}

/// Drops one leading `prefix`, if there is one.
pub fn strip_prefix<'a>(s: &'a str, prefix: &str) -> (r: &'a str)
    ensures
        r@ == without_prefix(s@, prefix@),
{
    if starts_with(s, prefix) {
        skip_chars(s, prefix.unicode_len())
    } else {
        s
    }
}

/// Drops every leading repetition of `prefix`.
pub fn trim_prefixes<'a>(s: &'a str, prefix: &str) -> (r: &'a str)
    requires
        prefix@.len() > 0,
    ensures
        r@ == without_prefixes(s@, prefix@),
    decreases s@.len(),
{
    if starts_with(s, prefix) {
        let rest = skip_chars(s, prefix.unicode_len());
        trim_prefixes(rest, prefix)
    } else {
        s
    }
}

/// The characters of a text.
pub fn chars_of(s: &str) -> (r: Vec<char>)
    ensures
        r@ == s@,
{
    let mut out: Vec<char> = Vec::new();
    for c in it: s.chars()
        invariant
            out@ == s@.take(it.index() as int),
            it.seq() == s@,
    {
        out.push(c);
        assert(s@.take(it.index() + 1) =~= s@.take(it.index() as int).push(c));
    }
    assert(s@.take(s@.len() as int) =~= s@);
    out
}

/// Whether `needle` occurs anywhere in `hay`.
pub fn contains_text(hay: &str, needle: &str) -> (r: bool)
    ensures
        r == is_substring(hay@, needle@),
{
    let h = chars_of(hay);
    let n = chars_of(needle);
    if n.len() > h.len() {
        return false;
    }
    let last: usize = h.len() - n.len();
    let mut i: usize = 0;
    while i <= last
        invariant
            h@ == hay@,
            n@ == needle@,
            last == h.len() - n.len(),
            i <= last + 1,
            forall|k: int| 0 <= k < i ==> !occurs_at(hay@, needle@, k),
        decreases last + 1 - i,
    {
        let mut j: usize = 0;
        while j < n.len() && h[i + j] == n[j]
            invariant
                h@ == hay@,
                n@ == needle@,
                last == h.len() - n.len(),
                i <= last,
                j <= n.len(),
                forall|k: int| 0 <= k < j ==> h@[i + k] == n@[k],
            decreases n.len() - j,
        {
            j += 1;
        }
        if j == n.len() {
            assert(hay@.subrange(i as int, i + needle@.len()) =~= needle@);
            assert(occurs_at(hay@, needle@, i as int));
            return true;
        }
        assert(!occurs_at(hay@, needle@, i as int)) by {
            assert(hay@[i + j] != needle@[j as int]);
            if hay@.subrange(i as int, i + needle@.len()) == needle@ {
                assert(hay@.subrange(i as int, i + needle@.len())[j as int] == hay@[i + j]);
            }
        }
        if i == last {
            return false;
        }
        i += 1;
    }
    false
}

/// The one-character text of a digit below sixteen.
fn digit_text(d: u8) -> (r: &'static str)
    requires
        d < 16,
    ensures
        r@ == seq![digit_char(d as int)],
{
    proof {
        reveal_strlit("0");
        reveal_strlit("1");
        reveal_strlit("2");
        reveal_strlit("3");
        reveal_strlit("4");
        reveal_strlit("5");
        reveal_strlit("6");
        reveal_strlit("7");
        reveal_strlit("8");
        reveal_strlit("9");
        reveal_strlit("a");
        reveal_strlit("b");
        reveal_strlit("c");
        reveal_strlit("d");
        reveal_strlit("e");
        reveal_strlit("f");
    }
    match d {
        0 => "0",
        1 => "1",
        2 => "2",
        3 => "3",
        4 => "4",
        5 => "5",
        6 => "6",
        7 => "7",
        8 => "8",
        9 => "9",
        10 => "a",
        11 => "b",
        12 => "c",
        13 => "d",
        14 => "e",
        _ => "f",
    }
}

/// Writes a number in the given base.
fn number_string(n: u128, base: u128) -> (r: String)
    requires
        2 <= base <= 16,
    ensures
        r@ == number_text(n as nat, base as nat),
    decreases n,
{
    if n < base {
        String::from_str(digit_text(n as u8))
    } else {
        proof {
            vstd::arithmetic::div_mod::lemma_div_decreases(n as int, base as int);
            vstd::arithmetic::div_mod::lemma_mod_bound(n as int, base as int);
        }
        let mut out = number_string(n / base, base);
        out.append(digit_text((n % base) as u8));
        out
    }
}

/// Writes a number in decimal.
pub fn decimal(n: u128) -> (r: String)
    ensures
        r@ == decimal_text(n as nat),
{
    number_string(n, 10)
}

/// Writes a number in lower-case hexadecimal, without leading zeros or prefix.
pub fn hex_number(n: u128) -> (r: String)
    ensures
        r@ == hex_number_text(n as nat),
{
    number_string(n, 16)
}

/// The UTF-8 bytes of two joined texts are the joined bytes of the two.
pub proof fn encode_utf8_concat(a: Seq<char>, b: Seq<char>)
    ensures
        encode_utf8(a + b) == encode_utf8(a) + encode_utf8(b),
    decreases a.len(),
{
    if a.len() == 0 {
        assert(a + b =~= b);
    } else {
        encode_utf8_concat(a.drop_first(), b);
        assert((a + b).drop_first() =~= a.drop_first() + b);
    }
}

/// The hexadecimal text of a byte sequence is made of digits and spells that
/// byte sequence.
pub proof fn hex_text_round_trip(bytes: Seq<u8>)
    ensures
        encode_utf8(hex_text(bytes)).len() == 2 * bytes.len(),
        all_hex_digits(encode_utf8(hex_text(bytes))),
        hex_decoded(encode_utf8(hex_text(bytes))) == bytes,
{
    let chars = hex_text(bytes);
    assert(is_ascii_chars(chars));
    is_ascii_chars_encode_utf8(chars);
    let digits = encode_utf8(chars);
    assert forall|i: int| 0 <= i < digits.len() implies is_hex_digit(#[trigger] digits[i]) by {
        assert(digits[i] == chars[i] as u8);
    }
    assert forall|i: int| 0 <= i < bytes.len() implies hex_decoded(digits)[i] == bytes[i] by {
        assert(digits[2 * i] == chars[2 * i] as u8);
        assert(digits[2 * i + 1] == chars[2 * i + 1] as u8);
        assert((2 * i + 1) / 2 == i);
        assert(hex_digit_value(digits[2 * i]) == bytes[i] as int / 16);
        assert(hex_digit_value(digits[2 * i + 1]) == bytes[i] as int % 16);
    }
    assert(hex_decoded(digits) =~= bytes);
}

/// The hexadecimal text of a number starts with a digit, is made of digits,
/// fits as many digits as the number does, and spells the number.
pub proof fn hex_number_text_round_trip(n: nat, digits: nat)
    requires
        digits > 0,
        n < vstd::arithmetic::power::pow(16, digits),
    ensures
        1 <= encode_utf8(hex_number_text(n)).len() <= digits,
        encode_utf8(hex_number_text(n)).len() == hex_number_text(n).len(),
        all_hex_digits(encode_utf8(hex_number_text(n))),
        hex_value(encode_utf8(hex_number_text(n))) == n,
        forall|i: int|
            0 <= i < hex_number_text(n).len() ==> #[trigger] hex_number_text(n)[i] != 'x'
                && hex_number_text(n)[i] != 'X',
    decreases n,
{
    reveal_with_fuel(vstd::arithmetic::power::pow, 2);
    let last = seq![digit_char((n % 16) as int)];
    assert(is_ascii_chars(last));
    is_ascii_chars_encode_utf8(last);
    let last_byte = encode_utf8(last);
    assert(last_byte.len() == 1 && last_byte[0] == last[0] as u8);
    assert(is_hex_digit(last_byte[0]));
    assert(hex_digit_value(last_byte[0]) == n % 16);
    if n < 16 {
        assert(hex_number_text(n) =~= last);
        assert(last_byte.drop_last() =~= Seq::<u8>::empty());
        assert(hex_value(last_byte.drop_last()) == 0);
    } else {
        vstd::arithmetic::div_mod::lemma_div_decreases(n as int, 16);
        assert(digits > 1) by {
            if digits == 1 {
                assert(vstd::arithmetic::power::pow(16, 0) == 1);
            }
        }
        let power = vstd::arithmetic::power::pow(16, (digits - 1) as nat);
        assert(n < 16 * power);
        assert(n / 16 < power);
        hex_number_text_round_trip(n / 16, (digits - 1) as nat);
        let head = hex_number_text(n / 16);
        assert(hex_number_text(n) =~= head + last);
        encode_utf8_concat(head, last);
        let all = encode_utf8(head) + last_byte;
        assert(all.drop_last() =~= encode_utf8(head));
        assert(all.last() == last_byte[0]);
    }
}

/// The number that a run of decimal digits spells, most significant first.
pub open spec fn decimal_value(digits: Seq<char>) -> nat
    decreases digits.len(),
{
    if digits.len() == 0 {
        0
    } else {
        (10 * decimal_value(digits.drop_last()) + (digits.last() as int - '0' as int)) as nat
    }
}

/// The decimal text of a number spells that number, in decimal digits and without
/// leading zeros.
pub proof fn decimal_text_round_trip(n: nat)
    ensures
        decimal_text(n).len() > 0,
        forall|i: int|
            0 <= i < decimal_text(n).len() ==> '0' <= #[trigger] decimal_text(n)[i]
                && decimal_text(n)[i] <= '9',
        decimal_value(decimal_text(n)) == n,
        n > 0 ==> decimal_text(n)[0] != '0',
    decreases n,
{
    let all = decimal_text(n);
    if n < 10 {
        assert(all.drop_last() =~= Seq::<char>::empty());
        assert(decimal_value(all.drop_last()) == 0);
    } else {
        vstd::arithmetic::div_mod::lemma_div_decreases(n as int, 10);
        decimal_text_round_trip(n / 10);
        let head = decimal_text(n / 10);
        assert(all == head.push(digit_char((n % 10) as int)));
        assert(all.drop_last() =~= head);
        assert(all[0] == head[0]);
        assert forall|i: int| 0 <= i < all.len() implies '0' <= #[trigger] all[i] && all[i]
            <= '9' by {
            if i < head.len() {
                assert(all[i] == head[i]);
            }
        }
    }
}

/// The hexadecimal text of a byte sequence is in lower case, and each byte stands
/// at its own place: its high digit first, then its low digit.
pub proof fn hex_text_is_in_order(bytes: Seq<u8>, i: int)
    requires
        0 <= i < bytes.len(),
    ensures
        hex_text(bytes).len() == 2 * bytes.len(),
        hex_text(bytes).subrange(2 * i, 2 * i + 2) == hex_text(seq![bytes[i]]),
        forall|j: int|
            0 <= j < hex_text(bytes).len() ==> ('0' <= #[trigger] hex_text(bytes)[j]
                && hex_text(bytes)[j] <= '9') || ('a' <= hex_text(bytes)[j] && hex_text(bytes)[j]
                <= 'f'),
{
    assert((2 * i + 1) / 2 == i);
    assert(hex_text(bytes).subrange(2 * i, 2 * i + 2) =~= hex_text(seq![bytes[i]]));
}

/// The hexadecimal text of a number is in lower case and has no leading zeros.
pub proof fn hex_number_text_is_short(n: nat)
    ensures
        hex_number_text(n).len() > 0,
        forall|i: int|
            0 <= i < hex_number_text(n).len() ==> ('0' <= #[trigger] hex_number_text(n)[i]
                && hex_number_text(n)[i] <= '9') || ('a' <= hex_number_text(n)[i]
                && hex_number_text(n)[i] <= 'f'),
        n > 0 ==> hex_number_text(n)[0] != '0',
    decreases n,
{
    if n >= 16 {
        vstd::arithmetic::div_mod::lemma_div_decreases(n as int, 16);
        hex_number_text_is_short(n / 16);
        let head = hex_number_text(n / 16);
        let all = hex_number_text(n);
        assert(all == head.push(digit_char((n % 16) as int)));
        assert(all[0] == head[0]);
        assert forall|i: int| 0 <= i < all.len() implies ('0' <= #[trigger] all[i] && all[i]
            <= '9') || ('a' <= all[i] && all[i] <= 'f') by {
            if i < head.len() {
                assert(all[i] == head[i]);
            }
        }
    }
}

/// A byte is a hexadecimal digit exactly where it is a decimal digit or one of
/// the letters from `a` to `f`, small or capital, and the case of a letter does
/// not change its value.
pub proof fn hex_digits_have_two_cases(b: u8)
    ensures
        is_hex_digit(b) <==> ('0' as u8 <= b <= '9' as u8) || ('a' as u8 <= b <= 'f' as u8) || (
        'A' as u8 <= b <= 'F' as u8),
        '0' as u8 <= b <= '9' as u8 ==> hex_digit_value(b) == b - '0' as u8,
        'a' as u8 <= b <= 'f' as u8 ==> hex_digit_value(b) == b - 'a' as u8 + 10
            && hex_digit_value((b - 0x20) as u8) == hex_digit_value(b),
{
}

/// Dropping one prefix undoes joining it on, and leaves a text without it alone.
pub proof fn dropping_a_prefix_undoes_joining_it(prefix: Seq<char>, rest: Seq<char>, s: Seq<char>)
    ensures
        without_prefix(prefix + rest, prefix) == rest,
        !prefix.is_prefix_of(s) ==> without_prefix(s, prefix) == s,
        prefix.is_prefix_of(s) ==> s == prefix + without_prefix(s, prefix),
{
    assert((prefix + rest).subrange(0, prefix.len() as int) =~= prefix);
    assert((prefix + rest).skip(prefix.len() as int) =~= rest);
    if prefix.is_prefix_of(s) {
        assert(s =~= s.subrange(0, prefix.len() as int) + s.skip(prefix.len() as int));
    }
}

/// Dropping every leading repetition of a prefix leaves none: the result does not
/// start with it, and joining the prefix on once more changes nothing.
pub proof fn dropped_prefixes_do_not_matter(s: Seq<char>, prefix: Seq<char>)
    requires
        prefix.len() > 0,
    ensures
        !prefix.is_prefix_of(without_prefixes(s, prefix)),
        without_prefixes(prefix + s, prefix) == without_prefixes(s, prefix),
        !prefix.is_prefix_of(s) ==> without_prefixes(s, prefix) == s,
    decreases s.len(),
{
    assert((prefix + s).subrange(0, prefix.len() as int) =~= prefix);
    assert((prefix + s).skip(prefix.len() as int) =~= s);
    if prefix.is_prefix_of(s) {
        dropped_prefixes_do_not_matter(s.skip(prefix.len() as int), prefix);
    }
}

/// A text occurs in every text that has it in the middle, and in no text that
/// cannot be split around it.
pub proof fn occurrences_split_a_text(
    before: Seq<char>,
    needle: Seq<char>,
    after: Seq<char>,
    hay: Seq<char>,
)
    ensures
        is_substring(before + needle + after, needle),
        is_substring(hay, needle) ==> exists|a: Seq<char>, b: Seq<char>|
            hay == #[trigger] (a + needle + b),
{
    let joined = before + needle + after;
    assert(joined.subrange(before.len() as int, (before.len() + needle.len()) as int) =~= needle);
    assert(occurs_at(joined, needle, before.len() as int));
    if is_substring(hay, needle) {
        let i = choose|i: int| occurs_at(hay, needle, i);
        let a = hay.take(i);
        let b = hay.skip(i + needle.len());
        assert(hay =~= a + needle + b);
    }
}

/// Decoding looks at the values of digits only: runs of digits that agree in the
/// value of each, such as capital and small letters, spell the same bytes and the
/// same number.
pub proof fn digits_of_equal_value_spell_the_same(a: Seq<u8>, b: Seq<u8>)
    requires
        a.len() == b.len(),
        forall|i: int|
            0 <= i < a.len() ==> hex_digit_value(#[trigger] a[i]) == hex_digit_value(b[i]),
    ensures
        hex_decoded(a) == hex_decoded(b),
        hex_value(a) == hex_value(b),
    decreases a.len(),
{
    assert forall|i: int| 0 <= i < a.len() / 2 implies hex_decoded(a)[i] == hex_decoded(b)[i] by {
        assert(hex_digit_value(a[2 * i]) == hex_digit_value(b[2 * i]));
        assert(hex_digit_value(a[2 * i + 1]) == hex_digit_value(b[2 * i + 1]));
    }
    assert(hex_decoded(a) =~= hex_decoded(b));
    if a.len() > 0 {
        assert forall|i: int| 0 <= i < a.drop_last().len() implies hex_digit_value(
            #[trigger] a.drop_last()[i],
        ) == hex_digit_value(b.drop_last()[i]) by {
            assert(a.drop_last()[i] == a[i] && b.drop_last()[i] == b[i]);
        }
        digits_of_equal_value_spell_the_same(a.drop_last(), b.drop_last());
        assert(a.last() == a[a.len() - 1]);
    }
}

/// A zero in front of a run of digits does not change the number that it spells.
pub proof fn leading_zeros_do_not_count(digits: Seq<u8>)
    ensures
        hex_value(seq!['0' as u8] + digits) == hex_value(digits),
    decreases digits.len(),
{
    let all = seq!['0' as u8] + digits;
    if digits.len() == 0 {
        assert(all.drop_last() =~= Seq::<u8>::empty());
        assert(hex_value(all.drop_last()) == 0);
    } else {
        leading_zeros_do_not_count(digits.drop_last());
        assert(all.drop_last() =~= seq!['0' as u8] + digits.drop_last());
        assert(all.last() == digits.last());
    }
}

} // verus!
