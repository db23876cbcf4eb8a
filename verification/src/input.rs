use crate::error::{Error, FormatFault};
use vstd::prelude::*;

verus! {

/// The characters with the Unicode property `White_Space`.
pub open spec fn is_whitespace(c: char) -> bool {
    let u = c as u32;
    ||| 0x09 <= u <= 0x0D
    ||| u == 0x20
    ||| u == 0x85
    ||| u == 0xA0
    ||| u == 0x1680
    ||| 0x2000 <= u <= 0x200A
    ||| u == 0x2028
    ||| u == 0x2029
    ||| u == 0x202F
    ||| u == 0x205F
    ||| u == 0x3000
}

/// `s` without its whitespace characters, the others in their order.
pub open spec fn without_whitespace(s: Seq<char>) -> Seq<char>
    decreases s.len(),
{
    if s.len() == 0 {
        Seq::empty()
    } else if is_whitespace(s.last()) {
        without_whitespace(s.drop_last())
    } else {
        without_whitespace(s.drop_last()).push(s.last())
    }
}

/// `s` without one leading `0x`, if it has one.
pub open spec fn without_hex_prefix(s: Seq<char>) -> Seq<char> {
    if s.len() >= 2 && s[0] == '0' && s[1] == 'x' {
        s.subrange(2, s.len() as int)
    } else {
        s
    }
}

/// The characters of a payload that are read as digits: all but the
/// whitespace and one leading `0x`.
pub open spec fn payload_digits(text: Seq<char>) -> Seq<char> {
    without_hex_prefix(without_whitespace(text))
}

/// Whether a character is one of the digits `0` to `9`, `a` to `f` and `A` to `F`.
pub open spec fn is_hex_digit(c: char) -> bool {
    ||| '0' <= c <= '9'
    ||| 'a' <= c <= 'f'
    ||| 'A' <= c <= 'F'
}

/// The value of a hexadecimal digit; 0 for any other character.
pub open spec fn hex_value(c: char) -> int {
    if '0' <= c <= '9' {
        c as u32 - 0x30
    } else if 'a' <= c <= 'f' {
        c as u32 - 0x61 + 10
    } else if 'A' <= c <= 'F' {
        c as u32 - 0x41 + 10
    } else {
        0
    }
}

/// The `i`-th group of eight digits.
pub open spec fn word_chars(digits: Seq<char>, i: int) -> Seq<char> {
    digits.subrange(8 * i, 8 * i + 8)
}

/// Whether eight characters are a hexadecimal word: eight hexadecimal
/// digits, and nothing else. A sign is no digit.
pub open spec fn word_ok(w: Seq<char>) -> bool {
    &&& w.len() == 8
    &&& is_hex_digit(w[0])
    &&& is_hex_digit(w[1])
    &&& is_hex_digit(w[2])
    &&& is_hex_digit(w[3])
    &&& is_hex_digit(w[4])
    &&& is_hex_digit(w[5])
    &&& is_hex_digit(w[6])
    &&& is_hex_digit(w[7])
}

/// The number that a hexadecimal word stands for, most significant digit first.
pub open spec fn word_value(w: Seq<char>) -> int {
    hex_value(w[0]) * 0x1000_0000 + hex_value(w[1]) * 0x100_0000 + hex_value(w[2]) * 0x10_0000
        + hex_value(w[3]) * 0x1_0000 + hex_value(w[4]) * 0x1000 + hex_value(w[5]) * 0x100
        + hex_value(w[6]) * 0x10 + hex_value(w[7])
}

/// Whether the first `n` groups of eight digits are hexadecimal words.
pub open spec fn words_ok(digits: Seq<char>, n: int) -> bool {
    forall|i: int| 0 <= i < n ==> word_ok(#[trigger] word_chars(digits, i))
}

/// Whether a payload is accepted: its digits come in groups of eight, each a
/// hexadecimal word.
pub open spec fn payload_accepted(text: Seq<char>) -> bool {
    let digits = payload_digits(text);
    digits.len() % 8 == 0 && words_ok(digits, digits.len() as int / 8)
}

/// The words that digits in groups of eight stand for, in their order.
pub open spec fn words_of(digits: Seq<char>) -> Seq<u32> {
    Seq::new((digits.len() / 8) as nat, |i: int| word_value(word_chars(digits, i)) as u32)
}

/// The words of an accepted payload, in the order of the text.
pub open spec fn payload_words(text: Seq<char>) -> Seq<u32> {
    words_of(payload_digits(text))
}

/// What `parse_input_words` answers for a payload.
pub open spec fn parse_outcome(text: Seq<char>, result: Result<Seq<u32>, Error>) -> bool {
    let digits = payload_digits(text);
    match result {
        Ok(words) => payload_accepted(text) && words == payload_words(text),
        Err(Error::InvalidFormat(FormatFault::Length { digits: n })) => {
            n == digits.len() && digits.len() % 8 != 0
        },
        Err(Error::InvalidFormat(FormatFault::Word { index })) => {
            &&& digits.len() % 8 == 0
            &&& index < digits.len() / 8
            &&& !word_ok(word_chars(digits, index as int))
            &&& words_ok(digits, index as int)
        },
        Err(_) => false,
    }
}

/// The lower-case hexadecimal digit of a value below sixteen.
pub open spec fn hex_char(v: int) -> char {
    if v < 10 {
        (0x30 + v) as char
    } else {
        (0x61 + v - 10) as char
    }
}

/// A word written as eight lower-case hexadecimal digits, most significant first.
pub open spec fn word_text(w: u32) -> Seq<char> {
    seq![
        hex_char(w as int / 0x1000_0000 % 16),
        hex_char(w as int / 0x100_0000 % 16),
        hex_char(w as int / 0x10_0000 % 16),
        hex_char(w as int / 0x1_0000 % 16),
        hex_char(w as int / 0x1000 % 16),
        hex_char(w as int / 0x100 % 16),
        hex_char(w as int / 0x10 % 16),
        hex_char(w as int % 16),
    ]
}

/// A sequence of words written as hexadecimal text, eight digits a word.
pub open spec fn words_text(words: Seq<u32>) -> Seq<char> {
    Seq::new(8 * words.len(), |i: int| word_text(words[i / 8])[i % 8])
}

/// The lower-case letter of an upper-case ASCII letter; any other character
/// as it is.
pub open spec fn lower_case(c: char) -> char {
    if 'A' <= c <= 'Z' {
        (c as u32 + 0x20) as char
    } else {
        c
    }
}

/// `s` with its upper-case ASCII letters replaced by the lower-case ones.
pub open spec fn lower_cased(s: Seq<char>) -> Seq<char> {
    Seq::new(s.len(), |i: int| lower_case(s[i]))
}

proof fn lemma_hex_char_of_value(c: char)
    requires
        is_hex_digit(c),
    ensures
        0 <= hex_value(c) < 16,
        hex_char(hex_value(c)) == lower_case(c),
{
}

/// The base-sixteen digits of a number are the ones it was put together from.
proof fn lemma_base16_digits(a: int, b: int, c: int, d: int, e: int, f: int, g: int, h: int)
    requires
        0 <= a < 16,
        0 <= b < 16,
        0 <= c < 16,
        0 <= d < 16,
        0 <= e < 16,
        0 <= f < 16,
        0 <= g < 16,
        0 <= h < 16,
    ensures
        ({
            let v = a * 0x1000_0000 + b * 0x100_0000 + c * 0x10_0000 + d * 0x1_0000 + e * 0x1000
                + f * 0x100 + g * 0x10 + h;
            &&& 0 <= v <= u32::MAX
            &&& v / 0x1000_0000 % 16 == a
            &&& v / 0x100_0000 % 16 == b
            &&& v / 0x10_0000 % 16 == c
            &&& v / 0x1_0000 % 16 == d
            &&& v / 0x1000 % 16 == e
            &&& v / 0x100 % 16 == f
            &&& v / 0x10 % 16 == g
            &&& v % 16 == h
        }),
{
    let v = a * 0x1000_0000 + b * 0x100_0000 + c * 0x10_0000 + d * 0x1_0000 + e * 0x1000 + f
        * 0x100 + g * 0x10 + h;
    assert(v / 0x1000_0000 == a);
    assert(v / 0x100_0000 == a * 0x10 + b);
    assert(v / 0x10_0000 == a * 0x100 + b * 0x10 + c);
    assert(v / 0x1_0000 == a * 0x1000 + b * 0x100 + c * 0x10 + d);
    assert(v / 0x1000 == a * 0x1_0000 + b * 0x1000 + c * 0x100 + d * 0x10 + e);
    assert(v / 0x100 == a * 0x10_0000 + b * 0x1_0000 + c * 0x1000 + d * 0x100 + e * 0x10 + f);
    assert(v / 0x10 == a * 0x100_0000 + b * 0x10_0000 + c * 0x1_0000 + d * 0x1000 + e * 0x100 + f
        * 0x10 + g);
}

proof fn lemma_word_round_trip(w: Seq<char>)
    requires
        word_ok(w),
    ensures
        0 <= word_value(w) <= u32::MAX,
        word_text(word_value(w) as u32) == lower_cased(w),
{
    lemma_hex_char_of_value(w[0]);
    lemma_hex_char_of_value(w[1]);
    lemma_hex_char_of_value(w[2]);
    lemma_hex_char_of_value(w[3]);
    lemma_hex_char_of_value(w[4]);
    lemma_hex_char_of_value(w[5]);
    lemma_hex_char_of_value(w[6]);
    lemma_hex_char_of_value(w[7]);
    lemma_base16_digits(
        hex_value(w[0]),
        hex_value(w[1]),
        hex_value(w[2]),
        hex_value(w[3]),
        hex_value(w[4]),
        hex_value(w[5]),
        hex_value(w[6]),
        hex_value(w[7]),
    );
    assert(word_text(word_value(w) as u32) =~= lower_cased(w));
}

/// The `j`-th group of eight hexadecimal digits is a word.
proof fn lemma_word_at(digits: Seq<char>, j: int)
    requires
        0 <= j,
        8 * j + 8 <= digits.len(),
        forall|i: int| 0 <= i < digits.len() ==> is_hex_digit(#[trigger] digits[i]),
    ensures
        word_ok(word_chars(digits, j)),
{
    let w = word_chars(digits, j);
    assert(w[0] == digits[8 * j] && w[1] == digits[8 * j + 1] && w[2] == digits[8 * j + 2] && w[3]
        == digits[8 * j + 3]);
    assert(w[4] == digits[8 * j + 4] && w[5] == digits[8 * j + 5] && w[6] == digits[8 * j + 6]
        && w[7] == digits[8 * j + 7]);
}

/// The word that the `i`-th digit lies in, written out again, has the digit
/// at its place, in lower case.
proof fn lemma_digit_at(digits: Seq<char>, i: int)
    requires
        digits.len() % 8 == 0,
        0 <= i < digits.len(),
        forall|i: int| 0 <= i < digits.len() ==> is_hex_digit(#[trigger] digits[i]),
    ensures
        word_text(word_value(word_chars(digits, i / 8)) as u32)[i % 8] == lower_case(digits[i]),
{
    let j = i / 8;
    let k = i % 8;
    let w = word_chars(digits, j);
    lemma_word_at(digits, j);
    lemma_word_round_trip(w);
    assert(lower_cased(w)[k] == lower_case(w[k]));
    assert(w[k] == digits[8 * j + k]);
}

/// Hexadecimal digits in groups of eight are words.
proof fn lemma_digits_are_words(digits: Seq<char>)
    requires
        digits.len() % 8 == 0,
        forall|i: int| 0 <= i < digits.len() ==> is_hex_digit(#[trigger] digits[i]),
    ensures
        words_ok(digits, digits.len() as int / 8),
{
    assert forall|j: int| 0 <= j < digits.len() as int / 8 implies word_ok(
        #[trigger] word_chars(digits, j),
    ) by {
        lemma_word_at(digits, j);
    }
}

/// Hexadecimal digits in groups of eight, read as words and written out
/// again, give the digits back in lower case.
proof fn lemma_digits_round_trip(digits: Seq<char>)
    requires
        digits.len() % 8 == 0,
        forall|i: int| 0 <= i < digits.len() ==> is_hex_digit(#[trigger] digits[i]),
    ensures
        words_text(words_of(digits)) == lower_cased(digits),
{
    let written = words_text(words_of(digits));
    assert(written.len() == digits.len());
    assert forall|i: int| 0 <= i < digits.len() implies written[i] == lower_cased(digits)[i] by {
        lemma_digit_at(digits, i);
        assert(0 <= i / 8 < digits.len() / 8);
        assert(words_of(digits)[i / 8] == word_value(word_chars(digits, i / 8)) as u32);
    }
    assert(written =~= lower_cased(digits));
}

/// Reading a payload made of hexadecimal digits only, in groups of eight, and
/// writing the words out again as hexadecimal text gives the digits back, in
/// lower case.
pub proof fn lemma_parse_then_write(text: Seq<char>)
    requires
        payload_digits(text).len() % 8 == 0,
        forall|i: int|
            0 <= i < payload_digits(text).len() ==> is_hex_digit(#[trigger] payload_digits(text)[i]),
    ensures
        payload_accepted(text),
        words_text(payload_words(text)) == lower_cased(payload_digits(text)),
{
    lemma_digits_are_words(payload_digits(text));
    lemma_digits_round_trip(payload_digits(text));
}

/// A payload is accepted exactly when its digits come in a multiple of eight
/// and each of them is a hexadecimal digit: it is refused for its length or
/// for a character, and for nothing else.
pub proof fn lemma_accepted_iff_hex_digits(text: Seq<char>)
    ensures
        payload_accepted(text) <==> (payload_digits(text).len() % 8 == 0 && forall|i: int|
            0 <= i < payload_digits(text).len() ==> is_hex_digit(#[trigger] payload_digits(text)[i])),
{
    let digits = payload_digits(text);
    if payload_accepted(text) {
        assert forall|i: int| 0 <= i < digits.len() implies is_hex_digit(#[trigger] digits[i]) by {
            let w = word_chars(digits, i / 8);
            assert(word_ok(w));
            assert(w[i % 8] == digits[8 * (i / 8) + i % 8]);
            assert(0 <= i % 8 < 8);
        }
    }
    if digits.len() % 8 == 0 && (forall|i: int|
        0 <= i < digits.len() ==> is_hex_digit(#[trigger] digits[i])) {
        lemma_parse_then_write(text);
    }
}

/// Whether a character is whitespace, as `char::is_whitespace` has it.
pub fn is_whitespace_char(c: char) -> (b: bool)
    ensures
        b == is_whitespace(c),
{
    let u: u32 = c as u32;
    (0x09 <= u && u <= 0x0D) || u == 0x20 || u == 0x85 || u == 0xA0 || u == 0x1680 || (0x2000 <= u
        && u <= 0x200A) || u == 0x2028 || u == 0x2029 || u == 0x202F || u == 0x205F || u == 0x3000
}

/// The value of a hexadecimal digit, or 16 for any other character.
fn hex_digit(c: char) -> (v: u32)
    ensures
        is_hex_digit(c) ==> v == hex_value(c) && v < 16,
        !is_hex_digit(c) ==> v == 16,
{
    let u: u32 = c as u32;
    if 0x30 <= u && u <= 0x39 {
        u - 0x30
    } else if 0x61 <= u && u <= 0x66 {
        u - 0x61 + 10
    } else if 0x41 <= u && u <= 0x46 {
        u - 0x41 + 10
    } else {
        16
    }
}

/// Reads the eight characters from `start` on as one word.
fn parse_word(digits: &Vec<char>, start: usize) -> (r: Option<u32>)
    requires
        start + 8 <= digits.len(),
    ensures
        r is Some <==> word_ok(digits@.subrange(start as int, start + 8)),
        r matches Some(v) ==> v == word_value(digits@.subrange(start as int, start + 8)),
{
    let ghost w = digits@.subrange(start as int, start + 8);
    assert(forall|k: int| 0 <= k < 8 ==> w[k] == digits@[start + k]);
    let h0: u32 = hex_digit(digits[start]);
    let h1: u32 = hex_digit(digits[start + 1]);
    let h2: u32 = hex_digit(digits[start + 2]);
    let h3: u32 = hex_digit(digits[start + 3]);
    let h4: u32 = hex_digit(digits[start + 4]);
    let h5: u32 = hex_digit(digits[start + 5]);
    let h6: u32 = hex_digit(digits[start + 6]);
    let h7: u32 = hex_digit(digits[start + 7]);
    if h0 >= 16 || h1 >= 16 || h2 >= 16 || h3 >= 16 || h4 >= 16 || h5 >= 16 || h6 >= 16 || h7
        >= 16 {
        assert(!word_ok(w)) by {
            if word_ok(w) {
                assert(is_hex_digit(w[0]) && is_hex_digit(w[1]) && is_hex_digit(w[2])
                    && is_hex_digit(w[3]) && is_hex_digit(w[4]) && is_hex_digit(w[5])
                    && is_hex_digit(w[6]) && is_hex_digit(w[7]));
            }
        }
        None
    } else {
        Some(
            h0 * 0x1000_0000 + h1 * 0x100_0000 + h2 * 0x10_0000 + h3 * 0x1_0000 + h4 * 0x1000 + h5
                * 0x100 + h6 * 0x10 + h7,
        )
    }
}

/// The characters of `text` that are not whitespace.
fn strip_whitespace(text: &str) -> (out: Vec<char>)
    ensures
        out@ == without_whitespace(text@),
{
    let mut out: Vec<char> = Vec::new();
    for c in it: text.chars()
        invariant
            it.seq() == text@,
            out@ == without_whitespace(text@.take(it.index())),
    {
        assert(text@.take(it.index() + 1).drop_last() == text@.take(it.index()));
        if !is_whitespace_char(c) {
            out.push(c);
        }
    }
    assert(text@.take(text@.len() as int) == text@);
    out
}

/// Reads a textual payload as a sequence of 32-bit words.
///
/// Whitespace anywhere in the text and one leading `0x` are ignored. What is
/// left is read in groups of eight characters, each a hexadecimal number with
/// its most significant digit first. A text with nothing left gives no words.
/// A text whose digits do not come in groups of eight, or with a group that is
/// no hexadecimal number, is refused; the error names the first such group.
pub fn parse_input_words(text: &str) -> (result: Result<Vec<u32>, Error>)
    ensures
        result is Ok <==> payload_accepted(text@),
        result matches Ok(words) ==> words@ == payload_words(text@),
        parse_outcome(
            text@,
            match result {
                Ok(words) => Ok(words@),
                Err(e) => Err(e),
            },
        ),
{
    let stripped = strip_whitespace(text);
    let len: usize = stripped.len();
    let start: usize = if len >= 2 && stripped[0] == '0' && stripped[1] == 'x' {
        2
    } else {
        0
    };
    let ghost digits = payload_digits(text@);
    assert(digits == stripped@.subrange(start as int, len as int));
    let count: usize = len - start;
    if count % 8 != 0 {
        return Err(Error::InvalidFormat(FormatFault::Length { digits: count }));
    }
    let total: usize = count / 8;
    let mut words: Vec<u32> = Vec::new();
    let mut i: usize = 0;
    while i < total
        invariant
            digits == stripped@.subrange(start as int, len as int),
            digits == payload_digits(text@),
            start <= len == stripped.len(),
            count == len - start,
            count % 8 == 0,
            total == count / 8,
            i <= total,
            words.len() == i,
            words_ok(digits, i as int),
            forall|j: int| 0 <= j < i ==> words[j] == word_value(word_chars(digits, j)) as u32,
        decreases total - i,
    {
        let at: usize = start + 8 * i;
        assert(stripped@.subrange(at as int, at + 8) == word_chars(digits, i as int));
        match parse_word(&stripped, at) {
            Some(word) => {
                words.push(word);
            },
            None => {
                return Err(Error::InvalidFormat(FormatFault::Word { index: i }));
            },
        }
        i += 1;
    }
    assert(words@ == payload_words(text@));
    Ok(words)
}

} // verus!
