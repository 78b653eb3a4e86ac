//! Text: numbers in decimal and hexadecimal, trimming, and number parsing.
use vstd::prelude::*;

verus! {

/// The character that stands for the digit `d` of a base up to sixteen.
pub open spec fn digit_char(d: nat) -> char {
    if d < 10 {
        (48 + d) as char
    } else {
        (87 + d) as char
    }
}

/// `n` written in `base`, without leading zeros.
pub open spec fn digits(n: nat, base: nat) -> Seq<char>
    decreases n,
{
    if base < 2 || n < base {
        seq![digit_char(n)]
    } else {
        proof {
            vstd::arithmetic::div_mod::lemma_div_decreases(n as int, base as int);
        }
        digits(n / base, base).push(digit_char(n % base))
    }
}

/// `n` in decimal.
pub open spec fn decimal(n: nat) -> Seq<char> {
    digits(n, 10)
}

/// `n` in lower-case hexadecimal, without a prefix.
pub open spec fn hexadecimal(n: nat) -> Seq<char> {
    digits(n, 16)
}

/// `text` without the occurrences of `c` at its end.
pub open spec fn trim_end(text: Seq<char>, c: char) -> Seq<char>
    decreases text.len(),
{
    if text.len() > 0 && text.last() == c {
        trim_end(text.drop_last(), c)
    } else {
        text
    }
}

/// Whether `text` ends with `suffix`.
pub open spec fn ends_with(text: Seq<char>, suffix: Seq<char>) -> bool {
    text.len() >= suffix.len() && text.skip(text.len() - suffix.len()) == suffix
}

/// The text of one digit.
fn digit_text(d: u64) -> (text: &'static str)
    requires
        d < 16,
    ensures
        text@ == seq![digit_char(d as nat)],
{
    proof {
        reveal_strlit("0");
        reveal_strlit("1");
        reveal_strlit("2");
        reveal_strlit("3");
        reveal_strlit("4");
        reveal_strlit("5");
        reveal_strlit("6");
        reveal_strlit("7");
        reveal_strlit("8");
        reveal_strlit("9");
        reveal_strlit("a");
        reveal_strlit("b");
        reveal_strlit("c");
        reveal_strlit("d");
        reveal_strlit("e");
        reveal_strlit("f");
    }
    match d {
        0 => "0",
        1 => "1",
        2 => "2",
        3 => "3",
        4 => "4",
        5 => "5",
        6 => "6",
        7 => "7",
        8 => "8",
        9 => "9",
        10 => "a",
        11 => "b",
        12 => "c",
        13 => "d",
        14 => "e",
        _ => "f",
    }
}

/// `n` written in `base`.
fn digits_of(n: u64, base: u64) -> (text: String)
    requires
        2 <= base <= 16,
    ensures
        text@ == digits(n as nat, base as nat),
    decreases n,
{
    if n < base {
        digit_text(n).to_owned()
    } else {
        proof {
            vstd::arithmetic::div_mod::lemma_div_decreases(n as int, base as int);
        }
        let mut text = digits_of(n / base, base);
        text.append(digit_text(n % base));
        text
    }
}

/// `n` in decimal.
pub fn decimal_of(n: u64) -> (text: String)
    ensures
        text@ == decimal(n as nat),
{
    digits_of(n, 10)
}

/// `n` in lower-case hexadecimal, without a prefix.
pub fn hexadecimal_of(n: u64) -> (text: String)
    ensures
        text@ == hexadecimal(n as nat),
{
    digits_of(n, 16)
}

/// The concatenation of three texts.
pub fn join3(a: &str, b: &str, c: &str) -> (text: String)
    ensures
        text@ == a@ + b@ + c@,
{
    let mut text = a.to_owned();
    text.append(b);
    text.append(c);
    text
}

/// `text` without the slashes at its end.
pub fn trim_end_slashes(text: &str) -> (trimmed: String)
    ensures
        trimmed@ == trim_end(text@, '/'),
{
    let mut end: usize = text.unicode_len();
    assert(text@.take(end as int) =~= text@);
    while end > 0 && text.get_char(end - 1) == '/'
        invariant
            end <= text@.len(),
            trim_end(text@, '/') == trim_end(text@.take(end as int), '/'),
        decreases end,
    {
        assert(text@.take(end as int).drop_last() =~= text@.take(end - 1));
        end = end - 1;
    }
    text.substring_char(0, end).to_owned()
}

/// `text` without `suffix`, where it ends with it.
pub fn strip_suffix<'a>(text: &'a str, suffix: &str) -> (base: Option<&'a str>)
    ensures
        match base {
            Some(base) => ends_with(text@, suffix@) && base@ + suffix@ == text@,
            None => !ends_with(text@, suffix@),
        },
{
    let n: usize = text.unicode_len();
    let m: usize = suffix.unicode_len();
    if m > n {
        return None;
    }
    let tail = text.substring_char(n - m, n);
    assert(tail@ =~= text@.skip(n - m));
    if tail.to_owned() == suffix.to_owned() {
        let base = text.substring_char(0, n - m);
        assert(base@ + suffix@ =~= text@);
        Some(base)
    } else {
        None
    }
}

/// Whether `text` starts with `prefix`.
pub fn starts_with(text: &str, prefix: &str) -> (starts: bool)
    ensures
        starts == prefix@.is_prefix_of(text@),
{
    let n: usize = text.unicode_len();
    let m: usize = prefix.unicode_len();
    if m > n {
        return false;
    }
    let head = text.substring_char(0, m);
    assert(head@ =~= text@.subrange(0, m as int));
    head.to_owned() == prefix.to_owned()
}

/// Whether `c` is an ASCII digit.
pub open spec fn is_digit(c: char) -> bool {
    '0' <= c && c <= '9'
}

/// The number that a text of ASCII digits stands for in decimal.
pub open spec fn decimal_value(text: Seq<char>) -> nat
    decreases text.len(),
{
    if text.len() == 0 {
        0
    } else {
        decimal_value(text.drop_last()) * 10 + (text.last() as nat - 48) as nat
    }
}

/// `text` without a plus sign in front.
pub open spec fn without_plus(text: Seq<char>) -> Seq<char> {
    if text.len() > 0 && text[0] == '+' {
        text.skip(1)
    } else {
        text
    }
}

/// Whether `text` consists of one or more ASCII digits.
pub open spec fn is_digits(text: Seq<char>) -> bool {
    text.len() > 0 && forall|i: int| 0 <= i < text.len() ==> is_digit(#[trigger] text[i])
}

/// The number that `text` stands for: an optional `+` before one or more
/// digits, and no more than `max`.
pub open spec fn unsigned_value(text: Seq<char>, max: nat) -> Option<nat> {
    let number = without_plus(text);
    if is_digits(number) && decimal_value(number) <= max {
        Some(decimal_value(number))
    } else {
        None
    }
}

/// What the error of `str::parse::<u64>` on `text` reads, where there is one.
pub uninterp spec fn u64_parse_error(text: Seq<char>) -> Seq<char>;

/// What the error of `str::parse::<u16>` on `text` reads, where there is one.
pub uninterp spec fn u16_parse_error(text: Seq<char>) -> Seq<char>;

/// Calls `str::parse::<u64>`, which accepts an optional `+` sign followed by
/// digits only, and gives its error as text. Which of its messages comes is
/// named, not spelled out.
#[verifier::external_body]
pub(crate) fn parse_u64(text: &str) -> (number: Result<u64, String>)
    ensures
        match number {
            Ok(n) => unsigned_value(text@, u64::MAX as nat) == Some(n as nat),
            Err(reason) => unsigned_value(text@, u64::MAX as nat) is None && reason@
                == u64_parse_error(text@),
        },
{
    text.parse::<u64>().map_err(|e| e.to_string())
}

/// Calls `str::parse::<u16>`, which accepts an optional `+` sign followed by
/// digits only, and gives its error as text. Which of its messages comes is
/// named, not spelled out.
#[verifier::external_body]
pub(crate) fn parse_u16(text: &str) -> (number: Result<u16, String>)
    ensures
        match number {
            Ok(n) => unsigned_value(text@, u16::MAX as nat) == Some(n as nat),
            Err(reason) => unsigned_value(text@, u16::MAX as nat) is None && reason@
                == u16_parse_error(text@),
        },
{
    text.parse::<u16>().map_err(|e| e.to_string())
}

/// What `String::from_utf8_lossy` makes of `bytes` that are not UTF-8.
pub uninterp spec fn utf8_lossy(bytes: Seq<u8>) -> Seq<char>;

/// The text that `bytes` are read as: what they encode where they are UTF-8,
/// else what is left of them with replacement characters.
pub open spec fn text_of_bytes(bytes: Seq<u8>) -> Seq<char> {
    if vstd::utf8::valid_utf8(bytes) {
        vstd::utf8::decode_utf8(bytes)
    } else {
        utf8_lossy(bytes)
    }
}

/// Calls `String::from_utf8_lossy`: bytes that are UTF-8 give the text they
/// encode. What invalid bytes become is named, not spelled out.
#[verifier::external_body]
pub(crate) fn text_from_bytes(bytes: &[u8]) -> (text: String)
    ensures
        vstd::utf8::valid_utf8(bytes@) ==> text@ == vstd::utf8::decode_utf8(bytes@),
        !vstd::utf8::valid_utf8(bytes@) ==> text@ == utf8_lossy(bytes@),
{
    String::from_utf8_lossy(bytes).into_owned()
}

/// Every character of a decimal number is a digit, and its value is the number.
pub proof fn lemma_decimal_value(n: nat)
    ensures
        decimal(n).len() > 0,
        forall|i: int| 0 <= i < decimal(n).len() ==> is_digit(#[trigger] decimal(n)[i]),
        decimal_value(decimal(n)) == n,
    decreases n,
{
    if n >= 10 {
        let text = decimal(n);
        let front = decimal(n / 10);
        lemma_decimal_value(n / 10);
        assert(text == front.push(digit_char(n % 10)));
        assert(text.drop_last() =~= front);
        assert forall|i: int| 0 <= i < text.len() implies is_digit(#[trigger] text[i]) by {
            if i < front.len() {
                assert(text[i] == front[i]);
            }
        }
        assert(decimal_value(text) == decimal_value(front) * 10 + n % 10);
    } else {
        let text = decimal(n);
        assert(text == seq![digit_char(n)]);
        assert(text.drop_last() =~= Seq::<char>::empty());
        assert(decimal_value(text.drop_last()) == 0);
    }
}

/// A number below ten is one digit; any other is what its tenth reads, followed
/// by its last digit.
pub proof fn law_decimal_digits(n: nat)
    ensures
        n < 10 ==> decimal(n).len() == 1 && decimal(n)[0] as nat == 48 + n,
        n >= 10 ==> decimal(n).len() > 1 && decimal(n).drop_last() == decimal(n / 10)
            && decimal(n).last() as nat == 48 + n % 10,
{
    lemma_decimal_value(n / 10);
    if n >= 10 {
        assert(decimal(n) == decimal(n / 10).push(digit_char(n % 10)));
        assert(decimal(n).drop_last() =~= decimal(n / 10));
    }
}

/// A number below sixteen is one digit of `0123456789abcdef`; any other is what
/// its sixteenth reads, followed by its last digit.
pub proof fn law_hexadecimal_digits(n: nat)
    ensures
        n < 10 ==> hexadecimal(n).len() == 1 && hexadecimal(n)[0] as nat == '0' as nat + n,
        10 <= n < 16 ==> hexadecimal(n).len() == 1 && hexadecimal(n)[0] as nat == 'a' as nat + n
            - 10,
        n >= 16 ==> hexadecimal(n).len() > 1 && hexadecimal(n).drop_last() == hexadecimal(n / 16)
            && seq![hexadecimal(n).last()] == hexadecimal(n % 16),
{
    if n >= 16 {
        let front = hexadecimal(n / 16);
        assert(front.len() > 0) by {
            reveal_with_fuel(digits, 2);
        }
        assert(hexadecimal(n) == front.push(digit_char(n % 16)));
        assert(hexadecimal(n).drop_last() =~= front);
        assert(hexadecimal(n % 16) == seq![digit_char(n % 16)]);
    }
}

/// A text ends with whatever was put at its end, and only with that.
pub proof fn law_ends_with(base: Seq<char>, suffix: Seq<char>, text: Seq<char>)
    ensures
        ends_with(base + suffix, suffix),
        ends_with(text, suffix) ==> suffix.len() <= text.len() && text.take(
            text.len() - suffix.len(),
        ) + suffix == text,
{
    let joined = base + suffix;
    assert(joined.skip(joined.len() - suffix.len()) =~= suffix);
    if ends_with(text, suffix) {
        assert(text.take(text.len() - suffix.len()) + suffix =~= text);
    }
}

/// A digit more multiplies the value by ten and adds the digit.
pub proof fn law_value_of_one_digit_more(text: Seq<char>, digit: char)
    requires
        '0' <= digit && digit <= '9',
    ensures
        is_digit(digit),
        decimal_value(Seq::empty()) == 0,
        decimal_value(text.push(digit)) == decimal_value(text) * 10 + (digit as nat - '0' as nat),
{
    assert(text.push(digit).drop_last() =~= text);
}

/// One or more digits stand for their value, where it is not too large, with or
/// without a plus sign before them.
pub proof fn law_digits_are_a_number(text: Seq<char>, max: nat)
    requires
        text.len() > 0,
        forall|i: int| 0 <= i < text.len() ==> '0' <= #[trigger] text[i] && text[i] <= '9',
    ensures
        unsigned_value(text, max) == if decimal_value(text) <= max {
            Some(decimal_value(text))
        } else {
            None
        },
        unsigned_value(seq!['+'] + text, max) == unsigned_value(text, max),
{
    assert(text[0] != '+');
    assert(is_digits(text));
    assert((seq!['+'] + text).skip(1) =~= text);
}

/// What a number reads in decimal stands for that number.
pub proof fn law_decimal_is_a_number(n: nat, max: nat)
    ensures
        unsigned_value(decimal(n), max) == if n <= max {
            Some(n)
        } else {
            None
        },
{
    lemma_decimal_value(n);
    assert forall|i: int| 0 <= i < decimal(n).len() implies '0' <= #[trigger] decimal(n)[i]
        && decimal(n)[i] <= '9' by {
        assert(is_digit(decimal(n)[i]));
    }
    law_digits_are_a_number(decimal(n), max);
}

/// The empty text, a lone plus sign, and a text with a character that is no
/// digit, other than a plus sign in front, stand for no number.
pub proof fn law_other_texts_are_no_number(text: Seq<char>, max: nat, i: int)
    requires
        0 <= i < text.len(),
        !('0' <= text[i] && text[i] <= '9'),
        text[i] != '+' || i > 0,
    ensures
        unsigned_value(text, max) is None,
        unsigned_value(Seq::empty(), max) is None,
        unsigned_value(seq!['+'], max) is None,
{
    if text[0] == '+' {
        assert(!is_digit(text.skip(1)[i - 1]));
    } else {
        assert(!is_digit(text[i]));
    }
    assert(seq!['+'].skip(1) =~= Seq::<char>::empty());
}

/// A text reads back from its UTF-8 bytes; bytes that are not UTF-8 read as the
/// lossy decoder has them.
pub proof fn law_text_reads_back(text: Seq<char>, bytes: Seq<u8>)
    ensures
        text_of_bytes(vstd::utf8::encode_utf8(text)) == text,
        vstd::utf8::valid_utf8(bytes) ==> text_of_bytes(bytes) == vstd::utf8::decode_utf8(bytes),
        !vstd::utf8::valid_utf8(bytes) ==> text_of_bytes(bytes) == utf8_lossy(bytes),
{
    broadcast use vstd::utf8::encode_utf8_valid_utf8;

    vstd::utf8::encode_utf8_decode_utf8(text);
}

} // verus!
