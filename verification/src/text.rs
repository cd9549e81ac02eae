use vstd::prelude::*;
use vstd::std_specs::iter::IteratorSpec;

verus! {

/// Whether a character is white space in the sense of Unicode.
pub open spec fn is_whitespace(c: char) -> bool {
    let n = c as u32;
    (0x09 <= n <= 0x0D) || n == 0x20 || n == 0x85 || n == 0xA0 || n == 0x1680 || (0x2000 <= n
        <= 0x200A) || n == 0x2028 || n == 0x2029 || n == 0x202F || n == 0x205F || n == 0x3000
}

/// Whether `pattern` stands in `text` at position `at`.
pub open spec fn occurs_at(text: Seq<char>, pattern: Seq<char>, at: int) -> bool {
    &&& 0 <= at
    &&& at + pattern.len() <= text.len()
    &&& text.subrange(at, at + pattern.len()) == pattern
}

/// Whether `pattern` stands somewhere in `text`.
pub open spec fn contains(text: Seq<char>, pattern: Seq<char>) -> bool {
    exists|at: int| occurs_at(text, pattern, at)
}

/// Whether `text` ends with `suffix`.
pub open spec fn ends_with(text: Seq<char>, suffix: Seq<char>) -> bool {
    occurs_at(text, suffix, text.len() - suffix.len())
}

/// The characters of a string, one by one.
pub fn chars_of(text: &str) -> (chars: Vec<char>)
    ensures
        chars@ == text@,
{
    let mut chars: Vec<char> = Vec::new();
    for c in it: text.chars()
        invariant
            it.seq() == text@,
            chars@ == it.seq().take(it.index() as int),
    {
        chars.push(c);
        assert(chars@ =~= it.seq().take(it.index() + 1));
    }
    assert(chars@ =~= text@);
    chars
}

/// Whether a character is white space in the sense of Unicode.
pub fn is_space(c: char) -> (r: bool)
    ensures
        r == is_whitespace(c),
{
    let n = c as u32;
    (0x09 <= n && n <= 0x0D) || n == 0x20 || n == 0x85 || n == 0xA0 || n == 0x1680 || (0x2000
        <= n && n <= 0x200A) || n == 0x2028 || n == 0x2029 || n == 0x202F || n == 0x205F || n
        == 0x3000
}

/// Whether `pattern` stands in `text` at position `at`.
pub fn matches_at(text: &Vec<char>, pattern: &Vec<char>, at: usize) -> (r: bool)
    ensures
        r == occurs_at(text@, pattern@, at as int),
{
    if pattern.len() > text.len() || at > text.len() - pattern.len() {
        return false;
    }
    let mut i: usize = 0;
    while i < pattern.len()
        invariant
            i <= pattern.len(),
            at + pattern.len() <= text.len(),
            forall|j: int| 0 <= j < i ==> text[at + j] == pattern[j],
        decreases pattern.len() - i,
    {
        if text[at + i] != pattern[i] {
            assert(text@.subrange(at as int, at + pattern.len())[i as int] != pattern@[i as int]);
            return false;
        }
        i += 1;
    }
    assert(text@.subrange(at as int, at + pattern.len()) =~= pattern@);
    true
}

/// Whether `pattern` stands somewhere in `text`.
pub fn contains_chars(text: &Vec<char>, pattern: &Vec<char>) -> (r: bool)
    ensures
        r == contains(text@, pattern@),
{
    if pattern.len() > text.len() {
        assert forall|at: int| !occurs_at(text@, pattern@, at) by {}
        return false;
    }
    let last = text.len() - pattern.len();
    let mut at: usize = 0;
    while at < last
        invariant
            at <= last,
            last == text.len() - pattern.len(),
            forall|k: int| 0 <= k < at ==> !occurs_at(text@, pattern@, k),
        decreases last - at,
    {
        if matches_at(text, pattern, at) {
            return true;
        }
        at += 1;
    }
    if matches_at(text, pattern, last) {
        return true;
    }
    assert forall|k: int| !occurs_at(text@, pattern@, k) by {}
    false
}

/// Whether `text` ends with `suffix`.
pub fn ends_with_chars(text: &Vec<char>, suffix: &Vec<char>) -> (r: bool)
    ensures
        r == ends_with(text@, suffix@),
{
    if suffix.len() > text.len() {
        return false;
    }
    matches_at(text, suffix, text.len() - suffix.len())
}

/// Whether the string `pattern` stands somewhere in `text`.
pub fn contains_str(text: &Vec<char>, pattern: &str) -> (r: bool)
    ensures
        r == contains(text@, pattern@),
{
    let pattern_chars = chars_of(pattern);
    contains_chars(text, &pattern_chars)
}

/// A copy of a list of strings.
pub fn copy_strings(list: &Vec<String>) -> (copy: Vec<String>)
    ensures
        copy.deep_view() == list.deep_view(),
{
    let mut copy: Vec<String> = Vec::new();
    let mut i: usize = 0;
    while i < list.len()
        invariant
            i <= list.len(),
            copy.len() == i,
            forall|j: int| 0 <= j < i ==> copy[j]@ == list[j]@,
        decreases list.len() - i,
    {
        copy.push(list[i].clone());
        i += 1;
    }
    assert(copy.deep_view() =~= list.deep_view());
    copy
}

/// The first position at or behind `from` whose character is not white
/// space; the length of `text` where there is none.
pub open spec fn skip_whitespace(text: Seq<char>, from: int) -> int
    decreases text.len() - from,
{
    if from < 0 || from >= text.len() {
        text.len() as int
    } else if !is_whitespace(text[from]) {
        from
    } else {
        skip_whitespace(text, from + 1)
    }
}

/// The first position at or behind `from` whose character is white space;
/// the length of `text` where there is none.
pub open spec fn token_end(text: Seq<char>, from: int) -> int
    decreases text.len() - from,
{
    if from < 0 || from >= text.len() {
        text.len() as int
    } else if is_whitespace(text[from]) {
        from
    } else {
        token_end(text, from + 1)
    }
}

/// The runs of characters other than white space that `text` holds from
/// position `from` on, in order. White space separates them and is in
/// none of them; none is empty.
pub open spec fn tokens_from(text: Seq<char>, from: int) -> Seq<Seq<char>>
    decreases text.len() - from,
    via tokens_from_terminates
{
    let start = skip_whitespace(text, from);
    if from < 0 || start >= text.len() {
        Seq::empty()
    } else {
        let end = token_end(text, start + 1);
        seq![text.subrange(start, end)] + tokens_from(text, end)
    }
}

#[via_fn]
proof fn tokens_from_terminates(text: Seq<char>, from: int) {
    if 0 <= from <= text.len() {
        lemma_skip_whitespace_bounds(text, from);
        let start = skip_whitespace(text, from);
        if start < text.len() {
            lemma_token_end_bounds(text, start + 1);
        }
    }
}

/// The runs of characters other than white space that `text` holds.
pub open spec fn tokens(text: Seq<char>) -> Seq<Seq<char>> {
    tokens_from(text, 0)
}

/// Whether a character is one of the ten decimal digits.
pub open spec fn is_digit(c: char) -> bool {
    0x30 <= (c as u32) <= 0x39
}

/// The number that a string of decimal digits stands for.
pub open spec fn decimal_value(digits: Seq<char>) -> nat
    decreases digits.len(),
{
    if digits.len() == 0 {
        0
    } else {
        (decimal_value(digits.drop_last()) * 10 + (digits.last() as u32 - 0x30)) as nat
    }
}

/// The number that a string of decimal digits stands for, where it has at
/// least one character, all of them digits, and the number fits in 32 bits.
pub open spec fn digits_u32(digits: Seq<char>) -> Option<u32> {
    if digits.len() > 0 && (forall|i: int| 0 <= i < digits.len() ==> is_digit(#[trigger] digits[i]))
        && decimal_value(digits) <= u32::MAX {
        Some(decimal_value(digits) as u32)
    } else {
        None
    }
}

/// The number that a token stands for: decimal digits, at least one, with
/// an optional `+` in front, and a value that fits in 32 bits. Any other
/// token stands for no number.
pub open spec fn parse_u32(token: Seq<char>) -> Option<u32> {
    if token.len() > 0 && token[0] == '+' {
        digits_u32(token.drop_first())
    } else {
        digits_u32(token)
    }
}

/// Every token is a run of characters other than white space, and not
/// empty: cutting at white space leaves no white space behind.
pub proof fn lemma_tokens_hold_no_whitespace(text: Seq<char>, from: int)
    requires
        0 <= from <= text.len(),
    ensures
        forall|k: int|
            0 <= k < tokens_from(text, from).len() ==> {
                let token = #[trigger] tokens_from(text, from)[k];
                &&& token.len() > 0
                &&& forall|i: int| 0 <= i < token.len() ==> !is_whitespace(#[trigger] token[i])
            },
    decreases text.len() - from,
{
    lemma_skip_whitespace_bounds(text, from);
    let start = skip_whitespace(text, from);
    if start < text.len() {
        lemma_token_end_bounds(text, start + 1);
        let end = token_end(text, start + 1);
        let first = text.subrange(start, end);
        let rest = tokens_from(text, end);
        lemma_tokens_hold_no_whitespace(text, end);
        lemma_no_whitespace_before_token_end(text, start + 1);
        assert forall|k: int| 0 <= k < tokens_from(text, from).len() implies {
            let token = #[trigger] tokens_from(text, from)[k];
            &&& token.len() > 0
            &&& forall|i: int| 0 <= i < token.len() ==> !is_whitespace(#[trigger] token[i])
        } by {
            let token = tokens_from(text, from)[k];
            if k == 0 {
                assert(token == first);
                assert forall|i: int| 0 <= i < first.len() implies !is_whitespace(
                    #[trigger] first[i],
                ) by {
                    assert(first[i] == text[start + i]);
                }
            } else {
                assert(token == rest[k - 1]);
            }
        }
    }
}

proof fn lemma_no_whitespace_before_token_end(text: Seq<char>, from: int)
    requires
        0 <= from <= text.len(),
    ensures
        forall|i: int| from <= i < token_end(text, from) ==> !is_whitespace(#[trigger] text[i]),
    decreases text.len() - from,
{
    if from < text.len() && !is_whitespace(text[from]) {
        lemma_no_whitespace_before_token_end(text, from + 1);
    }
}

proof fn lemma_skip_whitespace_bounds(text: Seq<char>, from: int)
    requires
        0 <= from <= text.len(),
    ensures
        from <= skip_whitespace(text, from) <= text.len(),
        skip_whitespace(text, from) < text.len() ==> !is_whitespace(
            text[skip_whitespace(text, from)],
        ),
    decreases text.len() - from,
{
    if from < text.len() && is_whitespace(text[from]) {
        lemma_skip_whitespace_bounds(text, from + 1);
    }
}

proof fn lemma_token_end_bounds(text: Seq<char>, from: int)
    requires
        0 <= from <= text.len(),
    ensures
        from <= token_end(text, from) <= text.len(),
    decreases text.len() - from,
{
    if from < text.len() && !is_whitespace(text[from]) {
        lemma_token_end_bounds(text, from + 1);
    }
}

/// The first position at or behind `from` whose character is not white
/// space.
pub(crate) fn find_token_start(text: &Vec<char>, from: usize) -> (start: usize)
    requires
        from <= text.len(),
    ensures
        start == skip_whitespace(text@, from as int),
        from <= start <= text.len(),
{
    let mut i = from;
    while i < text.len() && is_space(text[i])
        invariant
            from <= i <= text.len(),
            skip_whitespace(text@, from as int) == skip_whitespace(text@, i as int),
        decreases text.len() - i,
    {
        i += 1;
    }
    i
}

/// The first position at or behind `from` whose character is white space.
pub(crate) fn find_token_end(text: &Vec<char>, from: usize) -> (end: usize)
    requires
        from <= text.len(),
    ensures
        end == token_end(text@, from as int),
        from <= end <= text.len(),
{
    let mut i = from;
    while i < text.len() && !is_space(text[i])
        invariant
            from <= i <= text.len(),
            token_end(text@, from as int) == token_end(text@, i as int),
        decreases text.len() - i,
    {
        i += 1;
    }
    i
}

proof fn lemma_decimal_value_grows(digits: Seq<char>, upto: int)
    requires
        0 <= upto <= digits.len(),
        forall|i: int| 0 <= i < digits.len() ==> is_digit(#[trigger] digits[i]),
    ensures
        decimal_value(digits.take(upto)) <= decimal_value(digits),
    decreases digits.len() - upto,
{
    if upto < digits.len() {
        let longer = digits.take(upto + 1);
        assert(longer.drop_last() =~= digits.take(upto));
        assert(is_digit(digits[upto]));
        assert(longer.last() == digits[upto]);
        lemma_decimal_value_grows(digits, upto + 1);
    } else {
        assert(digits.take(upto) =~= digits);
    }
}

/// Reads the number that the characters of `text` from `start` up to `end`
/// stand for.
pub(crate) fn parse_number(text: &Vec<char>, start: usize, end: usize) -> (number: Option<u32>)
    requires
        start <= end <= text.len(),
    ensures
        number == parse_u32(text@.subrange(start as int, end as int)),
{
    let ghost token = text@.subrange(start as int, end as int);
    let first = if start < end && text[start] == '+' {
        start + 1
    } else {
        start
    };
    let ghost digits = text@.subrange(first as int, end as int);
    proof {
        if start < end && text[start as int] == '+' {
            assert(token[0] == '+');
            assert(token.drop_first() =~= digits);
        } else {
            assert(token =~= digits);
            if token.len() > 0 {
                assert(token[0] == text[start as int]);
            }
        }
        assert(parse_u32(token) == digits_u32(digits));
    }
    let number = parse_digits(text, first, end);
    number
}

/// Reads the number that the digits of `text` from `first` up to `end`
/// stand for.
fn parse_digits(text: &Vec<char>, first: usize, end: usize) -> (number: Option<u32>)
    requires
        first <= end <= text.len(),
    ensures
        number == digits_u32(text@.subrange(first as int, end as int)),
{
    let ghost digits = text@.subrange(first as int, end as int);
    if first == end {
        return None;
    }
    let mut value: u64 = 0;
    let mut i = first;
    while i < end
        invariant
            first <= i <= end <= text.len(),
            digits == text@.subrange(first as int, end as int),
            forall|j: int| 0 <= j < i - first ==> is_digit(#[trigger] digits[j]),
            value == decimal_value(digits.take(i - first)),
            value <= u32::MAX,
        decreases end - i,
    {
        let c = text[i];
        let n = c as u32;
        assert(digits[i - first] == c);
        if n < 0x30 || n > 0x39 {
            assert(!is_digit(digits[i - first]));
            return None;
        }
        let ghost longer = digits.take(i - first + 1);
        assert(longer.drop_last() =~= digits.take(i - first));
        assert(longer.last() == c);
        value = value * 10 + (n - 0x30) as u64;
        assert(value == decimal_value(longer));
        if value > 0xFFFF_FFFF {
            proof {
                if forall|j: int| 0 <= j < digits.len() ==> is_digit(#[trigger] digits[j]) {
                    lemma_decimal_value_grows(digits, i - first + 1);
                }
            }
            return None;
        }
        i += 1;
    }
    assert(digits.take(end - first) =~= digits);
    Some(value as u32)
}

/// The character of a decimal digit.
pub open spec fn digit_char(digit: nat) -> char {
    if digit == 0 {
        '0'
    } else if digit == 1 {
        '1'
    } else if digit == 2 {
        '2'
    } else if digit == 3 {
        '3'
    } else if digit == 4 {
        '4'
    } else if digit == 5 {
        '5'
    } else if digit == 6 {
        '6'
    } else if digit == 7 {
        '7'
    } else if digit == 8 {
        '8'
    } else {
        '9'
    }
}

/// A number in decimal digits, without leading zeros; zero is `0`.
pub open spec fn decimal_text(number: nat) -> Seq<char>
    decreases number,
{
    if number < 10 {
        seq![digit_char(number)]
    } else {
        decimal_text(number / 10).push(digit_char(number % 10))
    }
}

fn digit_string(digit: u64) -> (text: String)
    requires
        digit < 10,
    ensures
        text@ == seq![digit_char(digit as nat)],
{
    proof {
        reveal_strlit("0");
        reveal_strlit("1");
        reveal_strlit("2");
        reveal_strlit("3");
        reveal_strlit("4");
        reveal_strlit("5");
        reveal_strlit("6");
        reveal_strlit("7");
        reveal_strlit("8");
        reveal_strlit("9");
    }
    let text = if digit == 0 {
        String::from_str("0")
    } else if digit == 1 {
        String::from_str("1")
    } else if digit == 2 {
        String::from_str("2")
    } else if digit == 3 {
        String::from_str("3")
    } else if digit == 4 {
        String::from_str("4")
    } else if digit == 5 {
        String::from_str("5")
    } else if digit == 6 {
        String::from_str("6")
    } else if digit == 7 {
        String::from_str("7")
    } else if digit == 8 {
        String::from_str("8")
    } else {
        String::from_str("9")
    };
    assert(text@ =~= seq![digit_char(digit as nat)]);
    text
}

/// Writes a number in decimal digits.
pub fn decimal_string(number: u64) -> (text: String)
    ensures
        text@ == decimal_text(number as nat),
    decreases number,
{
    if number < 10 {
        digit_string(number)
    } else {
        let mut text = decimal_string(number / 10);
        let last = digit_string(number % 10);
        text.append(last.as_str());
        assert(text@ =~= decimal_text(number as nat));
        text
    }
}

} // verus!
