//! Text as sequences of characters: trimming, comparing, splitting into words, and reading and
//! writing decimal numbers.
use vstd::prelude::*;

verus! {

/// A set of characters that is cut off the ends of a text.
#[derive(Clone, Copy)]
pub enum CharClass {
    /// The characters with Unicode's `White_Space` property.
    Space,
    /// The single and the double quotation mark.
    Quote,
    /// The forward slash.
    Slash,
}

impl CharClass {
    pub open spec fn has(self, c: char) -> bool {
        match self {
            CharClass::Space => is_space(c),
            CharClass::Quote => c == '"' || c == '\'',
            CharClass::Slash => c == '/',
        }
    }

    pub fn contains(self, c: char) -> (found: bool)
        ensures
            found == self.has(c),
    {
        match self {
            CharClass::Space => space_char(c),
            CharClass::Quote => c == '"' || c == '\'',
            CharClass::Slash => c == '/',
        }
    }
}

/// Unicode's `White_Space` property.
pub open spec fn is_space(c: char) -> bool {
    let n = c as u32;
    ||| 0x09 <= n <= 0x0d
    ||| n == 0x20
    ||| n == 0x85
    ||| n == 0xa0
    ||| n == 0x1680
    ||| 0x2000 <= n <= 0x200a
    ||| n == 0x2028
    ||| n == 0x2029
    ||| n == 0x202f
    ||| n == 0x205f
    ||| n == 0x3000
}

pub fn space_char(c: char) -> (found: bool)
    ensures
        found == is_space(c),
{
    let n: u32 = c as u32;
    (0x09 <= n && n <= 0x0d) || n == 0x20 || n == 0x85 || n == 0xa0 || n == 0x1680 || (0x2000 <= n
        && n <= 0x200a) || n == 0x2028 || n == 0x2029 || n == 0x202f || n == 0x205f || n == 0x3000
}

/// The characters of `text`, in order.
pub fn chars_of(text: &str) -> (chars: Vec<char>)
    ensures
        chars@ == text@,
{
    let mut chars: Vec<char> = Vec::new();
    for c in it: text.chars()
        invariant
            it.seq() == text@,
            chars@ == text@.take(it.index() as int),
    {
        chars.push(c);
    }
    chars
}

/// `text` without the leading characters of `class`.
pub open spec fn trimmed_start(text: Seq<char>, class: CharClass) -> Seq<char>
    decreases text.len(),
{
    if text.len() > 0 && class.has(text[0]) {
        trimmed_start(text.drop_first(), class)
    } else {
        text
    }
}

/// `text` without the trailing characters of `class`.
pub open spec fn trimmed_end(text: Seq<char>, class: CharClass) -> Seq<char>
    decreases text.len(),
{
    if text.len() > 0 && class.has(text.last()) {
        trimmed_end(text.drop_last(), class)
    } else {
        text
    }
}

/// `text` without the leading and trailing characters of `class`.
pub open spec fn trimmed(text: Seq<char>, class: CharClass) -> Seq<char> {
    trimmed_end(trimmed_start(text, class), class)
}

pub fn trim_start(text: &str, class: CharClass) -> (rest: &str)
    ensures
        rest@ == trimmed_start(text@, class),
{
    let chars = chars_of(text);
    let mut start: usize = 0;
    assert(text@.skip(0) =~= text@);
    while start < chars.len() && class.contains(chars[start])
        invariant
            start <= chars.len(),
            chars@ == text@,
            trimmed_start(text@, class) == trimmed_start(text@.skip(start as int), class),
        decreases chars.len() - start,
    {
        assert(text@.skip(start as int).drop_first() =~= text@.skip(start + 1));
        start = start + 1;
    }
    assert(text@.subrange(start as int, text@.len() as int) =~= text@.skip(start as int));
    text.substring_char(start, chars.len())
}

pub fn trim_end(text: &str, class: CharClass) -> (rest: &str)
    ensures
        rest@ == trimmed_end(text@, class),
{
    let chars = chars_of(text);
    let mut end: usize = chars.len();
    assert(text@.take(end as int) =~= text@);
    while 0 < end && class.contains(chars[end - 1])
        invariant
            end <= chars.len(),
            chars@ == text@,
            trimmed_end(text@, class) == trimmed_end(text@.take(end as int), class),
        decreases end,
    {
        assert(text@.take(end as int).drop_last() =~= text@.take(end - 1));
        end = end - 1;
    }
    assert(text@.subrange(0, end as int) =~= text@.take(end as int));
    text.substring_char(0, end)
}

pub fn trim(text: &str, class: CharClass) -> (rest: &str)
    ensures
        rest@ == trimmed(text@, class),
{
    trim_end(trim_start(text, class), class)
}

/// What is left of an optional text once white space is cut off, if anything is.
pub open spec fn non_blank_text(text: Option<Seq<char>>) -> Option<Seq<char>> {
    match text {
        Some(t) => if trimmed(t, CharClass::Space).len() > 0 {
            Some(trimmed(t, CharClass::Space))
        } else {
            None
        },
        None => None,
    }
}

pub fn non_blank(text: Option<&str>) -> (rest: Option<String>)
    ensures
        rest.deep_view() == non_blank_text(text.deep_view()),
{
    match text {
        Some(t) => {
            let rest = trim(t, CharClass::Space);
            if rest.is_empty() {
                None
            } else {
                Some(rest.to_owned())
            }
        },
        None => None,
    }
}

pub fn same_text(a: &str, b: &str) -> (same: bool)
    ensures
        same == (a@ == b@),
{
    let x = chars_of(a);
    let y = chars_of(b);
    if x.len() != y.len() {
        return false;
    }
    let mut i: usize = 0;
    while i < x.len()
        invariant
            i <= x.len(),
            x.len() == y.len(),
            x@ == a@,
            y@ == b@,
            forall|k: int| 0 <= k < i ==> a@[k] == b@[k],
        decreases x.len() - i,
    {
        if x[i] != y[i] {
            return false;
        }
        i = i + 1;
    }
    assert(a@ =~= b@);
    true
}

/// `text` begins with `prefix`.
pub open spec fn has_prefix(text: Seq<char>, prefix: Seq<char>) -> bool {
    prefix.len() <= text.len() && text.take(prefix.len() as int) == prefix
}

/// What follows `prefix` at the start of `text`; `None` where `text` does not begin with it.
pub fn strip_prefix<'a>(text: &'a str, prefix: &str) -> (rest: Option<&'a str>)
    ensures
        rest is Some == has_prefix(text@, prefix@),
        rest matches Some(r) ==> r@ == text@.skip(prefix@.len() as int),
{
    let x = chars_of(text);
    let y = chars_of(prefix);
    if y.len() > x.len() {
        return None;
    }
    let mut i: usize = 0;
    while i < y.len()
        invariant
            i <= y.len() <= x.len(),
            x@ == text@,
            y@ == prefix@,
            forall|k: int| 0 <= k < i ==> text@[k] == prefix@[k],
        decreases y.len() - i,
    {
        if x[i] != y[i] {
            assert(text@.take(prefix@.len() as int)[i as int] != prefix@[i as int]);
            return None;
        }
        i = i + 1;
    }
    assert(text@.take(prefix@.len() as int) =~= prefix@);
    assert(text@.subrange(y.len() as int, x.len() as int) =~= text@.skip(prefix@.len() as int));
    Some(text.substring_char(y.len(), x.len()))
}

/// `text` ends with `suffix`.
pub open spec fn has_suffix(text: Seq<char>, suffix: Seq<char>) -> bool {
    suffix.len() <= text.len() && text.skip(text.len() - suffix.len()) == suffix
}

pub fn ends_with(text: &str, suffix: &str) -> (found: bool)
    ensures
        found == has_suffix(text@, suffix@),
{
    let n = text.unicode_len();
    let m = suffix.unicode_len();
    if m > n {
        return false;
    }
    assert(text@.subrange(n - m, n as int) =~= text@.skip(n - m));
    same_text(text.substring_char(n - m, n), suffix)
}

/// The number of characters before the first white space of `text`.
pub open spec fn word_len(text: Seq<char>) -> nat
    decreases text.len(),
{
    if text.len() > 0 && !is_space(text[0]) {
        1 + word_len(text.drop_first())
    } else {
        0
    }
}

pub proof fn lemma_word_len(text: Seq<char>)
    ensures
        word_len(text) <= text.len(),
        forall|k: int| 0 <= k < word_len(text) ==> !is_space(text[k]),
        word_len(text) < text.len() ==> is_space(text[word_len(text) as int]),
    decreases text.len(),
{
    if text.len() > 0 && !is_space(text[0]) {
        let rest = text.drop_first();
        lemma_word_len(rest);
        assert forall|k: int| 0 <= k < word_len(text) implies !is_space(text[k]) by {
            if k > 0 {
                assert(rest[k - 1] == text[k]);
            }
        }
        if word_len(text) < text.len() {
            assert(rest[word_len(rest) as int] == text[word_len(text) as int]);
        }
    }
}

pub proof fn lemma_trimmed_start_shorter(text: Seq<char>, class: CharClass)
    ensures
        trimmed_start(text, class).len() <= text.len(),
        trimmed_start(text, class).len() > 0 ==> !class.has(trimmed_start(text, class)[0]),
    decreases text.len(),
{
    if text.len() > 0 && class.has(text[0]) {
        lemma_trimmed_start_shorter(text.drop_first(), class);
    }
}

/// The maximal runs of characters of `text` that are not white space, in order.
pub open spec fn words(text: Seq<char>) -> Seq<Seq<char>>
    decreases text.len(),
{
    let rest = trimmed_start(text, CharClass::Space);
    if rest.len() == 0 {
        seq![]
    } else {
        proof {
            lemma_trimmed_start_shorter(text, CharClass::Space);
            lemma_word_len(rest);
            assert(word_len(rest) > 0);
        }
        seq![rest.take(word_len(rest) as int)] + words(rest.skip(word_len(rest) as int))
    }
}

pub fn split_words(text: &str) -> (parts: Vec<String>)
    ensures
        parts.deep_view() == words(text@),
{
    let mut parts: Vec<String> = Vec::new();
    let mut rest = trim_start(text, CharClass::Space);
    assert(parts.deep_view() =~= seq![]);
    proof {
        lemma_trimmed_start_shorter(text@, CharClass::Space);
        lemma_words_trimmed(text@);
        assert(words(text@) =~= parts.deep_view() + words(rest@));
    }
    while !rest.is_empty()
        invariant
            rest@ == trimmed_start(rest@, CharClass::Space),
            words(text@) == parts.deep_view() + words(rest@),
        decreases rest@.len(),
    {
        let chars = chars_of(rest);
        let mut n: usize = 0;
        assert(rest@.skip(0) =~= rest@);
        while n < chars.len() && !space_char(chars[n])
            invariant
                n <= chars.len(),
                chars@ == rest@,
                word_len(rest@) == n + word_len(rest@.skip(n as int)),
            decreases chars.len() - n,
        {
            assert(rest@.skip(n as int).drop_first() =~= rest@.skip(n + 1));
            n = n + 1;
        }
        let word = rest.substring_char(0, n);
        let tail = rest.substring_char(n, chars.len());
        let ghost before = parts.deep_view();
        parts.push(word.to_owned());
        let next = trim_start(tail, CharClass::Space);
        proof {
            lemma_word_len(rest@);
            lemma_trimmed_start_shorter(rest@, CharClass::Space);
            lemma_trimmed_start_shorter(tail@, CharClass::Space);
            assert(rest@.take(n as int) =~= word@);
            assert(rest@.skip(n as int) =~= tail@);
            assert(parts.deep_view() =~= before.push(word@));
            lemma_words_trimmed(tail@);
            assert(words(rest@) == seq![word@] + words(tail@));
            assert(before + (seq![word@] + words(next@)) =~= parts.deep_view() + words(next@));
        }
        rest = next;
    }
    assert(words(rest@) =~= seq![]);
    assert(parts.deep_view() + words(rest@) =~= parts.deep_view());
    parts
}

/// Leading white space separates no words.
pub proof fn lemma_words_trimmed(text: Seq<char>)
    ensures
        trimmed_start(trimmed_start(text, CharClass::Space), CharClass::Space) == trimmed_start(
            text,
            CharClass::Space,
        ),
        words(trimmed_start(text, CharClass::Space)) == words(text),
{
    lemma_trimmed_start_shorter(text, CharClass::Space);
}

/// The character that stands for a digit.
pub open spec fn digit_char(d: nat) -> char {
    (0x30 + d) as u8 as char
}

/// The decimal notation of `n`, without leading zeros.
pub open spec fn decimal(n: nat) -> Seq<char>
    decreases n,
{
    if n < 10 {
        seq![digit_char(n)]
    } else {
        decimal(n / 10).push(digit_char(n % 10))
    }
}

/// The decimal notation of an integer: a minus sign where it is negative, then its digits.
pub open spec fn decimal_int(n: int) -> Seq<char> {
    if n < 0 {
        seq!['-'] + decimal((-n) as nat)
    } else {
        decimal(n as nat)
    }
}

/// The number that a run of digits writes down.
pub open spec fn digits_value(digits: Seq<char>) -> nat
    decreases digits.len(),
{
    if digits.len() == 0 {
        0
    } else {
        digits_value(digits.drop_last()) * 10 + (digits.last() as nat - 0x30) as nat
    }
}

pub open spec fn is_digit(c: char) -> bool {
    '0' <= c <= '9'
}

/// `String::push` appends one character.
pub assume_specification[ String::push ](text: &mut String, c: char)
    ensures
        final(text)@ == old(text)@.push(c),
;

fn push_digits(text: &mut String, n: u64)
    ensures
        final(text)@ == old(text)@ + decimal(n as nat),
    decreases n,
{
    if n >= 10 {
        push_digits(text, n / 10);
    }
    let digit: u8 = 0x30 + (n % 10) as u8;
    text.push(digit as char);
    assert(text@ =~= old(text)@ + decimal(n as nat));
}

/// Writes `n` in decimal notation.
pub fn decimal_text(n: i64) -> (text: String)
    ensures
        text@ == decimal_int(n as int),
{
    let mut text = String::new();
    if n < 0 {
        text.push('-');
        let magnitude: u64 = (0i128 - n as i128) as u64;
        push_digits(&mut text, magnitude);
        assert(text@ =~= decimal_int(n as int));
    } else {
        push_digits(&mut text, n as u64);
        assert(text@ =~= decimal_int(n as int));
    }
    text
}

pub open spec fn all_digits(text: Seq<char>) -> bool {
    forall|k: int| 0 <= k < text.len() ==> is_digit(text[k])
}

/// `text` without a plus sign in front.
pub open spec fn without_plus(text: Seq<char>) -> Seq<char> {
    if text.len() > 0 && text[0] == '+' {
        text.drop_first()
    } else {
        text
    }
}

/// The number in `0..=65535` that `text` writes down: an optional plus sign, then one or more
/// decimal digits.
pub open spec fn parsed_u16(text: Seq<char>) -> Option<u16> {
    let digits = without_plus(text);
    if digits.len() > 0 && all_digits(digits) && digits_value(digits) <= u16::MAX {
        Some(digits_value(digits) as u16)
    } else {
        None
    }
}

pub proof fn lemma_digits_value_grows(digits: Seq<char>, n: int)
    requires
        0 <= n <= digits.len(),
    ensures
        digits_value(digits.take(n)) <= digits_value(digits),
    decreases digits.len() - n,
{
    if n == digits.len() {
        assert(digits.take(n) =~= digits);
    } else {
        lemma_digits_value_grows(digits, n + 1);
        assert(digits.take(n + 1).drop_last() =~= digits.take(n));
    }
}

pub fn parse_u16(text: &str) -> (number: Option<u16>)
    ensures
        number == parsed_u16(text@),
{
    let chars = chars_of(text);
    let start: usize = if chars.len() > 0 && chars[0] == '+' {
        1
    } else {
        0
    };
    let ghost digits = without_plus(text@);
    assert(digits =~= chars@.skip(start as int));
    if start == chars.len() {
        return None;
    }
    let mut value: u32 = 0;
    let mut i: usize = start;
    while i < chars.len()
        invariant
            start <= i <= chars.len(),
            start <= 1,
            digits == chars@.skip(start as int),
            digits.len() > 0,
            chars@ == text@,
            digits == without_plus(text@),
            value <= u16::MAX,
            value == digits_value(digits.take(i - start)),
            forall|k: int| 0 <= k < i - start ==> is_digit(digits[k]),
        decreases chars.len() - i,
    {
        let c = chars[i];
        assert(c == digits[i - start]);
        if !('0' <= c && c <= '9') {
            assert(!is_digit(digits[i - start]));
            return None;
        }
        let digit: u32 = c as u32 - 0x30;
        assert(digits.take(i + 1 - start).drop_last() =~= digits.take(i - start));
        value = value * 10 + digit;
        if value > 65535 {
            proof {
                lemma_digits_value_grows(digits, i + 1 - start);
            }
            return None;
        }
        i = i + 1;
    }
    assert(digits.take(i - start) =~= digits);
    Some(value as u16)
}

/// `c` with an ASCII capital letter turned into the small one.
pub open spec fn lower_char(c: char) -> char {
    if 'A' <= c <= 'Z' {
        (c as u8 + 0x20) as u8 as char
    } else {
        c
    }
}

/// `text` with the ASCII capital letters turned into small ones.
pub open spec fn lowered(text: Seq<char>) -> Seq<char> {
    text.map_values(|c: char| lower_char(c))
}

pub fn to_lower(text: &str) -> (lower: String)
    ensures
        lower@ == lowered(text@),
{
    let mut lower = String::new();
    let chars = chars_of(text);
    let mut i: usize = 0;
    while i < chars.len()
        invariant
            i <= chars.len(),
            chars@ == text@,
            lower@ == lowered(text@.take(i as int)),
        decreases chars.len() - i,
    {
        let c = chars[i];
        if 'A' <= c && c <= 'Z' {
            let n: u8 = c as u8 + 0x20;
            lower.push(n as char);
        } else {
            lower.push(c);
        }
        assert(lower@ =~= lowered(text@.take(i + 1)));
        i = i + 1;
    }
    assert(text@.take(i as int) =~= text@);
    lower
}

/// A copy of a list of texts.
pub fn copy_all(list: &[String]) -> (copy: Vec<String>)
    ensures
        copy.deep_view() == list.deep_view(),
{
    let mut copy: Vec<String> = Vec::new();
    let mut i: usize = 0;
    while i < list.len()
        invariant
            i <= list.len(),
            copy.len() == i,
            forall|k: int| 0 <= k < i ==> copy@[k] == list@[k],
        decreases list.len() - i,
    {
        copy.push(list[i].clone());
        i = i + 1;
    }
    assert(copy.deep_view() =~= list.deep_view());
    copy
}

/// The texts of `parts` one after another, with one space between neighbours.
pub open spec fn joined(parts: Seq<Seq<char>>) -> Seq<char>
    decreases parts.len(),
{
    if parts.len() == 0 {
        seq![]
    } else if parts.len() == 1 {
        parts[0]
    } else {
        joined(parts.drop_last()) + seq![' '] + parts.last()
    }
}

pub fn join(parts: &Vec<String>) -> (text: String)
    ensures
        text@ == joined(parts.deep_view()),
{
    let mut text = String::new();
    let ghost all = parts.deep_view();
    let mut i: usize = 0;
    while i < parts.len()
        invariant
            i <= parts.len(),
            all == parts.deep_view(),
            text@ == joined(all.take(i as int)),
        decreases parts.len() - i,
    {
        assert(all.take(i + 1).drop_last() =~= all.take(i as int));
        if i > 0 {
            text.push(' ');
        }
        text.append(parts[i].as_str());
        assert(text@ =~= joined(all.take(i + 1)));
        i = i + 1;
    }
    assert(all.take(i as int) =~= all);
    text
}

proof fn lemma_trimmed_start_concat(head: Seq<char>, tail: Seq<char>)
    ensures
        trimmed_start(head, CharClass::Space).len() == 0 ==> trimmed_start(
            head + tail,
            CharClass::Space,
        ) == trimmed_start(tail, CharClass::Space),
        trimmed_start(head, CharClass::Space).len() > 0 ==> trimmed_start(
            head + tail,
            CharClass::Space,
        ) == trimmed_start(head, CharClass::Space) + tail,
    decreases head.len(),
{
    if head.len() == 0 {
        assert(head + tail =~= tail);
    } else {
        assert((head + tail)[0] == head[0]);
        if is_space(head[0]) {
            assert((head + tail).drop_first() =~= head.drop_first() + tail);
            lemma_trimmed_start_concat(head.drop_first(), tail);
        }
    }
}

proof fn lemma_word_len_concat(head: Seq<char>, tail: Seq<char>)
    requires
        tail.len() > 0,
        is_space(tail[0]),
    ensures
        word_len(head + tail) == word_len(head),
    decreases head.len(),
{
    if head.len() == 0 {
        assert(head + tail =~= tail);
    } else {
        assert((head + tail)[0] == head[0]);
        if !is_space(head[0]) {
            assert((head + tail).drop_first() =~= head.drop_first() + tail);
            lemma_word_len_concat(head.drop_first(), tail);
        }
    }
}

/// A space between two texts separates their words.
pub proof fn lemma_words_concat(head: Seq<char>, tail: Seq<char>)
    ensures
        words(head + seq![' '] + tail) == words(head) + words(tail),
{
    lemma_words_split(head, ' ', tail);
}

/// A text without white space is one word.
pub proof fn lemma_single_word(text: Seq<char>)
    requires
        text.len() > 0,
        forall|k: int| 0 <= k < text.len() ==> !is_space(text[k]),
    ensures
        words(text) == seq![text],
{
    lemma_word_len(text);
    if word_len(text) < text.len() {
        assert(is_space(text[word_len(text) as int]));
    }
    assert(text.take(word_len(text) as int) =~= text);
    assert(text.skip(word_len(text) as int) =~= seq![]);
    assert(words(seq![]) =~= seq![]);
    assert(words(text) =~= seq![text]);
}

/// Reading a decimal notation gives the number back.
pub proof fn lemma_decimal_read_back(n: nat)
    ensures
        decimal(n).len() > 0,
        all_digits(decimal(n)),
        digits_value(decimal(n)) == n,
    decreases n,
{
    if n < 10 {
        assert(decimal(n).drop_last() =~= seq![]);
        assert(digits_value(seq![]) == 0);
        assert(decimal(n).last() == digit_char(n));
    } else {
        lemma_decimal_read_back(n / 10);
        assert(decimal(n).drop_last() =~= decimal(n / 10));
        assert(decimal(n).last() == digit_char(n % 10));
    }
}

/// `part` stands somewhere in `text`.
pub open spec fn holds_text(text: Seq<char>, part: Seq<char>) -> bool {
    exists|i: int|
        0 <= i <= text.len() - part.len() && #[trigger] text.subrange(i, i + part.len()) == part
}

proof fn lemma_holds_at(text: Seq<char>, part: Seq<char>, i: int)
    requires
        0 <= i <= text.len() - part.len(),
        text.subrange(i, i + part.len()) == part,
    ensures
        holds_text(text, part),
{
}

pub proof fn lemma_holds_text_of_part(text: Seq<char>, middle: Seq<char>, part: Seq<char>)
    requires
        holds_text(text, middle),
        holds_text(middle, part),
    ensures
        holds_text(text, part),
{
    let i = choose|i: int|
        0 <= i <= text.len() - middle.len() && #[trigger] text.subrange(i, i + middle.len())
            == middle;
    let j = choose|j: int|
        0 <= j <= middle.len() - part.len() && #[trigger] middle.subrange(j, j + part.len())
            == part;
    assert(text.subrange(i + j, i + j + part.len()) =~= middle.subrange(j, j + part.len()));
    lemma_holds_at(text, part, i + j);
}

pub proof fn lemma_holds_prefix(text: Seq<char>, prefix: Seq<char>)
    requires
        has_prefix(text, prefix),
    ensures
        holds_text(text, prefix),
{
    assert(text.subrange(0, prefix.len() as int) =~= text.take(prefix.len() as int));
    lemma_holds_at(text, prefix, 0);
}

proof fn lemma_holds_trimmed_start(text: Seq<char>, class: CharClass)
    ensures
        holds_text(text, trimmed_start(text, class)),
    decreases text.len(),
{
    if text.len() > 0 && class.has(text[0]) {
        let rest = text.drop_first();
        lemma_holds_trimmed_start(rest, class);
        lemma_holds_at(text, rest, 1);
        lemma_holds_text_of_part(text, rest, trimmed_start(rest, class));
    } else {
        assert(text.subrange(0, text.len() as int) =~= text);
        lemma_holds_at(text, text, 0);
    }
}

proof fn lemma_holds_trimmed_end(text: Seq<char>, class: CharClass)
    ensures
        holds_text(text, trimmed_end(text, class)),
    decreases text.len(),
{
    if text.len() > 0 && class.has(text.last()) {
        let rest = text.drop_last();
        lemma_holds_trimmed_end(rest, class);
        lemma_holds_at(text, rest, 0);
        lemma_holds_text_of_part(text, rest, trimmed_end(rest, class));
    } else {
        assert(text.subrange(0, text.len() as int) =~= text);
        lemma_holds_at(text, text, 0);
    }
}

pub proof fn lemma_holds_trimmed(text: Seq<char>, class: CharClass)
    ensures
        holds_text(text, trimmed(text, class)),
{
    lemma_holds_trimmed_start(text, class);
    lemma_holds_trimmed_end(trimmed_start(text, class), class);
    lemma_holds_text_of_part(text, trimmed_start(text, class), trimmed(text, class));
}

/// The words of a text stand in it.
pub proof fn lemma_holds_words(text: Seq<char>)
    ensures
        forall|i: int| 0 <= i < words(text).len() ==> holds_text(text, #[trigger] words(text)[i]),
    decreases text.len(),
{
    let rest = trimmed_start(text, CharClass::Space);
    lemma_holds_trimmed_start(text, CharClass::Space);
    lemma_trimmed_start_shorter(text, CharClass::Space);
    lemma_word_len(rest);
    if rest.len() > 0 {
        let n = word_len(rest) as int;
        let first = rest.take(n);
        let behind = rest.skip(n);
        lemma_holds_words(behind);
        assert(rest.subrange(0, n) =~= first);
        lemma_holds_at(rest, first, 0);
        assert(rest.subrange(n, n + behind.len()) =~= behind);
        lemma_holds_at(rest, behind, n);
        assert forall|i: int| 0 <= i < words(text).len() implies holds_text(
            text,
            #[trigger] words(text)[i],
        ) by {
            if i == 0 {
                lemma_holds_text_of_part(text, rest, first);
            } else {
                assert(words(text)[i] == words(behind)[i - 1]);
                lemma_holds_text_of_part(rest, behind, words(behind)[i - 1]);
                lemma_holds_text_of_part(text, rest, words(behind)[i - 1]);
            }
        }
    }
}

/// Which characters are cut off: white space, both quotation marks, or slashes.
pub proof fn law_character_classes(c: char)
    ensures
        CharClass::Space.has(c) <==> is_space(c),
        CharClass::Quote.has(c) <==> c == '"' || c == '\'',
        CharClass::Slash.has(c) <==> c == '/',
        is_space(' ') && is_space('\t') && is_space('\n') && is_space('\r'),
        '!' <= c <= '~' ==> !is_space(c),
{
}

proof fn lemma_trimmed_start_splits(text: Seq<char>, class: CharClass)
    ensures
        ({
            let n = text.len() - trimmed_start(text, class).len();
            &&& 0 <= n
            &&& trimmed_start(text, class) == text.skip(n)
            &&& forall|i: int| 0 <= i < n ==> class.has(#[trigger] text[i])
        }),
    decreases text.len(),
{
    if text.len() > 0 && class.has(text[0]) {
        let rest = text.drop_first();
        lemma_trimmed_start_splits(rest, class);
        let n = text.len() - trimmed_start(text, class).len();
        assert(trimmed_start(text, class) =~= text.skip(n));
        assert forall|i: int| 0 <= i < n implies class.has(#[trigger] text[i]) by {
            if i > 0 {
                assert(text[i] == rest[i - 1]);
            }
        }
    } else {
        assert(text.skip(0) =~= text);
    }
}

proof fn lemma_trimmed_end_splits(text: Seq<char>, class: CharClass)
    ensures
        ({
            let n = trimmed_end(text, class).len();
            &&& n <= text.len()
            &&& trimmed_end(text, class) == text.take(n as int)
            &&& n > 0 ==> !class.has(text[n - 1])
            &&& forall|i: int| n <= i < text.len() ==> class.has(#[trigger] text[i])
        }),
    decreases text.len(),
{
    if text.len() > 0 && class.has(text.last()) {
        let rest = text.drop_last();
        lemma_trimmed_end_splits(rest, class);
        let n = trimmed_end(text, class).len();
        assert(trimmed_end(text, class) =~= text.take(n as int));
        assert forall|i: int| n <= i < text.len() implies class.has(#[trigger] text[i]) by {
            if i < rest.len() {
                assert(text[i] == rest[i]);
            }
        }
    } else {
        assert(text.take(text.len() as int) =~= text);
    }
}

/// Trimming cuts off what stands in front and behind, only characters of the class, and as many as
/// there are.
pub proof fn law_trimming_cuts_the_ends(
    front: Seq<char>,
    middle: Seq<char>,
    back: Seq<char>,
    class: CharClass,
)
    requires
        forall|i: int| 0 <= i < front.len() ==> class.has(#[trigger] front[i]),
        forall|i: int| 0 <= i < back.len() ==> class.has(#[trigger] back[i]),
        middle.len() > 0 ==> !class.has(middle[0]) && !class.has(middle.last()),
    ensures
        trimmed(front + middle + back, class) == middle,
        trimmed_end(middle + back, class) == middle,
        middle.len() > 0 ==> trimmed_start(front + middle, class) == middle,
    decreases front.len(),
{
    let whole = front + middle + back;
    let start = trimmed_start(whole, class);
    let n = whole.len() - start.len();
    lemma_trimmed_start_splits(whole, class);
    lemma_trimmed_start_shorter(whole, class);
    lemma_trimmed_end_splits(start, class);
    let kept = trimmed_end(start, class);
    let m = kept.len();
    lemma_trimmed_end_splits(middle + back, class);
    let tail = trimmed_end(middle + back, class);
    if middle.len() == 0 {
        assert forall|i: int| 0 <= i < whole.len() implies class.has(whole[i]) by {
            if i < front.len() {
                assert(whole[i] == front[i]);
            } else {
                assert(whole[i] == back[i - front.len()]);
            }
        }
        if start.len() > 0 {
            assert(start[0] == whole[n]);
        }
        assert(kept =~= middle);
        if tail.len() > 0 {
            assert((middle + back)[tail.len() - 1] == back[tail.len() - 1]);
        }
        assert(tail =~= middle);
    } else {
        assert(whole[front.len() as int] == middle[0]);
        if n > front.len() {
            assert(class.has(whole[front.len() as int]));
        }
        if n < front.len() {
            assert(start[0] == whole[n]);
            assert(whole[n] == front[n]);
        }
        assert(start =~= middle + back);
        assert(kept == tail);
        let last = middle.len() - 1;
        assert((middle + back)[last] == middle.last());
        if m <= last {
            assert(class.has((middle + back)[last]));
        }
        if m > middle.len() {
            assert((middle + back)[m - 1] == back[m - 1 - middle.len()]);
        }
        assert(kept =~= middle);
        lemma_trimmed_start_splits(front + middle, class);
        lemma_trimmed_start_shorter(front + middle, class);
        let only = trimmed_start(front + middle, class);
        let k = (front + middle).len() - only.len();
        assert((front + middle)[front.len() as int] == middle[0]);
        if k > front.len() {
            assert(class.has((front + middle)[front.len() as int]));
        }
        if k < front.len() {
            assert(only[0] == (front + middle)[k]);
            assert((front + middle)[k] == front[k]);
        }
        assert(only =~= middle);
    }
}

/// Every text is what is left of it by trimming, with characters of the class in front and behind.
pub proof fn law_trimming_loses_nothing_else(text: Seq<char>, class: CharClass)
    ensures
        exists|front: Seq<char>, back: Seq<char>|
            {
                &&& text == #[trigger] (front + trimmed(text, class) + back)
                &&& forall|i: int| 0 <= i < front.len() ==> class.has(#[trigger] front[i])
                &&& forall|i: int| 0 <= i < back.len() ==> class.has(#[trigger] back[i])
            },
        trimmed(text, class).len() > 0 ==> !class.has(trimmed(text, class)[0]) && !class.has(
            trimmed(text, class).last(),
        ),
{
    let start = trimmed_start(text, class);
    lemma_trimmed_start_splits(text, class);
    lemma_trimmed_start_shorter(text, class);
    lemma_trimmed_end_splits(start, class);
    let kept = trimmed(text, class);
    let front = text.take(text.len() - start.len());
    let back = start.skip(kept.len() as int);
    assert(text =~= front + kept + back);
    if kept.len() > 0 {
        assert(kept[0] == start[0]);
        assert(kept.last() == start[kept.len() - 1]);
    }
}

/// An optional text that is blank or missing counts as nothing, and any other as what is left of
/// it by trimming.
pub proof fn law_blank_texts_are_nothing(text: Seq<char>)
    ensures
        non_blank_text(None) is None,
        (forall|i: int| 0 <= i < text.len() ==> is_space(#[trigger] text[i])) ==> non_blank_text(
            Some(text),
        ) is None,
        (exists|i: int| 0 <= i < text.len() && !is_space(#[trigger] text[i])) ==> non_blank_text(
            Some(text),
        ) == Some(trimmed(text, CharClass::Space)),
{
    law_trimming_loses_nothing_else(text, CharClass::Space);
    let kept = trimmed(text, CharClass::Space);
    if forall|i: int| 0 <= i < text.len() ==> is_space(#[trigger] text[i]) {
        law_trimming_cuts_the_ends(text, seq![], seq![], CharClass::Space);
        assert(text + seq![] + seq![] =~= text);
    } else if kept.len() == 0 {
        let (front, back) = choose|front: Seq<char>, back: Seq<char>|
            {
                &&& text == #[trigger] (front + kept + back)
                &&& forall|i: int|
                    0 <= i < front.len() ==> CharClass::Space.has(#[trigger] front[i])
                &&& forall|i: int| 0 <= i < back.len() ==> CharClass::Space.has(#[trigger] back[i])
            };
        let i = choose|i: int| 0 <= i < text.len() && !is_space(#[trigger] text[i]);
        if i < front.len() {
            assert(text[i] == front[i]);
        } else {
            assert(text[i] == back[i - front.len()]);
        }
    }
}

/// A text begins with a prefix where something follows the prefix to make the text, and ends with
/// a suffix where something stands in front of it.
pub proof fn law_prefixes_and_suffixes(text: Seq<char>, part: Seq<char>, other: Seq<char>)
    ensures
        has_prefix(part + other, part),
        (part + other).skip(part.len() as int) == other,
        has_prefix(text, part) ==> text == part + text.skip(part.len() as int),
        has_suffix(other + part, part),
        has_suffix(text, part) ==> text == text.take(text.len() - part.len()) + part,
{
    assert((part + other).take(part.len() as int) =~= part);
    assert((part + other).skip(part.len() as int) =~= other);
    assert((other + part).skip(other.len() as int) =~= part);
    if has_prefix(text, part) {
        assert(text =~= text.take(part.len() as int) + text.skip(part.len() as int));
    }
    if has_suffix(text, part) {
        let n = text.len() - part.len();
        assert(text =~= text.take(n) + text.skip(n));
    }
}

proof fn lemma_words_split(head: Seq<char>, space: char, tail: Seq<char>)
    requires
        is_space(space),
    ensures
        words(head + seq![space] + tail) == words(head) + words(tail),
    decreases head.len(),
{
    let spaced = seq![space] + tail;
    let whole = head + seq![space] + tail;
    assert(whole =~= head + spaced);
    let rest = trimmed_start(head, CharClass::Space);
    lemma_trimmed_start_concat(head, spaced);
    lemma_trimmed_start_shorter(head, CharClass::Space);
    if rest.len() == 0 {
        assert(spaced.drop_first() =~= tail);
        assert(trimmed_start(spaced, CharClass::Space) == trimmed_start(tail, CharClass::Space));
        lemma_words_trimmed(tail);
        lemma_words_trimmed(whole);
        assert(words(head) =~= seq![]);
        assert(words(head) + words(tail) =~= words(tail));
    } else {
        let n = word_len(rest) as int;
        lemma_word_len(rest);
        lemma_word_len_concat(rest, spaced);
        assert((rest + spaced).take(n) =~= rest.take(n));
        assert((rest + spaced).skip(n) =~= rest.skip(n) + seq![space] + tail);
        lemma_words_split(rest.skip(n), space, tail);
        assert(words(whole) =~= words(head) + words(tail));
    }
}

/// White space, and nothing else, parts a text into words: a text without it is one word, the
/// empty text has none, and the words around a white space are those in front and those behind.
pub proof fn law_words_are_parted_by_space(head: Seq<char>, space: char, tail: Seq<char>)
    requires
        is_space(space),
    ensures
        words(seq![]) == Seq::<Seq<char>>::empty(),
        words(head + seq![space] + tail) == words(head) + words(tail),
        head.len() > 0 && (forall|k: int| 0 <= k < head.len() ==> !is_space(#[trigger] head[k]))
            ==> words(head) == seq![head],
{
    assert(words(seq![]) =~= Seq::<Seq<char>>::empty());
    lemma_words_split(head, space, tail);
    if head.len() > 0 && (forall|k: int| 0 <= k < head.len() ==> !is_space(#[trigger] head[k])) {
        lemma_single_word(head);
    }
}

/// The digits of a number, the last of which counts ones, and a minus sign for negative numbers.
pub proof fn law_decimal_notation(n: nat, d: nat, m: int)
    requires
        d < 10,
    ensures
        decimal(d).len() == 1,
        decimal(d)[0] as nat == '0' as nat + d,
        n > 0 ==> decimal(10 * n + d) == decimal(n) + decimal(d),
        m >= 0 ==> decimal_int(m) == decimal(m as nat),
        m < 0 ==> decimal_int(m) == seq!['-'] + decimal((-m) as nat),
{
    if n > 0 {
        assert((10 * n + d) / 10 == n);
        assert((10 * n + d) % 10 == d);
        assert(decimal(10 * n + d) =~= decimal(n) + decimal(d));
    }
}

/// A number up to the limit is read from its digits, with zeros or a plus sign in front or not;
/// a larger number, another character or no digit at all is refused.
pub proof fn law_numbers_are_read(n: nat, zeros: Seq<char>, text: Seq<char>, i: int)
    requires
        forall|k: int| 0 <= k < zeros.len() ==> #[trigger] zeros[k] == '0',
    ensures
        parsed_u16(zeros + decimal(n)) == if n <= 65535 {
            Some(n as u16)
        } else {
            None
        },
        parsed_u16(seq!['+'] + zeros + decimal(n)) == parsed_u16(zeros + decimal(n)),
        parsed_u16(seq![]) is None,
        parsed_u16(seq!['+']) is None,
        0 <= i < text.len() && !('0' <= text[i] <= '9') && !(i == 0 && text[i] == '+')
            ==> parsed_u16(text) is None,
{
    lemma_decimal_read_back(n);
    let digits = zeros + decimal(n);
    lemma_zeros_in_front(zeros, decimal(n));
    assert forall|k: int| 0 <= k < digits.len() implies is_digit(digits[k]) by {
        if k < zeros.len() {
            assert(digits[k] == zeros[k]);
        } else {
            assert(digits[k] == decimal(n)[k - zeros.len()]);
        }
    }
    assert(is_digit(digits[0]));
    assert((seq!['+'] + zeros + decimal(n)).drop_first() =~= digits);
    assert(without_plus(seq!['+']) =~= seq![]);
    if 0 <= i < text.len() && !('0' <= text[i] <= '9') && !(i == 0 && text[i] == '+') {
        let rest = without_plus(text);
        if text[0] == '+' {
            assert(rest[i - 1] == text[i]);
            assert(!is_digit(rest[i - 1]));
        } else {
            assert(!is_digit(rest[i]));
        }
    }
}

proof fn lemma_zeros_in_front(zeros: Seq<char>, digits: Seq<char>)
    requires
        forall|k: int| 0 <= k < zeros.len() ==> #[trigger] zeros[k] == '0',
    ensures
        digits_value(zeros + digits) == digits_value(digits),
    decreases zeros.len() + digits.len(),
{
    let whole = zeros + digits;
    if digits.len() > 0 {
        assert(whole.drop_last() =~= zeros + digits.drop_last());
        lemma_zeros_in_front(zeros, digits.drop_last());
    } else if zeros.len() > 0 {
        assert(whole =~= zeros);
        assert(zeros.drop_last() + digits =~= zeros.drop_last());
        lemma_zeros_in_front(zeros.drop_last(), digits);
        assert(digits_value(digits) == 0);
    } else {
        assert(whole =~= digits);
    }
}

/// Capital letters of ASCII become small ones, each in its place, and nothing else changes.
pub proof fn law_lowering_changes_capitals_only(text: Seq<char>, i: int)
    requires
        0 <= i < text.len(),
    ensures
        lowered(text).len() == text.len(),
        'A' <= text[i] <= 'Z' ==> lowered(text)[i] as int == text[i] as int + ('a' as int
            - 'A' as int),
        !('A' <= text[i] <= 'Z') ==> lowered(text)[i] == text[i],
{
}

/// Joined texts follow one another with one space between neighbours.
pub proof fn law_joined_texts(parts: Seq<Seq<char>>, part: Seq<char>)
    ensures
        joined(seq![]) == Seq::<char>::empty(),
        joined(seq![part]) == part,
        parts.len() > 0 ==> joined(parts.push(part)) == joined(parts).push(' ') + part,
{
    if parts.len() > 0 {
        assert(parts.push(part).drop_last() =~= parts);
        assert(joined(parts) + seq![' '] + part =~= joined(parts).push(' ') + part);
    }
}

} // verus!
