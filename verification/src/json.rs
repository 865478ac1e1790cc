//! JSON: reading values out of a document, and writing literals.
use crate::text::decimal_text;
use vstd::prelude::*;

verus! {

#[verifier::external_type_specification]
#[verifier::external_body]
pub struct ExJsonValue(serde_json::Value);

#[verifier::external_type_specification]
#[verifier::external_body]
pub struct ExJsonError(serde_json::Error);

/// The strings in a JSON value, each under the JSON Pointer that leads to it.
pub uninterp spec fn json_strings(value: serde_json::Value) -> Map<Seq<char>, Seq<char>>;

/// The integers in a JSON value that fit in 64 bits with a sign, each under the JSON Pointer that
/// leads to it.
pub uninterp spec fn json_integers(value: serde_json::Value) -> Map<Seq<char>, i64>;

/// The strings and the integers of the JSON document that a text writes down; `None` where the
/// text is no JSON document.
pub uninterp spec fn parsed_json(text: Seq<char>) -> Option<
    (Map<Seq<char>, Seq<char>>, Map<Seq<char>, i64>),
>;

/// `serde_json::from_str`, into a `Value`: what the value holds is decided by the text alone.
#[verifier::external_body]
pub(crate) fn parse_json(text: &str) -> (value: Option<serde_json::Value>)
    ensures
        parsed_json(text@) == match value {
            Some(v) => Some((json_strings(v), json_integers(v))),
            None => None,
        },
{
    serde_json::from_str::<serde_json::Value>(text).ok()
}

/// `Value::pointer` and `Value::as_str`: the string that a JSON Pointer leads to, where it leads
/// to a string.
#[verifier::external_body]
pub(crate) fn string_at(value: &serde_json::Value, pointer: &str) -> (text: Option<String>)
    ensures
        text.deep_view() == json_strings(*value).get(pointer@),
{
    value.pointer(pointer).and_then(serde_json::Value::as_str).map(str::to_string)
}

/// `Value::pointer` and `Value::as_i64`: the integer that a JSON Pointer leads to, where it leads
/// to an integer that fits.
#[verifier::external_body]
pub(crate) fn integer_at(value: &serde_json::Value, pointer: &str) -> (number: Option<i64>)
    ensures
        number == json_integers(*value).get(pointer@),
{
    value.pointer(pointer).and_then(serde_json::Value::as_i64)
}

/// The hexadecimal digit for a number below 16.
pub open spec fn hex_digit(n: nat) -> char {
    if n < 10 {
        (0x30 + n) as u8 as char
    } else {
        (0x57 + n) as u8 as char
    }
}

/// How a character stands inside a JSON string literal.
pub open spec fn escaped_char(c: char) -> Seq<char> {
    if c == '"' || c == '\\' {
        seq!['\\', c]
    } else if c == '\u{8}' {
        seq!['\\', 'b']
    } else if c == '\u{9}' {
        seq!['\\', 't']
    } else if c == '\u{a}' {
        seq!['\\', 'n']
    } else if c == '\u{c}' {
        seq!['\\', 'f']
    } else if c == '\u{d}' {
        seq!['\\', 'r']
    } else if (c as u32) < 0x20 {
        seq!['\\', 'u', '0', '0', hex_digit(c as nat / 16), hex_digit(c as nat % 16)]
    } else {
        seq![c]
    }
}

/// How a text stands inside a JSON string literal.
pub open spec fn escaped(text: Seq<char>) -> Seq<char>
    decreases text.len(),
{
    if text.len() == 0 {
        seq![]
    } else {
        escaped(text.drop_last()) + escaped_char(text.last())
    }
}

/// A text as a JSON string literal.
pub open spec fn quoted(text: Seq<char>) -> Seq<char> {
    seq!['"'] + escaped(text) + seq!['"']
}

/// `serde_json::to_string`, of a text. It fails only where a value's own serialization fails or
/// for a map whose keys are no strings, which a text cannot; and it writes the string literal
/// with the shortest escapes, lower-case hexadecimal digits, and none for characters beyond the
/// control characters, the quotation mark and the backslash.
#[verifier::external_body]
pub(crate) fn json_string(text: &str) -> (literal: Result<String, serde_json::Error>)
    ensures
        literal is Ok,
        literal->Ok_0@ == quoted(text@),
{
    serde_json::to_string(text)
}

/// `text` as a JSON string literal; `fallback` should it not be possible to write one.
pub fn string_literal(text: &str, fallback: &str) -> (literal: String)
    ensures
        literal@ == quoted(text@),
{
    match json_string(text) {
        Ok(literal) => literal,
        Err(_) => fallback.to_owned(),
    }
}

/// An optional number as a JSON literal.
pub open spec fn number_or_null(number: Option<i64>) -> Seq<char> {
    match number {
        Some(n) => crate::text::decimal_int(n as int),
        None => "null"@,
    }
}

pub fn number_literal(number: Option<i64>) -> (literal: String)
    ensures
        literal@ == number_or_null(number),
{
    match number {
        Some(n) => decimal_text(n),
        None => "null".to_owned(),
    }
}

/// An optional text as a JSON literal.
pub open spec fn quoted_or_null(text: Option<Seq<char>>) -> Seq<char> {
    match text {
        Some(t) => quoted(t),
        None => "null"@,
    }
}

pub fn optional_literal(text: Option<&str>) -> (literal: String)
    ensures
        literal@ == quoted_or_null(text.deep_view()),
{
    match text {
        Some(t) => string_literal(t, "null"),
        None => "null".to_owned(),
    }
}

pub open spec fn is_control(c: char) -> bool {
    (c as u32) < 0x20
}

/// No control character stands in a string literal: it never runs over the end of a line.
pub proof fn law_literals_stay_on_their_line(text: Seq<char>)
    ensures
        forall|i: int| 0 <= i < quoted(text).len() ==> !is_control(#[trigger] quoted(text)[i]),
{
    lemma_escaped_has_no_control(text);
    assert forall|i: int| 0 <= i < quoted(text).len() implies !is_control(
        #[trigger] quoted(text)[i],
    ) by {
        if 0 < i <= escaped(text).len() {
            assert(quoted(text)[i] == escaped(text)[i - 1]);
        }
    }
}

proof fn lemma_escape_has_no_control(c: char)
    ensures
        forall|i: int|
            0 <= i < escaped_char(c).len() ==> !is_control(#[trigger] escaped_char(c)[i]),
{
    if is_control(c) {
        assert(c as nat / 16 < 2);
        assert(c as nat % 16 < 16);
        assert(!is_control(hex_digit(c as nat / 16)));
        assert(!is_control(hex_digit(c as nat % 16)));
    }
}

proof fn lemma_escaped_has_no_control(text: Seq<char>)
    ensures
        forall|i: int| 0 <= i < escaped(text).len() ==> !is_control(#[trigger] escaped(text)[i]),
    decreases text.len(),
{
    if text.len() > 0 {
        lemma_escaped_has_no_control(text.drop_last());
        let front = escaped(text.drop_last());
        let c = text.last();
        let back = escaped_char(c);
        lemma_escape_has_no_control(c);
        assert forall|i: int| 0 <= i < escaped(text).len() implies !is_control(
            #[trigger] escaped(text)[i],
        ) by {
            if i < front.len() {
                assert(escaped(text)[i] == front[i]);
            } else {
                assert(escaped(text)[i] == back[i - front.len()]);
            }
        }
    }
}

/// The number that a hexadecimal digit stands for.
pub open spec fn hex_value(digit: char) -> int {
    if '0' <= digit <= '9' {
        digit as int - 0x30
    } else {
        digit as int - 0x57
    }
}

/// The character that stands at the front of the inside of a string literal, and the number of
/// characters that it is written with; `None` where no character stands there.
pub open spec fn front_char(rest: Seq<char>) -> Option<(char, int)> {
    if rest.len() == 0 || rest[0] == '"' {
        None
    } else if rest[0] != '\\' {
        Some((rest[0], 1))
    } else if rest.len() < 2 {
        None
    } else if rest[1] == 'u' {
        if rest.len() < 6 {
            None
        } else {
            let code = 4096 * hex_value(rest[2]) + 256 * hex_value(rest[3]) + 16 * hex_value(
                rest[4],
            ) + hex_value(rest[5]);
            Some((code as char, 6))
        }
    } else if rest[1] == 'b' {
        Some(('\u{8}', 2))
    } else if rest[1] == 't' {
        Some(('\u{9}', 2))
    } else if rest[1] == 'n' {
        Some(('\u{a}', 2))
    } else if rest[1] == 'f' {
        Some(('\u{c}', 2))
    } else if rest[1] == 'r' {
        Some(('\u{d}', 2))
    } else {
        Some((rest[1], 2))
    }
}

/// Reads the inside of a string literal up to its closing quotation mark: the text that it stands
/// for, and what comes behind it.
pub open spec fn read_inside(rest: Seq<char>) -> Option<(Seq<char>, Seq<char>)>
    decreases rest.len(),
{
    match front_char(rest) {
        Some((c, n)) => if 0 < n <= rest.len() {
            match read_inside(rest.skip(n)) {
                Some((text, behind)) => Some((seq![c] + text, behind)),
                None => None,
            }
        } else {
            None
        },
        None => if rest.len() > 0 && rest[0] == '"' {
            Some((seq![], rest.skip(1)))
        } else {
            None
        },
    }
}

/// Reads the string literal that a text begins with: the text that it stands for, and what comes
/// behind it.
pub open spec fn read_literal(text: Seq<char>) -> Option<(Seq<char>, Seq<char>)> {
    if text.len() > 0 && text[0] == '"' {
        read_inside(text.skip(1))
    } else {
        None
    }
}

proof fn lemma_front_char(c: char, behind: Seq<char>)
    ensures
        front_char(escaped_char(c) + behind) == Some((c, escaped_char(c).len() as int)),
        (escaped_char(c) + behind).skip(escaped_char(c).len() as int) == behind,
{
    assert((escaped_char(c) + behind).skip(escaped_char(c).len() as int) =~= behind);
    let rest = escaped_char(c) + behind;
    assert(rest[0] == escaped_char(c)[0]);
    if escaped_char(c).len() > 1 {
        assert(rest[1] == escaped_char(c)[1]);
    }
    if escaped_char(c).len() == 6 {
        assert(rest[2] == '0' && rest[3] == '0');
        let n = c as nat;
        assert(n / 16 < 2 && n % 16 < 16);
        assert(rest[4] == hex_digit(n / 16));
        assert(rest[5] == hex_digit(n % 16));
        assert(hex_value(hex_digit(n / 16)) == n / 16);
        assert(hex_value(hex_digit(n % 16)) == n % 16);
    }
}

proof fn lemma_read_inside(text: Seq<char>, behind: Seq<char>)
    ensures
        read_inside(escaped(text) + behind) == match read_inside(behind) {
            Some((more, rest)) => Some((text + more, rest)),
            None => None,
        },
    decreases text.len(),
{
    if text.len() == 0 {
        assert(escaped(text) + behind =~= behind);
        match read_inside(behind) {
            Some((more, rest)) => {
                assert(text + more =~= more);
            },
            None => {},
        }
    } else {
        let front = text.drop_last();
        let c = text.last();
        let tail = escaped_char(c) + behind;
        assert(escaped(text) + behind =~= escaped(front) + tail);
        lemma_read_inside(front, tail);
        lemma_front_char(c, behind);
        match read_inside(behind) {
            Some((more, rest)) => {
                assert(front + (seq![c] + more) =~= text + more);
            },
            None => {},
        }
    }
}

/// A text is read back from its literal as it was, whatever comes behind: the literal ends at its
/// own closing quotation mark and at no other.
pub proof fn law_literals_are_read_back(text: Seq<char>, behind: Seq<char>)
    ensures
        read_literal(quoted(text) + behind) == Some((text, behind)),
{
    let inside = seq!['"'] + behind;
    assert((quoted(text) + behind).skip(1) =~= escaped(text) + inside);
    lemma_read_inside(text, inside);
    assert(inside.skip(1) =~= behind);
    assert(read_inside(inside) == Some((Seq::<char>::empty(), behind)));
    assert(text + Seq::<char>::empty() =~= text);
}

/// A literal stands between quotation marks, and a text without a quotation mark, a backslash or
/// a control character stands there as it is.
pub proof fn law_plain_texts_stay_plain(text: Seq<char>)
    requires
        forall|i: int|
            0 <= i < text.len() ==> (#[trigger] text[i]) != '"' && text[i] != '\\' && text[i] as u32
                >= 0x20,
    ensures
        quoted(text) == seq!['"'] + text + seq!['"'],
    decreases text.len(),
{
    if text.len() > 0 {
        let front = text.drop_last();
        assert(forall|i: int| 0 <= i < front.len() ==> front[i] == text[i]);
        assert(text.last() == text[text.len() - 1]);
        law_plain_texts_stay_plain(front);
        assert(quoted(front).len() == front.len() + 2);
        assert(escaped(front) =~= front) by {
            assert(quoted(front).subrange(1, escaped(front).len() as int + 1) =~= escaped(front));
            assert((seq!['"'] + front + seq!['"']).subrange(1, front.len() as int + 1) =~= front);
        }
        assert(escaped(text) =~= text);
    } else {
        assert(escaped(text) =~= text);
    }
}

/// A number is written with its digits and a text as its literal; what is missing is written as
/// `null`.
pub proof fn law_missing_values_are_null(n: i64, text: Seq<char>)
    ensures
        number_or_null(None) == "null"@,
        n >= 0 ==> number_or_null(Some(n)) == crate::text::decimal(n as nat),
        n < 0 ==> number_or_null(Some(n)) == seq!['-'] + crate::text::decimal((-n) as nat),
        quoted_or_null(None) == "null"@,
        quoted_or_null(Some(text)) == quoted(text),
{
}

} // verus!
