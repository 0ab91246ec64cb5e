//! JSON text: reading values and quoting strings.

use crate::text::is_whitespace;
use vstd::prelude::*;

verus! {

/// A JSON value of `serde_json`. It is carried through, never looked into.
#[verifier::external_type_specification]
#[verifier::external_body]
pub struct ExValue(serde_json::Value);

/// The error of `serde_json`.
#[verifier::external_type_specification]
#[verifier::external_body]
pub struct ExJsonError(serde_json::Error);

/// What `serde_json::from_str` makes of `text`: the value it holds, or the text of the error that
/// says why it holds none.
pub uninterp spec fn parsed_json(text: Seq<char>) -> Result<serde_json::Value, Seq<char>>;

/// `serde_json::from_str` into a `serde_json::Value`, with the error as the text it displays.
/// Both depend on `text` alone; which texts are JSON, and how an error reads, is not said here.
#[verifier::external_body]
pub(crate) fn parse_json(text: &str) -> (r: Result<serde_json::Value, String>)
    ensures
        match r {
            Ok(value) => parsed_json(text@) == Ok::<serde_json::Value, Seq<char>>(value),
            Err(message) => parsed_json(text@) == Err::<serde_json::Value, Seq<char>>(message@),
        },
{
    match serde_json::from_str::<serde_json::Value>(text) {
        Ok(value) => Ok(value),
        Err(e) => Err(e.to_string()),
    }
}

/// The lower-case hexadecimal digit `d`.
pub open spec fn hex_digit(d: int) -> char
    recommends
        0 <= d < 16,
{
    if d < 10 {
        ('0' as int + d) as char
    } else {
        ('a' as int + d - 10) as char
    }
}

/// How a character is written inside a JSON string.
pub open spec fn json_escape(c: char) -> Seq<char> {
    if c == '"' {
        seq!['\\', '"']
    } else if c == '\\' {
        seq!['\\', '\\']
    } else if c == '\u{8}' {
        seq!['\\', 'b']
    } else if c == '\t' {
        seq!['\\', 't']
    } else if c == '\n' {
        seq!['\\', 'n']
    } else if c == '\u{c}' {
        seq!['\\', 'f']
    } else if c == '\r' {
        seq!['\\', 'r']
    } else if ' ' > c {
        seq!['\\', 'u', '0', '0', hex_digit(c as int / 16), hex_digit(c as int % 16)]
    } else {
        seq![c]
    }
}

/// The characters of `text` as they are written inside a JSON string.
pub open spec fn json_escaped(text: Seq<char>) -> Seq<char>
    decreases text.len(),
{
    if text.len() == 0 {
        seq![]
    } else {
        json_escape(text.first()) + json_escaped(text.drop_first())
    }
}

/// `text` as a JSON string, between double quotes.
pub open spec fn json_quoted(text: Seq<char>) -> Seq<char> {
    seq!['"'] + json_escaped(text) + seq!['"']
}

/// `serde_json::to_string` of a string: it never fails, and writes the text between double quotes
/// with the double quote, the backslash and the control characters below the space escaped.
#[verifier::external_body]
pub(crate) fn json_string(text: &str) -> (r: Result<String, serde_json::Error>)
    ensures
        r is Ok,
        r->Ok_0@ == json_quoted(text@),
{
    serde_json::to_string(text)
}

/// The JSON text that a `serde_json::Value` holds, written without spaces or line breaks between
/// its parts.
pub uninterp spec fn json_text(value: serde_json::Value) -> Seq<char>;

/// `text` is on one line, with neither control characters in it nor whitespace around it.
pub open spec fn is_compact(text: Seq<char>) -> bool {
    &&& text.len() > 0
    &&& forall|i: int| 0 <= i < text.len() ==> #[trigger] text[i] >= ' '
    &&& !is_whitespace(text.first())
    &&& !is_whitespace(text.last())
}

/// `serde_json::to_string` of a `serde_json::Value`: it never fails, and writes on one line the
/// JSON text that the value holds, with control characters escaped. How the text reads beyond
/// that is not said here.
#[verifier::external_body]
pub(crate) fn value_string(value: &serde_json::Value) -> (r: Result<String, serde_json::Error>)
    ensures
        r is Ok,
        r->Ok_0@ == json_text(*value),
        is_compact(r->Ok_0@),
{
    serde_json::to_string(value)
}

/// A quoted text stays on one line: it holds no control character below the space.
pub proof fn law_quoted_text_has_no_control_characters(text: Seq<char>)
    ensures
        forall|i: int| 0 <= i < json_quoted(text).len() ==> json_quoted(text)[i] >= ' ',
{
    lemma_escaped_printable(text);
}

proof fn lemma_escape_printable(c: char, i: int)
    requires
        0 <= i < json_escape(c).len(),
    ensures
        json_escape(c)[i] >= ' ',
{
    if json_escape(c).len() > 2 {
        let high = c as int / 16;
        let low = c as int % 16;
        assert(0 <= high < 16 && 0 <= low < 16);
        assert(hex_digit(high) >= '0' && hex_digit(low) >= '0');
        assert(i == 0 || i == 1 || i == 2 || i == 3 || i == 4 || i == 5);
    } else if json_escape(c).len() == 2 {
        assert(i == 0 || i == 1);
    }
}

proof fn lemma_escaped_printable(text: Seq<char>)
    ensures
        forall|i: int| 0 <= i < json_escaped(text).len() ==> json_escaped(text)[i] >= ' ',
    decreases text.len(),
{
    if text.len() > 0 {
        lemma_escaped_printable(text.drop_first());
        let head = json_escape(text.first());
        let rest = json_escaped(text.drop_first());
        assert forall|i: int| 0 <= i < json_escaped(text).len() implies json_escaped(text)[i]
            >= ' ' by {
            if i < head.len() {
                assert(json_escaped(text)[i] == head[i]);
                lemma_escape_printable(text.first(), i);
            } else {
                assert(json_escaped(text)[i] == rest[i - head.len()]);
            }
        }
    }
}

/// Two texts that are quoted alike are the same text.
pub proof fn law_quoting_loses_nothing(a: Seq<char>, b: Seq<char>)
    requires
        json_quoted(a) == json_quoted(b),
    ensures
        a == b,
{
    let qa = json_quoted(a);
    let qb = json_quoted(b);
    assert(json_escaped(a) =~= qa.subrange(1, qa.len() - 1));
    assert(json_escaped(b) =~= qb.subrange(1, qb.len() - 1));
    lemma_escaped_injective(a, b);
}

proof fn lemma_escaped_injective(a: Seq<char>, b: Seq<char>)
    requires
        json_escaped(a) == json_escaped(b),
    ensures
        a == b,
    decreases a.len(),
{
    let ea = json_escaped(a);
    if a.len() > 0 && b.len() > 0 {
        let ha = json_escape(a.first());
        let hb = json_escape(b.first());
        let ra = json_escaped(a.drop_first());
        let rb = json_escaped(b.drop_first());
        assert(ea == ha + ra);
        assert(ea == hb + rb);
        assert forall|i: int| 0 <= i < ha.len() implies ea[i] == ha[i] by {}
        assert forall|i: int| 0 <= i < hb.len() implies ea[i] == hb[i] by {}
        lemma_escape_prefix_free(a.first(), b.first(), ea);
        assert(ra =~= ea.skip(ha.len() as int));
        assert(rb =~= ea.skip(hb.len() as int));
        lemma_escaped_injective(a.drop_first(), b.drop_first());
        assert(a =~= seq![a.first()] + a.drop_first());
        assert(b =~= seq![b.first()] + b.drop_first());
    } else if a.len() > 0 {
        assert(ea.len() > 0);
    } else if b.len() > 0 {
        assert(json_escaped(b).len() > 0);
    }
}

/// The written form of a character tells which character it is.
proof fn lemma_escape_prefix_free(a: char, b: char, s: Seq<char>)
    requires
        json_escape(a).len() <= s.len(),
        json_escape(b).len() <= s.len(),
        forall|i: int| 0 <= i < json_escape(a).len() ==> s[i] == #[trigger] json_escape(a)[i],
        forall|i: int| 0 <= i < json_escape(b).len() ==> s[i] == #[trigger] json_escape(b)[i],
    ensures
        a == b,
{
    let ea = json_escape(a);
    let eb = json_escape(b);
    assert(s[0] == ea[0] && s[0] == eb[0]);
    if ea.len() > 1 && eb.len() > 1 {
        assert(s[1] == ea[1] && s[1] == eb[1]);
        if ea.len() > 2 && eb.len() > 2 {
            assert(s[4] == ea[4] && s[4] == eb[4]);
            assert(s[5] == ea[5] && s[5] == eb[5]);
            assert(a as int == 16 * (a as int / 16) + a as int % 16);
            assert(b as int == 16 * (b as int / 16) + b as int % 16);
        }
    }
}

/// A text is quoted character by character.
pub proof fn law_quoting_goes_by_character(a: Seq<char>, b: Seq<char>)
    ensures
        json_escaped(a + b) == json_escaped(a) + json_escaped(b),
    decreases a.len(),
{
    if a.len() == 0 {
        assert(a + b =~= b);
        assert(json_escaped(a) + json_escaped(b) =~= json_escaped(b));
    } else {
        assert((a + b).first() == a.first());
        assert((a + b).drop_first() =~= a.drop_first() + b);
        law_quoting_goes_by_character(a.drop_first(), b);
        assert(json_escaped(a + b) =~= json_escaped(a) + json_escaped(b));
    }
}

/// A text without control characters, double quotes and backslashes stands between the quotes as
/// it is.
pub proof fn law_plain_text_is_quoted_as_it_is(text: Seq<char>)
    requires
        forall|i: int|
            0 <= i < text.len() ==> #[trigger] text[i] as int >= 32 && text[i] != '"' && text[i]
                != '\\',
    ensures
        json_quoted(text) == seq!['"'] + text + seq!['"'],
{
    lemma_plain_text_is_escaped_as_it_is(text);
}

proof fn lemma_plain_text_is_escaped_as_it_is(text: Seq<char>)
    requires
        forall|i: int|
            0 <= i < text.len() ==> #[trigger] text[i] as int >= 32 && text[i] != '"' && text[i]
                != '\\',
    ensures
        json_escaped(text) == text,
    decreases text.len(),
{
    if text.len() > 0 {
        let rest = text.drop_first();
        assert(text[0] as int >= 32);
        assert forall|i: int| 0 <= i < rest.len() implies #[trigger] rest[i] as int >= 32 && rest[i]
            != '"' && rest[i] != '\\' by {
            assert(rest[i] == text[i + 1]);
        }
        lemma_plain_text_is_escaped_as_it_is(rest);
        assert(json_escape(text.first()) == seq![text.first()]);
        assert(json_escaped(text) =~= text);
    } else {
        assert(json_escaped(text) =~= text);
    }
}

/// A double quote or a backslash is written behind a backslash; a control character is written as
/// a backslash and a letter, which is followed by four digits if it is a `u`.
pub proof fn law_special_characters_are_escaped(c: char)
    ensures
        c == '"' || c == '\\' ==> json_escape(c) == seq!['\\', c],
        (c as int) < 32 ==> {
            &&& json_escape(c)[0] == '\\'
            &&& 'a' <= json_escape(c)[1] <= 'z'
            &&& json_escape(c).len() == if json_escape(c)[1] == 'u' {
                6int
            } else {
                2int
            }
        },
{
}

} // verus!
