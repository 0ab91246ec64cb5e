//! Text helpers shared by the other modules.

use vstd::prelude::*;

verus! {

/// The characters with the Unicode property `White_Space`.
pub open spec fn is_whitespace(c: char) -> bool {
    ||| '\u{9}' <= c <= '\u{d}'
    ||| c == ' '
    ||| c == '\u{85}'
    ||| c == '\u{a0}'
    ||| c == '\u{1680}'
    ||| '\u{2000}' <= c <= '\u{200a}'
    ||| c == '\u{2028}'
    ||| c == '\u{2029}'
    ||| c == '\u{202f}'
    ||| c == '\u{205f}'
    ||| c == '\u{3000}'
}

/// `s` without the whitespace at its start.
pub open spec fn trim_start(s: Seq<char>) -> Seq<char>
    decreases s.len(),
{
    if s.len() > 0 && is_whitespace(s.first()) {
        trim_start(s.drop_first())
    } else {
        s
    }
}

/// `s` without the whitespace at its end.
pub open spec fn trim_end(s: Seq<char>) -> Seq<char>
    decreases s.len(),
{
    if s.len() > 0 && is_whitespace(s.last()) {
        trim_end(s.drop_last())
    } else {
        s
    }
}

/// `s` without the whitespace around it.
pub open spec fn trimmed(s: Seq<char>) -> Seq<char> {
    trim_end(trim_start(s))
}

/// Every character of `s` is whitespace.
pub open spec fn is_blank(s: Seq<char>) -> bool {
    forall|i: int| 0 <= i < s.len() ==> is_whitespace(#[trigger] s[i])
}

fn check_whitespace(c: char) -> (r: bool)
    ensures
        r == is_whitespace(c),
{
    ('\u{9}' <= c && c <= '\u{d}') || c == ' ' || c == '\u{85}' || c == '\u{a0}' || c
        == '\u{1680}' || ('\u{2000}' <= c && c <= '\u{200a}') || c == '\u{2028}' || c
        == '\u{2029}' || c == '\u{202f}' || c == '\u{205f}' || c == '\u{3000}'
}

/// The characters of `s`, one by one.
fn characters(s: &str) -> (v: Vec<char>)
    ensures
        v@ == s@,
{
    let mut v: Vec<char> = Vec::new();
    for c in it: s.chars()
        invariant
            v@ == it.seq().take(it.index()),
            it.seq() == s@,
    {
        v.push(c);
    }
    v
}

/// The text without the whitespace around it.
pub fn trim(s: &str) -> (r: &str)
    ensures
        r@ == trimmed(s@),
{
    let cs = characters(s);
    let n: usize = cs.len();
    let mut start: usize = 0;
    assert(s@.skip(0) =~= s@);
    while start < n && check_whitespace(cs[start])
        invariant
            start <= n,
            n == cs@.len(),
            cs@ == s@,
            trim_start(s@) == trim_start(s@.skip(start as int)),
        decreases n - start,
    {
        assert(s@.skip(start as int).drop_first() =~= s@.skip(start + 1));
        start = start + 1;
    }
    assert(trim_start(s@) == s@.skip(start as int));
    let mut end: usize = n;
    assert(s@.subrange(start as int, end as int) =~= s@.skip(start as int));
    while end > start && check_whitespace(cs[end - 1])
        invariant
            start <= end <= n,
            n == cs@.len(),
            cs@ == s@,
            trimmed(s@) == trim_end(s@.subrange(start as int, end as int)),
        decreases end,
    {
        assert(s@.subrange(start as int, end as int).drop_last() =~= s@.subrange(
            start as int,
            end - 1,
        ));
        end = end - 1;
    }
    s.substring_char(start, end)
}

/// Whitespace around a text does not change what is left of it when it is trimmed.
pub proof fn law_padding_is_trimmed(before: Seq<char>, s: Seq<char>, after: Seq<char>)
    requires
        is_blank(before),
        is_blank(after),
    ensures
        trimmed(before + s + after) == trimmed(s),
{
    assert(before + s + after =~= before + (s + after));
    lemma_trim_start_padded(before, s + after);
    if is_blank(s) {
        lemma_trim_start_padded(s, after);
        lemma_trim_start_padded(after, Seq::empty());
        lemma_trim_start_padded(s, Seq::empty());
        assert(after + Seq::<char>::empty() =~= after);
        assert(s + Seq::<char>::empty() =~= s);
    } else {
        lemma_trim_start_keeps_end(s, after);
        lemma_trim_end_padded(trim_start(s), after);
    }
}

/// A text is left empty by trimming if and only if it is blank.
pub proof fn law_blank_text_is_trimmed_away(s: Seq<char>)
    ensures
        trimmed(s).len() == 0 <==> is_blank(s),
{
    if is_blank(s) {
        lemma_trim_start_padded(s, Seq::empty());
        assert(s + Seq::<char>::empty() =~= s);
    } else {
        lemma_trim_start_keeps_end(s, Seq::empty());
        lemma_trim_end_nonempty(trim_start(s));
    }
}

proof fn lemma_trim_start_padded(before: Seq<char>, s: Seq<char>)
    requires
        is_blank(before),
    ensures
        trim_start(before + s) == trim_start(s),
    decreases before.len(),
{
    if before.len() > 0 {
        assert((before + s).first() == before[0]);
        assert((before + s).drop_first() =~= before.drop_first() + s);
        assert forall|i: int| 0 <= i < before.drop_first().len() implies is_whitespace(
            #[trigger] before.drop_first()[i],
        ) by {
            assert(before.drop_first()[i] == before[i + 1]);
        }
        lemma_trim_start_padded(before.drop_first(), s);
    } else {
        assert(before + s =~= s);
    }
}

proof fn lemma_trim_end_padded(s: Seq<char>, after: Seq<char>)
    requires
        is_blank(after),
    ensures
        trim_end(s + after) == trim_end(s),
    decreases after.len(),
{
    if after.len() > 0 {
        assert((s + after).last() == after[after.len() - 1]);
        assert((s + after).drop_last() =~= s + after.drop_last());
        assert forall|i: int| 0 <= i < after.drop_last().len() implies is_whitespace(
            #[trigger] after.drop_last()[i],
        ) by {
            assert(after.drop_last()[i] == after[i]);
        }
        lemma_trim_end_padded(s, after.drop_last());
    } else {
        assert(s + after =~= s);
    }
}

/// The start of a text that is not blank is trimmed the same whatever follows, and what is left
/// begins with a character that is not whitespace.
proof fn lemma_trim_start_keeps_end(s: Seq<char>, after: Seq<char>)
    requires
        !is_blank(s),
    ensures
        trim_start(s + after) == trim_start(s) + after,
        trim_start(s).len() > 0,
        !is_whitespace(trim_start(s).first()),
    decreases s.len(),
{
    assert((s + after).first() == s.first());
    if is_whitespace(s.first()) {
        assert((s + after).drop_first() =~= s.drop_first() + after);
        assert(!is_blank(s.drop_first())) by {
            let k = choose|i: int| 0 <= i < s.len() && !is_whitespace(#[trigger] s[i]);
            assert(s.drop_first()[k - 1] == s[k]);
        }
        lemma_trim_start_keeps_end(s.drop_first(), after);
    }
}

proof fn lemma_trim_end_nonempty(s: Seq<char>)
    requires
        s.len() > 0,
        !is_whitespace(s.first()),
    ensures
        trim_end(s).len() > 0,
    decreases s.len(),
{
    if is_whitespace(s.last()) {
        assert(s.drop_last().first() == s.first());
        lemma_trim_end_nonempty(s.drop_last());
    }
}

/// What `String::from_utf8_lossy` makes of `bytes`.
pub uninterp spec fn utf8_lossy(bytes: Seq<u8>) -> Seq<char>;

/// `String::from_utf8_lossy` of the standard library: the text that `bytes` hold in UTF-8, whatever
/// they are. Bytes that are UTF-8 throughout give just the text they encode; what stands for the
/// others is not said here.
#[verifier::external_body]
pub(crate) fn lossy_text(bytes: &[u8]) -> (r: String)
    ensures
        r@ == utf8_lossy(bytes@),
        vstd::utf8::valid_utf8(bytes@) ==> r@ == vstd::utf8::decode_utf8(bytes@),
{
    String::from_utf8_lossy(bytes).into_owned()
}

/// Whether two texts are the same, character by character.
pub fn same_text(a: &str, b: &str) -> (r: bool)
    ensures
        r == (a@ == b@),
{
    a.to_owned() == b.to_owned()
}

/// The decimal digit `d`.
pub open spec fn digit(d: nat) -> char
    recommends
        d < 10,
{
    (('0' as nat) + d) as char
}

/// `n` in decimal, without leading zeros.
pub open spec fn decimal(n: nat) -> Seq<char>
    decreases n,
{
    if n < 10 {
        seq![digit(n)]
    } else {
        decimal(n / 10).push(digit(n % 10))
    }
}

/// The text of the decimal digit `d`.
fn digit_text(d: usize) -> (r: &'static str)
    requires
        d < 10,
    ensures
        r@ == seq![digit(d as nat)],
{
    proof {
        reveal_strlit("0");
        reveal_strlit("1");
        reveal_strlit("2");
        reveal_strlit("3");
        reveal_strlit("4");
        reveal_strlit("5");
        reveal_strlit("6");
        reveal_strlit("7");
        reveal_strlit("8");
        reveal_strlit("9");
    }
    match d {
        0 => "0",
        1 => "1",
        2 => "2",
        3 => "3",
        4 => "4",
        5 => "5",
        6 => "6",
        7 => "7",
        8 => "8",
        _ => "9",
    }
}

/// Writes `n` in decimal.
pub fn decimal_text(n: usize) -> (r: String)
    ensures
        r@ == decimal(n as nat),
    decreases n,
{
    if n < 10 {
        digit_text(n).to_owned()
    } else {
        decimal_text(n / 10).concat(digit_text(n % 10))
    }
}

/// The part of a file name in front of its extension: what stands before the last dot, or the
/// whole name if it has no dot but perhaps one at its start.
pub open spec fn file_stem(name: Seq<char>) -> Seq<char> {
    if exists|k: int| is_extension_dot(name, k) {
        name.take(choose|k: int| is_extension_dot(name, k))
    } else {
        name
    }
}

/// Position `k` holds the last dot of `name` and something stands before it.
pub open spec fn is_extension_dot(name: Seq<char>, k: int) -> bool {
    &&& 0 < k < name.len()
    &&& name[k] == '.'
    &&& forall|j: int| k < j < name.len() ==> name[j] != '.'
}

/// The part of the file name `name` in front of its extension.
pub fn stem_of(name: &str) -> (r: &str)
    ensures
        r@ == file_stem(name@),
{
    let mut k: usize = name.unicode_len();
    while k > 1
        invariant
            k <= name@.len(),
            forall|j: int| k <= j < name@.len() ==> name@[j] != '.',
        decreases k,
    {
        k = k - 1;
        if name.get_char(k) == '.' {
            assert(is_extension_dot(name@, k as int));
            return name.substring_char(0, k);
        }
    }
    name
}

/// Whitespace is told by its code point.
pub proof fn law_whitespace_code_points(c: char)
    ensures
        is_whitespace(c) <==> {
            let u = c as u32;
            ||| 9 <= u <= 13
            ||| u == 32
            ||| u == 133
            ||| u == 160
            ||| u == 5760
            ||| 8192 <= u <= 8202
            ||| u == 8232
            ||| u == 8233
            ||| u == 8239
            ||| u == 8287
            ||| u == 12288
        },
{
}

/// What trimming leaves is the inside of the text: only whitespace is taken from either side, and
/// none is left there.
pub proof fn law_trimming_leaves_the_inside(s: Seq<char>)
    ensures
        exists|before: Seq<char>, after: Seq<char>|
            {
                &&& s == #[trigger] (before + trimmed(s) + after)
                &&& forall|i: int| 0 <= i < before.len() ==> is_whitespace(#[trigger] before[i])
                &&& forall|i: int| 0 <= i < after.len() ==> is_whitespace(#[trigger] after[i])
            },
        trimmed(s).len() > 0 ==> !is_whitespace(trimmed(s)[0]) && !is_whitespace(
            trimmed(s)[trimmed(s).len() - 1],
        ),
{
    let before = lemma_trim_start_splits(s);
    let after = lemma_trim_end_splits(trim_start(s));
    assert(s =~= before + trimmed(s) + after);
}

/// A text that neither begins nor ends with whitespace is what is left of it when whitespace is put
/// around it and trimmed away again.
pub proof fn law_inside_is_what_trimming_leaves(
    before: Seq<char>,
    text: Seq<char>,
    after: Seq<char>,
)
    requires
        forall|i: int| 0 <= i < before.len() ==> is_whitespace(#[trigger] before[i]),
        forall|i: int| 0 <= i < after.len() ==> is_whitespace(#[trigger] after[i]),
        text.len() > 0,
        !is_whitespace(text[0]),
        !is_whitespace(text[text.len() - 1]),
    ensures
        trimmed(before + text + after) == text,
{
    law_padding_is_trimmed(before, text, after);
    assert(trim_start(text) == text);
    assert(trim_end(text) == text);
}

proof fn lemma_trim_start_splits(s: Seq<char>) -> (before: Seq<char>)
    ensures
        s == before + trim_start(s),
        is_blank(before),
        trim_start(s).len() > 0 ==> !is_whitespace(trim_start(s)[0]),
    decreases s.len(),
{
    if s.len() > 0 && is_whitespace(s.first()) {
        let rest = lemma_trim_start_splits(s.drop_first());
        let before = seq![s.first()] + rest;
        assert(s =~= seq![s.first()] + s.drop_first());
        assert(before + trim_start(s) =~= seq![s.first()] + (rest + trim_start(s)));
        before
    } else {
        assert(s =~= Seq::<char>::empty() + s);
        Seq::empty()
    }
}

proof fn lemma_trim_end_splits(s: Seq<char>) -> (after: Seq<char>)
    ensures
        s == trim_end(s) + after,
        is_blank(after),
        trim_end(s).len() > 0 ==> !is_whitespace(trim_end(s)[trim_end(s).len() - 1]),
        trim_end(s).len() > 0 ==> trim_end(s)[0] == s[0],
    decreases s.len(),
{
    if s.len() > 0 && is_whitespace(s.last()) {
        let rest = lemma_trim_end_splits(s.drop_last());
        let after = rest.push(s.last());
        assert(s =~= s.drop_last().push(s.last()));
        assert(trim_end(s) + after =~= (trim_end(s) + rest).push(s.last()));
        after
    } else {
        assert(s =~= s + Seq::<char>::empty());
        Seq::empty()
    }
}

/// The number that a row of decimal digits stands for.
pub open spec fn decimal_value(s: Seq<char>) -> int
    decreases s.len(),
{
    if s.len() == 0 {
        0
    } else {
        10 * decimal_value(s.drop_last()) + (s.last() as int - '0' as int)
    }
}

/// A number in decimal is a row of digits that stands for it, and begins with a zero only if it is
/// zero.
pub proof fn law_decimal_stands_for_the_number(n: nat)
    ensures
        decimal_value(decimal(n)) == n,
        decimal(n).len() > 0,
        forall|i: int| 0 <= i < decimal(n).len() ==> '0' <= #[trigger] decimal(n)[i] <= '9',
        decimal(n)[0] == '0' <==> n == 0,
        n > 0 || decimal(n).len() == 1,
    decreases n,
{
    if n < 10 {
        let s = decimal(n);
        assert(s.drop_last() =~= Seq::<char>::empty());
        assert(decimal_value(s.drop_last()) == 0);
        assert(s.last() == digit(n));
    } else {
        law_decimal_stands_for_the_number(n / 10);
        let s = decimal(n);
        assert(s.drop_last() =~= decimal(n / 10));
        assert(s.last() == digit(n % 10));
        assert(s[0] == decimal(n / 10)[0]);
        assert forall|i: int| 0 <= i < s.len() implies '0' <= #[trigger] s[i] <= '9' by {
            if i < s.len() - 1 {
                assert(s[i] == decimal(n / 10)[i]);
            }
        }
    }
}

/// The stem of a file name is what stands before its last dot, if anything does.
pub proof fn law_stem_stands_before_the_extension(stem: Seq<char>, extension: Seq<char>)
    requires
        stem.len() > 0,
        forall|i: int| 0 <= i < extension.len() ==> #[trigger] extension[i] != '.',
    ensures
        file_stem(stem + seq!['.'] + extension) == stem,
{
    let name = stem + seq!['.'] + extension;
    let n = stem.len() as int;
    assert forall|j: int| n < j < name.len() implies name[j] != '.' by {
        assert(name[j] == extension[j - n - 1]);
    }
    assert(is_extension_dot(name, n));
    let k = choose|k: int| is_extension_dot(name, k);
    assert(k == n) by {
        if k < n {
            assert(name[n] == '.');
        }
    }
    assert(name.take(n) =~= stem);
}

/// A file name without a dot behind its first character is its own stem.
pub proof fn law_name_without_extension_is_its_stem(name: Seq<char>)
    requires
        forall|i: int| 1 <= i < name.len() ==> #[trigger] name[i] != '.',
    ensures
        file_stem(name) == name,
{
}

} // verus!
