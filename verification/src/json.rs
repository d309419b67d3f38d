//! JSON string escaping, as used for MQTT payloads and JSONL sink records, and
//! the JSON values that provider records carry.
use vstd::prelude::*;

use crate::text::{chars_of, hex_char, hex_digit, push_char, str_eq};

verus! {

/// Whether a character is in the Unicode `Cc` category (`char::is_control`).
pub open spec fn is_control(c: char) -> bool {
    let u = c as u32;
    u <= 0x1f || (0x7f <= u && u <= 0x9f)
}

/// Four lowercase hexadecimal digits of a code point (`{:04x}`) below 0x10000.
pub open spec fn hex4(u: nat) -> Seq<char> {
    seq![
        hex_char((u / 4096) % 16),
        hex_char((u / 256) % 16),
        hex_char((u / 16) % 16),
        hex_char(u % 16),
    ]
}

/// How one character is written inside a JSON string.
pub open spec fn json_escape_char(c: char) -> Seq<char> {
    if c == '"' {
        seq!['\\', '"']
    } else if c == '\\' {
        seq!['\\', '\\']
    } else if c == '\n' {
        seq!['\\', 'n']
    } else if c == '\r' {
        seq!['\\', 'r']
    } else if c == '\t' {
        seq!['\\', 't']
    } else if is_control(c) {
        seq!['\\', 'u'] + hex4(c as u32 as nat)
    } else {
        seq![c]
    }
}

/// A text escaped for inclusion between JSON double quotes.
pub open spec fn json_escape_spec(s: Seq<char>) -> Seq<char>
    decreases s.len(),
{
    if s.len() == 0 {
        Seq::empty()
    } else {
        json_escape_spec(s.drop_last()) + json_escape_char(s.last())
    }
}

/// A text as a quoted JSON string.
pub open spec fn json_string_spec(s: Seq<char>) -> Seq<char> {
    seq!['"'] + json_escape_spec(s) + seq!['"']
}

/// Appends the JSON escape of one character.
pub fn push_json_escaped_char(out: &mut String, c: char)
    ensures
        final(out)@ == old(out)@ + json_escape_char(c),
{
    let ghost start = out@;
    if c == '"' {
        push_char(out, '\\');
        push_char(out, '"');
    } else if c == '\\' {
        push_char(out, '\\');
        push_char(out, '\\');
    } else if c == '\n' {
        push_char(out, '\\');
        push_char(out, 'n');
    } else if c == '\r' {
        push_char(out, '\\');
        push_char(out, 'r');
    } else if c == '\t' {
        push_char(out, '\\');
        push_char(out, 't');
    } else {
        let u = c as u32;
        if u <= 0x1f || (0x7f <= u && u <= 0x9f) {
            push_char(out, '\\');
            push_char(out, 'u');
            push_char(out, hex_digit((u / 4096) % 16));
            push_char(out, hex_digit((u / 256) % 16));
            push_char(out, hex_digit((u / 16) % 16));
            push_char(out, hex_digit(u % 16));
        } else {
            push_char(out, c);
        }
    }
    assert(out@ =~= start + json_escape_char(c));
}

/// Appends a text escaped for a JSON string.
pub fn push_json_escaped(out: &mut String, value: &str)
    ensures
        final(out)@ == old(out)@ + json_escape_spec(value@),
{
    let cs = chars_of(value);
    let ghost start = out@;
    let mut i: usize = 0;
    while i < cs.len()
        invariant
            cs@ == value@,
            i <= cs.len(),
            out@ == start + json_escape_spec(value@.take(i as int)),
        decreases cs.len() - i,
    {
        assert(value@.take(i + 1).drop_last() =~= value@.take(i as int));
        push_json_escaped_char(out, cs[i]);
        i = i + 1;
    }
    assert(value@.take(cs.len() as int) =~= value@);
}

/// Escapes a text for inclusion between JSON double quotes.
pub fn json_escape(value: &str) -> (r: String)
    ensures
        r@ == json_escape_spec(value@),
{
    let mut out = String::new();
    push_json_escaped(&mut out, value);
    assert(out@ =~= json_escape_spec(value@));
    out
}

/// Appends a text as a quoted JSON string.
pub fn push_json_string(out: &mut String, value: &str)
    ensures
        final(out)@ == old(out)@ + json_string_spec(value@),
{
    let ghost start = out@;
    push_char(out, '"');
    push_json_escaped(out, value);
    push_char(out, '"');
    assert(out@ =~= start + json_string_spec(value@));
}

/// A text as a quoted JSON string.
pub fn json_string(value: &str) -> (r: String)
    ensures
        r@ == json_string_spec(value@),
{
    let mut out = String::new();
    push_json_string(&mut out, value);
    assert(out@ =~= json_string_spec(value@));
    out
}

/// An escaped text holds no raw double quote and no control character:
/// every such character of the input comes out as an escape sequence.
pub proof fn lemma_json_escape_is_safe(s: Seq<char>)
    ensures
        forall|i: int|
            0 <= i < json_escape_spec(s).len() ==> {
                let c = #[trigger] json_escape_spec(s)[i];
                c != '"' ==> !is_control(c)
            },
        forall|i: int|
            0 <= i < json_escape_spec(s).len() && #[trigger] json_escape_spec(s)[i] == '"' ==> i
                > 0 && json_escape_spec(s)[i - 1] == '\\',
    decreases s.len(),
{
    if s.len() > 0 {
        lemma_json_escape_is_safe(s.drop_last());
        let prefix = json_escape_spec(s.drop_last());
        let tail = json_escape_char(s.last());
        assert(json_escape_spec(s) == prefix + tail);
        assert forall|i: int| 0 <= i < tail.len() implies {
            let c = #[trigger] tail[i];
            c != '"' ==> !is_control(c)
        } by {
            reveal_with_fuel(hex_char, 1);
        }
    }
}

/// The value of a hexadecimal digit, either case.
pub open spec fn hex_value(c: char) -> Option<nat> {
    let u = c as u32;
    if 0x30 <= u && u <= 0x39 {
        Some((u - 0x30) as nat)
    } else if 0x61 <= u && u <= 0x66 {
        Some((u - 0x61 + 10) as nat)
    } else if 0x41 <= u && u <= 0x46 {
        Some((u - 0x41 + 10) as nat)
    } else {
        None
    }
}

/// The code unit written by four hexadecimal digits.
pub open spec fn hex4_value(t: Seq<char>) -> Option<nat>
    recommends
        t.len() >= 4,
{
    match (hex_value(t[0]), hex_value(t[1]), hex_value(t[2]), hex_value(t[3])) {
        (Some(a), Some(b), Some(c), Some(d)) => Some(a * 4096 + b * 256 + c * 16 + d),
        _ => None,
    }
}

/// The character of a short escape (`\"`, `\\`, `\/`, `\b`, `\f`, `\n`,
/// `\r`, `\t`), by the letter after the backslash.
pub open spec fn short_escape(e: char) -> Option<char> {
    if e == '"' {
        Some('"')
    } else if e == '\\' {
        Some('\\')
    } else if e == '/' {
        Some('/')
    } else if e == 'b' {
        Some('\x08')
    } else if e == 'f' {
        Some('\x0c')
    } else if e == 'n' {
        Some('\n')
    } else if e == 'r' {
        Some('\r')
    } else if e == 't' {
        Some('\t')
    } else {
        None
    }
}

/// `Some(c + r)` when the rest decoded to `r`.
pub open spec fn cons_decoded(c: char, rest: Option<Seq<char>>) -> Option<Seq<char>> {
    match rest {
        Some(r) => Some(seq![c] + r),
        None => None,
    }
}

/// The text that the inside of a JSON string literal stands for, by the
/// JSON grammar: `None` where it is no valid string content (a raw quote,
/// a raw character below 0x20, a bad escape or a lone surrogate).
pub open spec fn json_unescape(t: Seq<char>) -> Option<Seq<char>>
    decreases t.len(),
{
    if t.len() == 0 {
        Some(Seq::empty())
    } else if t[0] == '\\' {
        if t.len() < 2 {
            None
        } else if short_escape(t[1]) is Some {
            cons_decoded(short_escape(t[1])->0, json_unescape(t.skip(2)))
        } else if t[1] == 'u' && t.len() >= 6 && hex4_value(t.subrange(2, 6)) is Some {
            let v = hex4_value(t.subrange(2, 6))->0;
            if v < 0xd800 || v > 0xdfff {
                cons_decoded(v as char, json_unescape(t.skip(6)))
            } else if v <= 0xdbff && t.len() >= 12 && t[6] == '\\' && t[7] == 'u' && hex4_value(
                t.subrange(8, 12),
            ) is Some && 0xdc00 <= hex4_value(t.subrange(8, 12))->0 <= 0xdfff {
                let w = hex4_value(t.subrange(8, 12))->0;
                cons_decoded(
                    (0x10000 + (v - 0xd800) * 1024 + (w - 0xdc00)) as char,
                    json_unescape(t.skip(12)),
                )
            } else {
                None
            }
        } else {
            None
        }
    } else if t[0] == '"' || (t[0] as u32) < 0x20 {
        None
    } else {
        cons_decoded(t[0], json_unescape(t.skip(1)))
    }
}

proof fn lemma_hex_char_value(d: nat)
    requires
        d < 16,
    ensures
        hex_value(hex_char(d)) == Some(d),
{
}

proof fn lemma_unescape_one(c: char, rest: Seq<char>)
    ensures
        json_unescape(json_escape_char(c) + rest) == cons_decoded(c, json_unescape(rest)),
{
    let t = json_escape_char(c) + rest;
    if c == '"' || c == '\\' || c == '\n' || c == '\r' || c == '\t' {
        assert(t.skip(2) =~= rest);
    } else if is_control(c) {
        let u = c as u32 as nat;
        assert(u <= 0x9f);
        lemma_hex_char_value((u / 4096) % 16);
        lemma_hex_char_value((u / 256) % 16);
        lemma_hex_char_value((u / 16) % 16);
        lemma_hex_char_value(u % 16);
        assert(t.subrange(2, 6) =~= hex4(u));
        assert(hex4_value(t.subrange(2, 6)) == Some(u));
        assert(t.skip(6) =~= rest);
        assert((u as char) == c);
    } else {
        assert(t.skip(1) =~= rest);
    }
}

proof fn lemma_unescape_prefix(s: Seq<char>, rest: Seq<char>)
    ensures
        json_unescape(json_escape_spec(s) + rest) == (match json_unescape(rest) {
            Some(r) => Some(s + r),
            None => None,
        }),
    decreases s.len(),
{
    if s.len() == 0 {
        assert(json_escape_spec(s) + rest =~= rest);
    } else {
        let init = s.drop_last();
        let tail = json_escape_char(s.last()) + rest;
        assert(json_escape_spec(s) + rest =~= json_escape_spec(init) + tail);
        lemma_unescape_prefix(init, tail);
        lemma_unescape_one(s.last(), rest);
        match json_unescape(rest) {
            Some(r) => {
                assert(init + (seq![s.last()] + r) =~= s + r);
            },
            None => {},
        }
    }
}

/// Decoding an escaped text as the inside of a JSON string literal gives
/// back exactly the text.
pub proof fn lemma_json_escape_round_trip(s: Seq<char>)
    ensures
        json_unescape(json_escape_spec(s)) == Some(s),
{
    lemma_unescape_prefix(s, Seq::empty());
    assert(json_escape_spec(s) + Seq::<char>::empty() =~= json_escape_spec(s));
    assert(s + Seq::<char>::empty() =~= s);
}

/// A text with no double quote, no backslash and no control character is
/// escaped to itself.
pub proof fn lemma_json_escape_keeps_clean_text(s: Seq<char>)
    requires
        forall|i: int| 0 <= i < s.len() ==> s[i] != '"' && s[i] != '\\' && !is_control(#[trigger] s[i]),
    ensures
        json_escape_spec(s) == s,
    decreases s.len(),
{
    if s.len() > 0 {
        let init = s.drop_last();
        assert forall|i: int| 0 <= i < init.len() implies init[i] != '"' && init[i] != '\\' && !is_control(
            #[trigger] init[i],
        ) by {
            assert(init[i] == s[i]);
        }
        lemma_json_escape_keeps_clean_text(init);
        assert(!is_control(s[s.len() - 1]));
        assert(init + seq![s.last()] =~= s);
    }
}

/// The law of `json_escape` and `json_string` together: the escaped text
/// holds no control character; between double quotes it is a JSON string
/// literal whose content decodes to exactly the input; and a text with no
/// double quote, backslash or control character is escaped to itself.
pub proof fn lemma_json_escape_law(s: Seq<char>)
    ensures
        forall|i: int| 0 <= i < json_escape_spec(s).len() ==> !is_control(#[trigger] json_escape_spec(s)[i]),
        json_string_spec(s) == seq!['"'] + json_escape_spec(s) + seq!['"'],
        json_unescape(json_escape_spec(s)) == Some(s),
        (forall|i: int| 0 <= i < s.len() ==> s[i] != '"' && s[i] != '\\' && !is_control(#[trigger] s[i]))
            ==> json_escape_spec(s) == s,
{
    lemma_json_escape_is_safe(s);
    assert forall|i: int| 0 <= i < json_escape_spec(s).len() implies !is_control(
        #[trigger] json_escape_spec(s)[i],
    ) by {
        let c = json_escape_spec(s)[i];
        if c == '"' {
        }
    }
    lemma_json_escape_round_trip(s);
    if forall|i: int| 0 <= i < s.len() ==> s[i] != '"' && s[i] != '\\' && !is_control(#[trigger] s[i]) {
        lemma_json_escape_keeps_clean_text(s);
    }
}

/// How `serde_json` writes one character inside a string: quotes and
/// backslashes escaped, the control characters below 0x20 as short escapes
/// where JSON has one and as `\u00XX` otherwise, everything else as is.
pub open spec fn serde_escape_char(c: char) -> Seq<char> {
    if c == '"' {
        seq!['\\', '"']
    } else if c == '\\' {
        seq!['\\', '\\']
    } else if c == '\n' {
        seq!['\\', 'n']
    } else if c == '\r' {
        seq!['\\', 'r']
    } else if c == '\t' {
        seq!['\\', 't']
    } else if c as u32 == 0x08 {
        seq!['\\', 'b']
    } else if c as u32 == 0x0c {
        seq!['\\', 'f']
    } else if (c as u32) < 0x20 {
        seq!['\\', 'u'] + hex4(c as u32 as nat)
    } else {
        seq![c]
    }
}

/// A text with each character as `serde_json` writes it inside a string.
pub open spec fn serde_escape_spec(s: Seq<char>) -> Seq<char>
    decreases s.len(),
{
    if s.len() == 0 {
        Seq::empty()
    } else {
        serde_escape_spec(s.drop_last()) + serde_escape_char(s.last())
    }
}

/// A text as `serde_json` writes it in quotes.
pub open spec fn serde_string_spec(s: Seq<char>) -> Seq<char> {
    seq!['"'] + serde_escape_spec(s) + seq!['"']
}

fn push_serde_escaped_char(out: &mut String, c: char)
    ensures
        final(out)@ == old(out)@ + serde_escape_char(c),
{
    let ghost start = out@;
    let u = c as u32;
    if c == '"' {
        push_char(out, '\\');
        push_char(out, '"');
    } else if c == '\\' {
        push_char(out, '\\');
        push_char(out, '\\');
    } else if c == '\n' {
        push_char(out, '\\');
        push_char(out, 'n');
    } else if c == '\r' {
        push_char(out, '\\');
        push_char(out, 'r');
    } else if c == '\t' {
        push_char(out, '\\');
        push_char(out, 't');
    } else if u == 0x08 {
        push_char(out, '\\');
        push_char(out, 'b');
    } else if u == 0x0c {
        push_char(out, '\\');
        push_char(out, 'f');
    } else if u < 0x20 {
        push_char(out, '\\');
        push_char(out, 'u');
        push_char(out, hex_digit((u / 4096) % 16));
        push_char(out, hex_digit((u / 256) % 16));
        push_char(out, hex_digit((u / 16) % 16));
        push_char(out, hex_digit(u % 16));
    } else {
        push_char(out, c);
    }
    assert(out@ =~= start + serde_escape_char(c));
}

/// Appends a text in quotes as `serde_json` writes it.
pub fn push_serde_string(out: &mut String, value: &str)
    ensures
        final(out)@ == old(out)@ + serde_string_spec(value@),
{
    let cs = chars_of(value);
    let ghost start = out@;
    push_char(out, '"');
    let mut i: usize = 0;
    while i < cs.len()
        invariant
            cs@ == value@,
            i <= cs.len(),
            out@ == start + seq!['"'] + serde_escape_spec(value@.take(i as int)),
        decreases cs.len() - i,
    {
        assert(value@.take(i + 1).drop_last() =~= value@.take(i as int));
        push_serde_escaped_char(out, cs[i]);
        i = i + 1;
    }
    assert(value@.take(cs.len() as int) =~= value@);
    push_char(out, '"');
    assert(out@ =~= start + serde_string_spec(value@));
}

/// A JSON value made of booleans, whole numbers, strings and objects.
#[derive(Debug, PartialEq)]
pub enum JsonValue {
    Null,
    Bool(bool),
    Int(i64),
    Text(String),
    /// The members of an object, in order.
    Object(Vec<(String, JsonValue)>),
}

/// The value of the first member with the given name.
pub open spec fn member(entries: Seq<(String, JsonValue)>, key: Seq<char>) -> Option<JsonValue>
    decreases entries.len(),
{
    if entries.len() == 0 {
        None
    } else if entries[0].0@ == key {
        Some(entries[0].1)
    } else {
        member(entries.drop_first(), key)
    }
}

/// The member of an object with the given name (`Value::get`); nothing for
/// a value that is not an object.
pub open spec fn json_get(v: JsonValue, key: Seq<char>) -> Option<JsonValue> {
    match v {
        JsonValue::Object(entries) => member(entries@, key),
        _ => None,
    }
}

/// The boolean a value holds (`Value::as_bool`).
pub open spec fn json_as_bool(v: JsonValue) -> Option<bool> {
    match v {
        JsonValue::Bool(b) => Some(b),
        _ => None,
    }
}

impl JsonValue {
    /// The member of an object with the given name.
    pub fn get(&self, key: &str) -> (r: Option<&JsonValue>)
        ensures
            match r {
                Some(v) => json_get(*self, key@) == Some(*v),
                None => json_get(*self, key@) is None,
            },
    {
        match self {
            JsonValue::Object(entries) => {
                let mut i: usize = 0;
                assert(entries@.subrange(0, entries@.len() as int) =~= entries@);
                while i < entries.len()
                    invariant
                        i <= entries@.len(),
                        json_get(*self, key@) == member(entries@, key@),
                        member(entries@, key@) == member(
                            entries@.subrange(i as int, entries@.len() as int),
                            key@,
                        ),
                    decreases entries.len() - i,
                {
                    let ghost rest = entries@.subrange(i as int, entries@.len() as int);
                    assert(rest[0] == entries@[i as int]);
                    if str_eq(entries[i].0.as_str(), key) {
                        return Some(&entries[i].1);
                    }
                    assert(rest.drop_first() =~= entries@.subrange(i + 1, entries@.len() as int));
                    i = i + 1;
                }
                None
            },
            _ => None,
        }
    }

    /// The boolean the value holds.
    pub fn as_bool(&self) -> (r: Option<bool>)
        ensures
            r == json_as_bool(*self),
    {
        match self {
            JsonValue::Bool(b) => Some(*b),
            _ => None,
        }
    }
}

} // verus!
