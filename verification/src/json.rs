//! JSON values, as `serde_json` holds and writes them.

use vstd::prelude::*;
use crate::text::decimal;

verus! {

/// `serde_json::Value`: a JSON value, known here by its compact text.
#[verifier::external_type_specification]
#[verifier::external_body]
pub struct ExJsonValue(serde_json::Value);

/// What a JSON value holds, given as the compact text that `serde_json` writes
/// for it. Two values with the same text are the same value.
pub uninterp spec fn json_text(value: serde_json::Value) -> Seq<char>;

/// The start of an object whose first member has the key under which `serde_json`
/// takes a string for embedded JSON.
pub open spec fn raw_start() -> Seq<char> {
    "{\"$serde_json::private::RawValue\":"@
}

/// Whether an object in the compact text starts with the key of embedded JSON.
/// Inside a string, quotes stand behind a backslash, so that it is not found there.
pub open spec fn embeds_raw(text: Seq<char>) -> bool {
    exists|i: int|
        0 <= i <= text.len() - raw_start().len() && #[trigger] text.subrange(
            i,
            i + raw_start().len(),
        ) == raw_start()
}

/// Whether the text, where it can be parsed, is that of the value that comes out;
/// nothing is said of a text in which an object starts with the key of embedded
/// JSON.
pub open spec fn reads_back(text: Seq<char>) -> bool {
    !embeds_raw(text) ==> (json_parsed(text) matches Ok(back) ==> back == text)
}

/// Whether no blank, tab or line end stands outside the strings of a JSON text,
/// where `quoted` says whether it starts inside one.
pub open spec fn is_compact(text: Seq<char>, quoted: bool) -> bool
    decreases text.len(),
{
    if text.len() == 0 {
        true
    } else if quoted && text.first() == '\\' && text.len() >= 2 {
        is_compact(text.skip(2), true)
    } else if quoted {
        is_compact(text.drop_first(), text.first() != '"')
    } else {
        &&& text.first() != ' '
        &&& text.first() != '\t'
        &&& text.first() != '\n'
        &&& text.first() != '\r'
        &&& is_compact(text.drop_first(), text.first() == '"')
    }
}

/// `serde_json::Value`'s `Display`: the compact text of the value. Parsed, it
/// gives a value of the same text, numbers included (`float_roundtrip`), unless
/// it is refused for its depth or an object in it starts with the key of embedded
/// JSON (`raw_value`).
#[verifier::external_body]
pub(crate) fn compact_text(value: &serde_json::Value) -> (text: String)
    ensures
        text@ == json_text(*value),
        reads_back(text@),
{
    value.to_string()
}

/// One lower-case hexadecimal digit.
pub open spec fn hex_digit(d: int) -> char {
    if d < 10 {
        ((48 + d) as u32) as char
    } else {
        ((87 + d) as u32) as char
    }
}

/// How a character stands inside a JSON string.
pub open spec fn escaped_char(c: char) -> Seq<char> {
    let code = c as int;
    if c == '"' {
        seq!['\\', '"']
    } else if c == '\\' {
        seq!['\\', '\\']
    } else if code == 0x08 {
        seq!['\\', 'b']
    } else if code == 0x09 {
        seq!['\\', 't']
    } else if code == 0x0a {
        seq!['\\', 'n']
    } else if code == 0x0c {
        seq!['\\', 'f']
    } else if code == 0x0d {
        seq!['\\', 'r']
    } else if code < 0x20 {
        seq!['\\', 'u', '0', '0', hex_digit(code / 16), hex_digit(code % 16)]
    } else {
        seq![c]
    }
}

/// The characters of `text`, each as it stands inside a JSON string.
pub open spec fn escaped(text: Seq<char>) -> Seq<char>
    decreases text.len(),
{
    if text.len() == 0 {
        seq![]
    } else {
        escaped(text.drop_last()) + escaped_char(text.last())
    }
}

/// The JSON text of a string.
pub open spec fn string_text(text: Seq<char>) -> Seq<char> {
    seq!['"'] + escaped(text) + seq!['"']
}

/// The string whose JSON text this is, where it is one.
pub open spec fn string_value(value_text: Seq<char>) -> Option<Seq<char>> {
    if exists|text: Seq<char>| #[trigger] string_text(text) == value_text {
        Some(choose|text: Seq<char>| #[trigger] string_text(text) == value_text)
    } else {
        None
    }
}

/// Texts one after the other, with commas between them.
pub open spec fn comma_joined(items: Seq<Seq<char>>) -> Seq<char>
    decreases items.len(),
{
    if items.len() == 0 {
        seq![]
    } else if items.len() == 1 {
        items[0]
    } else {
        comma_joined(items.drop_last()) + seq![','] + items.last()
    }
}

/// The JSON text of an array with elements of the given texts.
pub open spec fn array_text(items: Seq<Seq<char>>) -> Seq<char> {
    seq!['['] + comma_joined(items) + seq![']']
}

/// The JSON text of an object, its members given as key and text of the value,
/// in the order in which they are written.
pub open spec fn object_text(members: Seq<(Seq<char>, Seq<char>)>) -> Seq<char> {
    seq!['{'] + comma_joined(
        members.map_values(|m: (Seq<char>, Seq<char>)| string_text(m.0) + seq![':'] + m.1),
    ) + seq!['}']
}

/// Whether `a` stands before `b` in the order of their code points.
pub open spec fn key_before(a: Seq<char>, b: Seq<char>) -> bool
    decreases a.len(),
{
    if b.len() == 0 {
        false
    } else if a.len() == 0 {
        true
    } else {
        a.first() < b.first() || (a.first() == b.first() && key_before(
            a.drop_first(),
            b.drop_first(),
        ))
    }
}

/// The members' keys and the texts of their values.
pub open spec fn member_texts(members: Seq<(&'static str, serde_json::Value)>) -> Seq<
    (Seq<char>, Seq<char>),
> {
    members.map_values(|m: (&'static str, serde_json::Value)| (m.0@, json_text(m.1)))
}

/// Whether each key stands before the keys that follow it.
pub open spec fn keys_ascend(members: Seq<(&'static str, serde_json::Value)>) -> bool {
    forall|i: int, j: int|
        0 <= i < j < members.len() ==> key_before((#[trigger] members[i]).0@, (#[trigger] members[j]).0@)
}

/// `serde_json::Value::Null`.
#[verifier::external_body]
pub(crate) fn json_null() -> (value: serde_json::Value)
    ensures
        json_text(value) == "null"@,
{
    serde_json::Value::Null
}

/// `serde_json::Value::from` on a string: a JSON string.
#[verifier::external_body]
pub(crate) fn json_string(text: &str) -> (value: serde_json::Value)
    ensures
        json_text(value) == string_text(text@),
{
    serde_json::Value::from(text)
}

/// `serde_json::Value::from` on an integer: a JSON number.
#[verifier::external_body]
pub(crate) fn json_integer(n: i64) -> (value: serde_json::Value)
    ensures
        json_text(value) == decimal(n as int),
{
    serde_json::Value::from(n)
}

/// `serde_json::Value::from` on a vector of values: a JSON array of them.
#[verifier::external_body]
pub(crate) fn json_array(items: Vec<serde_json::Value>) -> (value: serde_json::Value)
    ensures
        json_text(value) == array_text(items@.map_values(|item: serde_json::Value| json_text(item))),
{
    serde_json::Value::from(items)
}

/// Whether no two members have the same key.
pub open spec fn keys_differ(members: Seq<(Seq<char>, Seq<char>)>) -> bool {
    forall|i: int, j: int|
        0 <= i < j < members.len() ==> (#[trigger] members[i]).0 != (#[trigger] members[j]).0
}

/// Whether each member stands before those with greater keys.
pub open spec fn is_in_key_order(members: Seq<(Seq<char>, Seq<char>)>) -> bool {
    forall|i: int, j: int|
        0 <= i < j < members.len() ==> key_before(
            (#[trigger] members[i]).0,
            (#[trigger] members[j]).0,
        )
}

/// Whether the two hold the same members, in whatever order.
pub open spec fn same_members(
    a: Seq<(Seq<char>, Seq<char>)>,
    b: Seq<(Seq<char>, Seq<char>)>,
) -> bool {
    forall|member: (Seq<char>, Seq<char>)| #[trigger] a.contains(member) <==> b.contains(member)
}

/// The members in the order of their keys.
pub open spec fn in_key_order(members: Set<(Seq<char>, Seq<char>)>) -> Seq<(Seq<char>, Seq<char>)> {
    choose|sorted: Seq<(Seq<char>, Seq<char>)>| #[trigger]
        is_in_key_order(sorted) && sorted.to_set() == members
}

/// The text of an object with these members, which are written in the order of
/// their keys.
pub open spec fn object_of(members: Seq<(Seq<char>, Seq<char>)>) -> Seq<char> {
    object_text(in_key_order(members.to_set()))
}

proof fn lemma_key_order_is_strict(a: Seq<char>, b: Seq<char>)
    ensures
        !(key_before(a, b) && key_before(b, a)),
        !key_before(a, a),
    decreases a.len(),
{
    if a.len() > 0 {
        lemma_key_order_is_strict(a.drop_first(), b.drop_first());
    }
}

/// There is one key order of the same members.
proof fn lemma_key_order_is_one(
    a: Seq<(Seq<char>, Seq<char>)>,
    b: Seq<(Seq<char>, Seq<char>)>,
)
    requires
        is_in_key_order(a),
        is_in_key_order(b),
        same_members(a, b),
    ensures
        a == b,
    decreases a.len(),
{
    if a.len() == 0 {
        if b.len() > 0 {
            assert(b.contains(b[0]));
            assert(a.contains(b[0]));
        }
        assert(a =~= b);
    } else {
        assert(a.contains(a[0]));
        let j = choose|j: int| 0 <= j < b.len() && b[j] == a[0];
        assert(b.contains(b[0]));
        assert(a.contains(b[0]));
        let i = choose|i: int| 0 <= i < a.len() && a[i] == b[0];
        lemma_key_order_is_strict(a[0].0, b[0].0);
        assert(i == 0 || key_before(a[0].0, a[i].0));
        assert(j == 0 || key_before(b[0].0, b[j].0));
        assert(a[0] == b[0]);
        let rest_a = a.drop_first();
        let rest_b = b.drop_first();
        assert forall|k: int, n: int| 0 <= k < n < rest_a.len() implies key_before(
            (#[trigger] rest_a[k]).0,
            (#[trigger] rest_a[n]).0,
        ) by {
            assert(key_before(a[k + 1].0, a[n + 1].0));
        }
        assert forall|k: int, n: int| 0 <= k < n < rest_b.len() implies key_before(
            (#[trigger] rest_b[k]).0,
            (#[trigger] rest_b[n]).0,
        ) by {
            assert(key_before(b[k + 1].0, b[n + 1].0));
        }
        assert forall|member: (Seq<char>, Seq<char>)| #[trigger]
            rest_a.contains(member) <==> rest_b.contains(member) by {
            if rest_a.contains(member) {
                lemma_rest_is_kept(a, b, member);
            }
            if rest_b.contains(member) {
                lemma_rest_is_kept(b, a, member);
            }
        }
        lemma_key_order_is_one(rest_a, rest_b);
        assert(a =~= seq![a[0]] + rest_a);
        assert(b =~= seq![b[0]] + rest_b);
    }
}

proof fn lemma_rest_is_kept(
    a: Seq<(Seq<char>, Seq<char>)>,
    b: Seq<(Seq<char>, Seq<char>)>,
    member: (Seq<char>, Seq<char>),
)
    requires
        is_in_key_order(a),
        same_members(a, b) || same_members(b, a),
        a.len() > 0,
        b.len() > 0,
        a[0] == b[0],
        a.drop_first().contains(member),
    ensures
        b.drop_first().contains(member),
{
    let k = choose|k: int| 0 <= k < a.drop_first().len() && a.drop_first()[k] == member;
    assert(a[k + 1] == member);
    assert(a.contains(member));
    assert(b.contains(member));
    let n = choose|n: int| 0 <= n < b.len() && b[n] == member;
    lemma_key_order_is_strict(a[0].0, member.0);
    assert(key_before(a[0].0, a[k + 1].0));
    assert(n > 0);
    assert(b.drop_first()[n - 1] == member);
}

/// Members in the order of their keys stay in it.
proof fn lemma_in_key_order(members: Seq<(Seq<char>, Seq<char>)>)
    requires
        is_in_key_order(members),
    ensures
        object_of(members) == object_text(members),
{
    let sorted = in_key_order(members.to_set());
    assert(is_in_key_order(members) && members.to_set() == members.to_set());
    assert forall|member: (Seq<char>, Seq<char>)| #[trigger]
        sorted.contains(member) <==> members.contains(member) by {
        assert(sorted.to_set().contains(member) <==> sorted.contains(member));
        assert(members.to_set().contains(member) <==> members.contains(member));
    }
    lemma_key_order_is_one(sorted, members);
}

/// An object is the same in whatever order its members come.
pub proof fn lemma_same_object(a: Seq<(Seq<char>, Seq<char>)>, b: Seq<(Seq<char>, Seq<char>)>)
    requires
        same_members(a, b),
    ensures
        object_of(a) == object_of(b),
{
    assert(a.to_set() =~= b.to_set());
}

/// `serde_json::Value::from_iter` on pairs of key and value: a JSON object, whose
/// members are held and written in the order of their keys, not the order they
/// come in.
#[verifier::external_body]
fn object_from_members(members: Vec<(&'static str, serde_json::Value)>) -> (value: serde_json::Value)
    requires
        keys_differ(member_texts(members@)),
    ensures
        json_text(value) == object_of(member_texts(members@)),
{
    serde_json::Value::from_iter(members)
}

/// A JSON object of members that come in the order of their keys.
pub(crate) fn json_object(members: Vec<(&'static str, serde_json::Value)>) -> (value: serde_json::Value)
    requires
        keys_ascend(members@),
    ensures
        json_text(value) == object_text(member_texts(members@)),
{
    proof {
        let texts = member_texts(members@);
        assert forall|i: int, j: int| 0 <= i < j < texts.len() implies key_before(
            (#[trigger] texts[i]).0,
            (#[trigger] texts[j]).0,
        ) by {
            assert(key_before(members@[i].0@, members@[j].0@));
        }
        assert forall|i: int, j: int| 0 <= i < j < texts.len() implies (#[trigger] texts[i]).0 != (
        #[trigger] texts[j]).0 by {
            lemma_key_order_is_strict(texts[i].0, texts[j].0);
        }
        lemma_in_key_order(texts);
    }
    object_from_members(members)
}

/// The compact text of an object's member, where the value of the given text is
/// an object that has one under that key.
pub uninterp spec fn json_member(value_text: Seq<char>, key: Seq<char>) -> Option<Seq<char>>;

/// `serde_json::Value::get` with a string: the object's member under that key.
#[verifier::external_body]
pub(crate) fn json_get<'a>(value: &'a serde_json::Value, key: &str) -> (member: Option<&'a serde_json::Value>)
    ensures
        member is Some <==> json_member(json_text(*value), key@) is Some,
        member matches Some(m) ==> json_member(json_text(*value), key@) == Some(json_text(*m)),
{
    value.get(key)
}

/// `serde_json::Value::as_str`: the text of a JSON string, nothing for a value
/// of another kind.
#[verifier::external_body]
pub(crate) fn json_as_str<'a>(value: &'a serde_json::Value) -> (text: Option<&'a str>)
    ensures
        text matches Some(s) ==> json_text(*value) == string_text(s@),
        text is None ==> forall|s: Seq<char>| json_text(*value) != #[trigger] string_text(s),
{
    value.as_str()
}

proof fn lemma_escaped_front(text: Seq<char>)
    requires
        text.len() > 0,
    ensures
        escaped(text) == escaped_char(text.first()) + escaped(text.drop_first()),
    decreases text.len(),
{
    if text.len() == 1 {
        assert(text.drop_last() =~= seq![]);
        assert(text.drop_first() =~= seq![]);
        assert(escaped(text) =~= escaped_char(text.first()) + escaped(text.drop_first()));
    } else {
        lemma_escaped_front(text.drop_last());
        assert(text.drop_last().drop_first() =~= text.drop_first().drop_last());
        assert(escaped(text) =~= escaped_char(text.first()) + escaped(text.drop_first()));
    }
}

/// No escape is the beginning of another character's.
proof fn lemma_escapes_differ(c: char, d: char, after_c: Seq<char>, after_d: Seq<char>)
    requires
        escaped_char(c) + after_c == escaped_char(d) + after_d,
    ensures
        c == d,
{
    let left = escaped_char(c) + after_c;
    let right = escaped_char(d) + after_d;
    assert(left[0] == escaped_char(c)[0]);
    assert(right[0] == escaped_char(d)[0]);
    if escaped_char(c).len() > 1 && escaped_char(d).len() > 1 {
        assert(left[1] == escaped_char(c)[1]);
        assert(right[1] == escaped_char(d)[1]);
        if escaped_char(c).len() > 2 && escaped_char(d).len() > 2 {
            assert(left[4] == escaped_char(c)[4]);
            assert(right[4] == escaped_char(d)[4]);
            assert(left[5] == escaped_char(c)[5]);
            assert(right[5] == escaped_char(d)[5]);
        }
    }
}

proof fn lemma_escaped_injective(a: Seq<char>, b: Seq<char>)
    requires
        escaped(a) == escaped(b),
    ensures
        a == b,
    decreases a.len(),
{
    if a.len() > 0 {
        lemma_escaped_front(a);
    }
    if b.len() > 0 {
        lemma_escaped_front(b);
    }
    if a.len() > 0 && b.len() > 0 {
        lemma_escapes_differ(
            a.first(),
            b.first(),
            escaped(a.drop_first()),
            escaped(b.drop_first()),
        );
        let n = escaped_char(a.first()).len() as int;
        assert(escaped(a.drop_first()) =~= escaped(a).skip(n));
        assert(escaped(b.drop_first()) =~= escaped(b).skip(n));
        lemma_escaped_injective(a.drop_first(), b.drop_first());
        assert(a =~= seq![a.first()] + a.drop_first());
        assert(b =~= seq![b.first()] + b.drop_first());
    } else if a.len() > 0 {
        assert(escaped(a).len() > 0);
    } else if b.len() > 0 {
        assert(escaped(b).len() > 0);
    } else {
        assert(a =~= b);
    }
}

/// A JSON string's text tells which string it is.
pub proof fn lemma_string_value(text: Seq<char>)
    ensures
        string_value(string_text(text)) == Some(text),
{
    assert(string_text(text) == string_text(text));
    let other = choose|t: Seq<char>| #[trigger] string_text(t) == string_text(text);
    let inner = escaped(other);
    assert(string_text(other).subrange(1, string_text(other).len() - 1) =~= inner);
    assert(string_text(text).subrange(1, string_text(text).len() - 1) =~= escaped(text));
    lemma_escaped_injective(other, text);
}

/// What `serde_json::from_str` makes of a text: the compact text of the value,
/// or the message of the error.
pub uninterp spec fn json_parsed(text: Seq<char>) -> Result<Seq<char>, Seq<char>>;

/// The outcome of a parse, with the value as its compact text.
pub open spec fn parse_outcome(value: Result<serde_json::Value, String>) -> Result<
    Seq<char>,
    Seq<char>,
> {
    match value {
        Ok(v) => Ok(json_text(v)),
        Err(e) => Err(e@),
    }
}

/// `serde_json::from_str` into a `Value`; an error is given by its message.
#[verifier::external_body]
pub(crate) fn json_parse(text: &str) -> (value: Result<serde_json::Value, String>)
    ensures
        parse_outcome(value) == json_parsed(text@),
{
    serde_json::from_str(text).map_err(|e| e.to_string())
}

} // verus!
