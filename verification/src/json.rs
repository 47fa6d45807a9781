//! JSON text: writing string literals and reading the members of an object.
//!
//! A structured value travels through the library as its compact JSON text.
//! Parsing is left to `serde_json`; what it returns has a name here, and the
//! rules that sit on top of it are stated over those names.

use crate::encoding::hex_digit;
use crate::text::str_eq;
use vstd::prelude::*;
use vstd::string::*;

verus! {

/// One member of a JSON object: its key, and the compact JSON text of its
/// value.
#[derive(Debug, Clone)]
pub struct JsonMember {
    pub name: String,
    pub value: String,
}

/// How one character is written inside a JSON string literal.
pub open spec fn json_escape(c: char) -> Seq<char> {
    if c == '"' {
        seq!['\\', '"']
    } else if c == '\\' {
        seq!['\\', '\\']
    } else if c == '\u{8}' {
        seq!['\\', 'b']
    } else if c == '\t' {
        seq!['\\', 't']
    } else if c == '\n' {
        seq!['\\', 'n']
    } else if c == '\u{c}' {
        seq!['\\', 'f']
    } else if c == '\r' {
        seq!['\\', 'r']
    } else if (c as nat) < 32 {
        seq!['\\', 'u', '0', '0', hex_digit(c as nat / 16), hex_digit(c as nat % 16)]
    } else {
        seq![c]
    }
}

/// The characters of `s`, each written as `json_escape` says.
pub open spec fn json_escaped(s: Seq<char>) -> Seq<char>
    decreases s.len(),
{
    if s.len() == 0 {
        Seq::empty()
    } else {
        json_escaped(s.drop_last()) + json_escape(s.last())
    }
}

/// The JSON string literal for `s`: the escaped characters between quotes.
pub open spec fn json_string_text(s: Seq<char>) -> Seq<char> {
    seq!['"'] + json_escaped(s) + seq!['"']
}

/// The members of the JSON object that `text` holds, in the order in which
/// the parsed object keeps them; `None` where `text` is not one JSON object.
pub uninterp spec fn json_members(text: Seq<char>) -> Option<Seq<(Seq<char>, Seq<char>)>>;

/// The string that the JSON text `text` stands for; `None` where `text` is
/// not one JSON string.
pub uninterp spec fn json_string_value(text: Seq<char>) -> Option<Seq<char>>;

/// The number that the JSON text `text` stands for; `None` where `text` is
/// not one non-negative integer that fits 64 bits.
pub uninterp spec fn json_u64_value(text: Seq<char>) -> Option<u64>;

/// The compact form of the JSON value that `text` holds; `None` where `text`
/// is not one JSON value.
pub uninterp spec fn json_compact(text: Seq<char>) -> Option<Seq<char>>;

/// The members as pairs of key and value text.
pub open spec fn members_view(members: Seq<JsonMember>) -> Seq<(Seq<char>, Seq<char>)> {
    members.map_values(|m: JsonMember| (m.name@, m.value@))
}

/// The value text of the first member called `name`.
pub open spec fn member_value(members: Seq<(Seq<char>, Seq<char>)>, name: Seq<char>) -> Option<
    Seq<char>,
>
    decreases members.len(),
{
    if members.len() == 0 {
        None
    } else if members[0].0 == name {
        Some(members[0].1)
    } else {
        member_value(members.drop_first(), name)
    }
}

/// `serde_json::to_string` on a string: its JSON string literal. Writing a
/// string into memory cannot fail, so the literal always comes back.
#[verifier::external_body]
pub(crate) fn json_quote(s: &str) -> (r: String)
    ensures
        r@ == json_string_text(s@),
{
    serde_json::to_string(s).unwrap_or_default()
}

/// `serde_json::from_str` into a `serde_json::Map`: the members of the object
/// in `text`, each value handed out as its compact text, or `None` where the
/// parser reports an error.
#[verifier::external_body]
pub(crate) fn parse_members(text: &str) -> (r: Option<Vec<JsonMember>>)
    ensures
        match r {
            Some(v) => json_members(text@) == Some(members_view(v@)),
            None => json_members(text@) is None,
        },
{
    match serde_json::from_str::<serde_json::Map<String, serde_json::Value>>(text) {
        Ok(map) => Some(
            map.iter().map(|(k, v)| JsonMember { name: k.clone(), value: v.to_string() }).collect(),
        ),
        Err(_) => None,
    }
}

/// `serde_json::from_str` into a `String`: the string that `text` stands
/// for, or `None` where the parser reports an error.
#[verifier::external_body]
pub(crate) fn parse_string(text: &str) -> (r: Option<String>)
    ensures
        match r {
            Some(s) => json_string_value(text@) == Some(s@),
            None => json_string_value(text@) is None,
        },
{
    match serde_json::from_str::<String>(text) {
        Ok(s) => Some(s),
        Err(_) => None,
    }
}

/// `serde_json::from_str` into a `u64`: the number that `text` stands for, or
/// `None` where the parser reports an error.
#[verifier::external_body]
pub(crate) fn parse_u64(text: &str) -> (r: Option<u64>)
    ensures
        r == json_u64_value(text@),
{
    match serde_json::from_str::<u64>(text) {
        Ok(n) => Some(n),
        Err(_) => None,
    }
}

/// `serde_json::from_str` into a `serde_json::Value`, written out again in
/// compact form, or `None` where the parser reports an error.
#[verifier::external_body]
pub(crate) fn parse_compact(text: &str) -> (r: Option<String>)
    ensures
        match r {
            Some(s) => json_compact(text@) == Some(s@),
            None => json_compact(text@) is None,
        },
{
    match serde_json::from_str::<serde_json::Value>(text) {
        Ok(v) => Some(v.to_string()),
        Err(_) => None,
    }
}

/// Looks up the first member called `name`.
pub fn find_member<'a>(members: &'a Vec<JsonMember>, name: &str) -> (r: Option<&'a str>)
    ensures
        match r {
            Some(v) => member_value(members_view(members@), name@) == Some(v@),
            None => member_value(members_view(members@), name@) is None,
        },
{
    let ghost all = members_view(members@);
    let mut i: usize = 0;
    assert(all.skip(0) =~= all);
    while i < members.len()
        invariant
            i <= members.len(),
            all == members_view(members@),
            member_value(all, name@) == member_value(all.skip(i as int), name@),
        decreases members.len() - i,
    {
        let ghost rest = all.skip(i as int);
        if str_eq(members[i].name.as_str(), name) {
            return Some(members[i].value.as_str());
        }
        assert(rest.drop_first() =~= all.skip(i as int + 1));
        i += 1;
    }
    None
}

/// The texts of `items` with a comma between each two.
pub open spec fn joined(items: Seq<Seq<char>>) -> Seq<char>
    decreases items.len(),
{
    if items.len() == 0 {
        Seq::empty()
    } else if items.len() == 1 {
        items[0]
    } else {
        joined(items.drop_last()) + ","@ + items.last()
    }
}

/// The JSON array whose elements have the texts `items`.
pub open spec fn array_text(items: Seq<Seq<char>>) -> Seq<char> {
    "["@ + joined(items) + "]"@
}

/// One member of a JSON object: the key as a string literal, a colon, and
/// the text of the value.
pub open spec fn member_text(member: (Seq<char>, Seq<char>)) -> Seq<char> {
    json_string_text(member.0) + ":"@ + member.1
}

/// The JSON object with the given members, in their order.
pub open spec fn object_text(members: Seq<(Seq<char>, Seq<char>)>) -> Seq<char> {
    "{"@ + joined(members.map_values(|m: (Seq<char>, Seq<char>)| member_text(m))) + "}"@
}

/// The views of a sequence of strings.
pub open spec fn strings_view(items: Seq<String>) -> Seq<Seq<char>> {
    items.map_values(|s: String| s@)
}

/// A member with the given key and value text.
pub fn member(name: &str, value: String) -> (r: JsonMember)
    ensures
        r.name@ == name@,
        r.value@ == value@,
{
    JsonMember { name: String::from_str(name), value }
}

/// Writes the JSON array whose elements have the texts `items`.
pub fn write_array(items: &Vec<String>) -> (r: String)
    ensures
        r@ == array_text(strings_view(items@)),
{
    let ghost all = strings_view(items@);
    let mut s = String::from_str("[");
    let mut i: usize = 0;
    while i < items.len()
        invariant
            i <= items.len(),
            all == strings_view(items@),
            s@ == "["@ + joined(all.take(i as int)),
        decreases items.len() - i,
    {
        if i > 0 {
            s.append(",");
        }
        s.append(items[i].as_str());
        proof {
            let next = all.take(i as int + 1);
            assert(next.drop_last() =~= all.take(i as int));
        }
        i += 1;
    }
    assert(all.take(i as int) =~= all);
    s.append("]");
    s
}

/// Writes the JSON object with the given members, in their order.
pub fn write_object(members: &Vec<JsonMember>) -> (r: String)
    ensures
        r@ == object_text(members_view(members@)),
{
    let ghost all = members_view(members@).map_values(
        |m: (Seq<char>, Seq<char>)| member_text(m),
    );
    let mut s = String::from_str("{");
    let mut i: usize = 0;
    while i < members.len()
        invariant
            i <= members.len(),
            all == members_view(members@).map_values(|m: (Seq<char>, Seq<char>)| member_text(m)),
            s@ == "{"@ + joined(all.take(i as int)),
        decreases members.len() - i,
    {
        if i > 0 {
            s.append(",");
        }
        let key = json_quote(members[i].name.as_str());
        s.append(key.as_str());
        s.append(":");
        s.append(members[i].value.as_str());
        proof {
            let next = all.take(i as int + 1);
            assert(next.drop_last() =~= all.take(i as int));
        }
        i += 1;
    }
    assert(all.take(i as int) =~= all);
    s.append("}");
    s
}

} // verus!
