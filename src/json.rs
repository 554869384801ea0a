//! JSON framing for request bodies: objects of the fields that were set,
//! arrays, and string literals quoted by serde_json.

use vstd::prelude::*;
use crate::text::{join, views};

verus! {

/// A lowercase hexadecimal digit (0 to 15).
pub open spec fn hex_digit(d: nat) -> char {
    if d < 10 {
        crate::text::digit_char(d)
    } else if d == 10 { 'a' }
    else if d == 11 { 'b' }
    else if d == 12 { 'c' }
    else if d == 13 { 'd' }
    else if d == 14 { 'e' }
    else { 'f' }
}

/// How one character stands inside a JSON string: the quote, the backslash and
/// the control characters are escaped (the short forms where JSON has one,
/// `\u00xx` otherwise); every other character stands for itself.
pub open spec fn escaped_char(c: char) -> Seq<char> {
    if c == '"' {
        seq!['\\', '"']
    } else if c == '\\' {
        seq!['\\', '\\']
    } else if c == '\u{8}' {
        seq!['\\', 'b']
    } else if c == '\t' {
        seq!['\\', 't']
    } else if c == '\n' {
        seq!['\\', 'n']
    } else if c == '\u{c}' {
        seq!['\\', 'f']
    } else if c == '\r' {
        seq!['\\', 'r']
    } else if (c as u32) < 0x20 {
        seq!['\\', 'u', '0', '0', hex_digit(((c as u32) / 16) as nat), hex_digit(((c as u32) % 16) as nat)]
    } else {
        seq![c]
    }
}

/// The characters of `s`, each escaped as inside a JSON string.
pub open spec fn escaped(s: Seq<char>) -> Seq<char>
    decreases s.len(),
{
    if s.len() == 0 {
        Seq::empty()
    } else {
        escaped(s.drop_last()) + escaped_char(s.last())
    }
}

/// The JSON string literal holding `s`.
pub open spec fn json_quoted(s: Seq<char>) -> Seq<char> {
    seq!['"'] + escaped(s) + seq!['"']
}

/// Relies on `serde_json::to_string` applied to a `str`: it writes the string
/// between quotes, escaping each character as `escaped_char` says (its escape
/// table and `write_char_escape`), and cannot fail when writing to memory.
#[verifier::external_body]
pub(crate) fn quote(s: &str) -> (r: String)
    ensures
        r@ == json_quoted(s@),
{
    serde_json::to_string(s).unwrap_or_default()
}

/// One `"key":value` member of an object.
pub open spec fn member_text(f: (Seq<char>, Seq<char>)) -> Seq<char> {
    seq!['"'] + f.0 + seq!['"', ':'] + f.1
}

/// An object with the given members, in order.
pub open spec fn object_text(fields: Seq<(Seq<char>, Seq<char>)>) -> Seq<char> {
    seq!['{'] + join(fields.map_values(|f: (Seq<char>, Seq<char>)| member_text(f)), seq![',']) + seq!['}']
}

/// An array of already encoded values.
pub open spec fn array_text(items: Seq<Seq<char>>) -> Seq<char> {
    seq!['['] + join(items, seq![',']) + seq![']']
}

/// An array of JSON strings.
pub open spec fn string_array_text(items: Seq<Seq<char>>) -> Seq<char> {
    array_text(items.map_values(|s: Seq<char>| json_quoted(s)))
}

/// The views of (key, encoded value) pairs.
pub open spec fn field_views(v: Seq<(String, String)>) -> Seq<(Seq<char>, Seq<char>)> {
    v.map_values(|p: (String, String)| (p.0@, p.1@))
}

/// The keys of a list of members.
pub open spec fn keys(fields: Seq<(Seq<char>, Seq<char>)>) -> Seq<Seq<char>> {
    fields.map_values(|f: (Seq<char>, Seq<char>)| f.0)
}

/// The member `key` when a value is present, and nothing otherwise.
pub open spec fn optional(key: Seq<char>, value: Option<Seq<char>>) -> Seq<(Seq<char>, Seq<char>)> {
    match value {
        Some(v) => seq![(key, v)],
        None => Seq::empty(),
    }
}

/// Appends the member `key: value` to `fields`.
pub fn add_field(fields: &mut Vec<(String, String)>, key: &str, value: String)
    ensures
        field_views(final(fields)@) == field_views(old(fields)@).push((key@, value@)),
{
    let k = key.to_owned();
    fields.push((k, value));
    proof {
        assert(field_views(final(fields)@) =~= field_views(old(fields)@).push((key@, value@)));
    }
}

/// An object with the given members, in order.
pub fn object(fields: &Vec<(String, String)>) -> (r: String)
    ensures
        r@ == object_text(field_views(fields@)),
{
    let ghost members = field_views(fields@).map_values(|f: (Seq<char>, Seq<char>)| member_text(f));
    let mut out = String::new();
    let mut i: usize = 0;
    while i < fields.len()
        invariant
            i <= fields@.len(),
            members == field_views(fields@).map_values(|f: (Seq<char>, Seq<char>)| member_text(f)),
            out@ == join(members.subrange(0, i as int), seq![',']),
        decreases fields@.len() - i,
    {
        proof {
            assert(members.subrange(0, i as int + 1).drop_last() =~= members.subrange(0, i as int));
            reveal_strlit(",");
            reveal_strlit("\"");
            reveal_strlit("\":");
        }
        if i > 0 {
            out.append(",");
        }
        out.append("\"");
        out.append(fields[i].0.as_str());
        out.append("\":");
        out.append(fields[i].1.as_str());
        i = i + 1;
    }
    proof {
        assert(members.subrange(0, fields@.len() as int) =~= members);
        reveal_strlit("{");
        reveal_strlit("}");
    }
    let mut r = String::from_str("{");
    r.append(out.as_str());
    r.append("}");
    r
}

/// An array of already encoded values.
pub fn array(items: &Vec<String>) -> (r: String)
    ensures
        r@ == array_text(views(items@)),
{
    let mut out = String::new();
    let mut i: usize = 0;
    while i < items.len()
        invariant
            i <= items@.len(),
            out@ == join(views(items@).subrange(0, i as int), seq![',']),
        decreases items@.len() - i,
    {
        proof {
            assert(views(items@).subrange(0, i as int + 1).drop_last() =~= views(items@).subrange(0, i as int));
            reveal_strlit(",");
        }
        if i > 0 {
            out.append(",");
        }
        out.append(items[i].as_str());
        i = i + 1;
    }
    proof {
        assert(views(items@).subrange(0, items@.len() as int) =~= views(items@));
        reveal_strlit("[");
        reveal_strlit("]");
    }
    let mut r = String::from_str("[");
    r.append(out.as_str());
    r.append("]");
    r
}

/// An array of JSON strings.
pub fn string_array(items: &Vec<String>) -> (r: String)
    ensures
        r@ == string_array_text(views(items@)),
{
    let mut quoted: Vec<String> = Vec::new();
    let mut i: usize = 0;
    while i < items.len()
        invariant
            i <= items@.len(),
            quoted@.len() == i,
            forall|j: int| 0 <= j < i ==> #[trigger] quoted@[j]@ == json_quoted(items@[j]@),
        decreases items@.len() - i,
    {
        let q = quote(items[i].as_str());
        quoted.push(q);
        i = i + 1;
    }
    proof {
        assert(views(quoted@) =~= views(items@).map_values(|s: Seq<char>| json_quoted(s)));
    }
    array(&quoted)
}

/// `true` or `false` as a JSON value.
pub fn bool_value(b: bool) -> (r: String)
    ensures
        r@ == crate::text::bool_text(b),
{
    let mut r = String::new();
    crate::text::push_bool(&mut r, b);
    r
}

/// An integer as a JSON number.
pub fn int_value(n: i64) -> (r: String)
    ensures
        r@ == crate::text::int_decimal(n as int),
{
    let mut r = String::new();
    crate::text::push_int(&mut r, n);
    r
}


pub open spec fn opt_bool_text(o: Option<bool>) -> Option<Seq<char>> {
    match o {
        Some(b) => Some(crate::text::bool_text(b)),
        None => None,
    }
}

pub open spec fn opt_int_text(o: Option<i32>) -> Option<Seq<char>> {
    match o {
        Some(n) => Some(crate::text::int_decimal(n as int)),
        None => None,
    }
}

pub open spec fn opt_string_text(o: Option<String>) -> Option<Seq<char>> {
    match o {
        Some(s) => Some(json_quoted(s@)),
        None => None,
    }
}

pub open spec fn opt_strings_text(o: Option<Vec<String>>) -> Option<Seq<char>> {
    match o {
        Some(v) => Some(string_array_text(views(v@))),
        None => None,
    }
}

/// Appends the member `key` to `fields` when `value` is present.
pub fn add_optional(fields: &mut Vec<(String, String)>, key: &str, value: Option<String>)
    ensures
        field_views(final(fields)@) == field_views(old(fields)@) + optional(key@, crate::rest::opt_view(value)),
{
    match value {
        Some(v) => {
            add_field(fields, key, v);
            proof {
                assert(field_views(final(fields)@) =~= field_views(old(fields)@) + optional(key@, crate::rest::opt_view(value)));
            }
        },
        None => {
            proof {
                assert(field_views(fields@) =~= field_views(old(fields)@) + optional(key@, crate::rest::opt_view(value)));
            }
        },
    }
}

pub fn opt_bool_value(o: Option<bool>) -> (r: Option<String>)
    ensures
        crate::rest::opt_view(r) == opt_bool_text(o),
{
    match o {
        Some(b) => Some(bool_value(b)),
        None => None,
    }
}

pub fn opt_int_value(o: Option<i32>) -> (r: Option<String>)
    ensures
        crate::rest::opt_view(r) == opt_int_text(o),
{
    match o {
        Some(n) => Some(int_value(n as i64)),
        None => None,
    }
}

pub fn opt_string_value(o: &Option<String>) -> (r: Option<String>)
    ensures
        crate::rest::opt_view(r) == opt_string_text(*o),
{
    match o {
        Some(s) => Some(quote(s.as_str())),
        None => None,
    }
}

pub fn opt_strings_value(o: &Option<Vec<String>>) -> (r: Option<String>)
    ensures
        crate::rest::opt_view(r) == opt_strings_text(*o),
{
    match o {
        Some(v) => Some(string_array(v)),
        None => None,
    }
}

} // verus!
