use vstd::prelude::*;
use crate::text::{decimal, same_text};

verus! {

/// A parsed JSON document.
#[derive(Debug)]
pub enum JsonValue {
    Null,
    Bool(bool),
    /// A non-negative integer that fits in 64 bits.
    UInt(u64),
    /// Any other number, as its decimal text.
    Number(String),
    Str(String),
    Array(Vec<JsonValue>),
    /// Members in document order.
    Object(Vec<(String, JsonValue)>),
}

/// Whether no two members share a name.
pub open spec fn distinct_names(f: Seq<(String, JsonValue)>) -> bool {
    forall|i: int, j: int|
        0 <= i < f.len() && 0 <= j < f.len() && i != j ==> f[i].0@ != f[j].0@
}

/// Whether some member is named `key` and has value `v`.
pub open spec fn has_entry(f: Seq<(String, JsonValue)>, key: Seq<char>, v: JsonValue) -> bool {
    exists|i: int| 0 <= i < f.len() && f[i].0@ == key && f[i].1 == v
}

/// Whether two member lists hold the same members, perhaps in another order.
pub open spec fn same_members(f: Seq<(String, JsonValue)>, g: Seq<(String, JsonValue)>) -> bool {
    forall|key: Seq<char>, v: JsonValue| has_entry(f, key, v) <==> has_entry(g, key, v)
}

proof fn lemma_member_is_entry(f: Seq<(String, JsonValue)>, key: Seq<char>, v: JsonValue)
    requires
        distinct_names(f),
    ensures
        member(f, key) == Some(v) <==> has_entry(f, key, v),
    decreases f.len(),
{
    if f.len() > 0 {
        let rest = f.drop_first();
        assert(distinct_names(rest)) by {
            assert forall|i: int, j: int|
                0 <= i < rest.len() && 0 <= j < rest.len() && i != j implies rest[i].0@
                != rest[j].0@ by {
                assert(rest[i] == f[i + 1] && rest[j] == f[j + 1]);
            }
        }
        lemma_member_is_entry(rest, key, v);
        if f[0].0@ == key {
            if has_entry(f, key, v) {
                let i = choose|i: int| 0 <= i < f.len() && f[i].0@ == key && f[i].1 == v;
                assert(i == 0);
            }
        } else {
            if has_entry(f, key, v) {
                let i = choose|i: int| 0 <= i < f.len() && f[i].0@ == key && f[i].1 == v;
                assert(rest[i - 1] == f[i]);
            }
            if has_entry(rest, key, v) {
                let i = choose|i: int| 0 <= i < rest.len() && rest[i].0@ == key && rest[i].1 == v;
                assert(rest[i] == f[i + 1]);
            }
        }
    }
}

/// Looking a member up by name does not depend on the order of the members,
/// when no two share a name.
pub proof fn lemma_member_order_independent(
    f: Seq<(String, JsonValue)>,
    g: Seq<(String, JsonValue)>,
    key: Seq<char>,
)
    requires
        distinct_names(f),
        distinct_names(g),
        same_members(f, g),
    ensures
        member(f, key) == member(g, key),
{
    match member(f, key) {
        Some(v) => {
            lemma_member_is_entry(f, key, v);
            assert(has_entry(g, key, v));
            lemma_member_is_entry(g, key, v);
        },
        None => {
            if let Some(w) = member(g, key) {
                lemma_member_is_entry(g, key, w);
                assert(has_entry(f, key, w));
                lemma_member_is_entry(f, key, w);
            }
        },
    }
}

/// The value of the first member named `key`, if any.
pub open spec fn member(fields: Seq<(String, JsonValue)>, key: Seq<char>) -> Option<JsonValue>
    decreases fields.len(),
{
    if fields.len() == 0 {
        None
    } else if fields[0].0@ == key {
        Some(fields[0].1)
    } else {
        member(fields.drop_first(), key)
    }
}

/// The members of an object (none when the value is not an object).
pub open spec fn object_fields(v: JsonValue) -> Seq<(String, JsonValue)> {
    match v {
        JsonValue::Object(f) => f@,
        _ => Seq::empty(),
    }
}

/// The text of a string value.
pub open spec fn text_of(v: Option<JsonValue>) -> Option<Seq<char>> {
    match v {
        Some(JsonValue::Str(s)) => Some(s@),
        _ => None,
    }
}

/// A non-negative integer value that fits in `usize`.
pub open spec fn count_of(v: Option<JsonValue>) -> Option<usize> {
    match v {
        Some(JsonValue::UInt(n)) => if n <= usize::MAX {
            Some(n as usize)
        } else {
            None
        },
        _ => None,
    }
}

/// A boolean value.
pub open spec fn flag_of(v: Option<JsonValue>) -> Option<bool> {
    match v {
        Some(JsonValue::Bool(b)) => Some(b),
        _ => None,
    }
}

/// The decimal text of a number value.
pub open spec fn number_text_of(v: Option<JsonValue>) -> Option<Seq<char>> {
    match v {
        Some(JsonValue::UInt(n)) => Some(decimal(n as nat)),
        Some(JsonValue::Number(s)) => Some(s@),
        _ => None,
    }
}

/// A string that may be absent: a missing member and `null` both mean absent.
pub open spec fn opt_text_of(v: Option<JsonValue>) -> Option<Option<Seq<char>>> {
    match v {
        None => Some(None),
        Some(JsonValue::Null) => Some(None),
        Some(JsonValue::Str(s)) => Some(Some(s@)),
        _ => None,
    }
}

/// The text of an element of a string array.
pub open spec fn str_view(v: JsonValue) -> Seq<char> {
    match v {
        JsonValue::Str(s) => s@,
        _ => Seq::empty(),
    }
}

/// Whether every element is a string.
pub open spec fn all_strings(items: Seq<JsonValue>) -> bool {
    forall|i: int| 0 <= i < items.len() ==> #[trigger] items[i] is Str
}

/// The texts of an array of strings.
pub open spec fn texts_of(v: Option<JsonValue>) -> Option<Seq<Seq<char>>> {
    match v {
        Some(JsonValue::Array(items)) => if all_strings(items@) {
            Some(items@.map_values(|x: JsonValue| str_view(x)))
        } else {
            None
        },
        _ => None,
    }
}

/// An array of strings that may be absent (missing or `null`).
pub open spec fn opt_texts_of(v: Option<JsonValue>) -> Option<Option<Seq<Seq<char>>>> {
    match v {
        None => Some(None),
        Some(JsonValue::Null) => Some(None),
        _ => match texts_of(v) {
            Some(t) => Some(Some(t)),
            None => None,
        },
    }
}

/// The views of a sequence of strings.
pub open spec fn views(v: Seq<String>) -> Seq<Seq<char>> {
    v.map_values(|s: String| s@)
}

pub open spec fn opt_view(o: Option<String>) -> Option<Seq<char>> {
    match o {
        Some(s) => Some(s@),
        None => None,
    }
}

pub open spec fn opt_views(o: Option<Vec<String>>) -> Option<Seq<Seq<char>>> {
    match o {
        Some(v) => Some(views(v@)),
        None => None,
    }
}

/// The position of the first member named `key`.
pub fn member_index(fields: &Vec<(String, JsonValue)>, key: &str) -> (r: Option<usize>)
    ensures
        match r {
            Some(i) => i < fields@.len() && member(fields@, key@) == Some(fields@[i as int].1),
            None => member(fields@, key@) is None,
        },
{
    let mut i: usize = 0;
    assert(fields@.subrange(0, fields@.len() as int) =~= fields@);
    while i < fields.len()
        invariant
            i <= fields@.len(),
            member(fields@, key@) == member(fields@.subrange(i as int, fields@.len() as int), key@),
        decreases fields.len() - i,
    {
        let ghost rest = fields@.subrange(i as int, fields@.len() as int);
        if same_text(fields[i].0.as_str(), key) {
            return Some(i);
        }
        assert(rest.drop_first() =~= fields@.subrange(i + 1, fields@.len() as int));
        i = i + 1;
    }
    None
}

/// The value of the first member named `key`.
pub fn find_member<'a>(fields: &'a Vec<(String, JsonValue)>, key: &str) -> (r: Option<&'a JsonValue>)
    ensures
        match r {
            Some(v) => member(fields@, key@) == Some(*v),
            None => member(fields@, key@) is None,
        },
{
    match member_index(fields, key) {
        Some(i) => Some(&fields[i].1),
        None => None,
    }
}

/// Moves out the value of the first member named `key`.
pub fn take_member(fields: Vec<(String, JsonValue)>, key: &str) -> (r: Option<JsonValue>)
    ensures
        r == member(fields@, key@),
{
    match member_index(&fields, key) {
        Some(i) => {
            let mut fields = fields;
            let entry = fields.remove(i);
            Some(entry.1)
        },
        None => None,
    }
}

/// A string member.
pub fn get_text(fields: &Vec<(String, JsonValue)>, key: &str) -> (r: Option<String>)
    ensures
        opt_view(r) == text_of(member(fields@, key@)),
{
    match find_member(fields, key) {
        Some(JsonValue::Str(s)) => Some(s.clone()),
        _ => None,
    }
}

/// A non-negative integer member that fits in `usize`.
pub fn get_count(fields: &Vec<(String, JsonValue)>, key: &str) -> (r: Option<usize>)
    ensures
        r == count_of(member(fields@, key@)),
{
    match find_member(fields, key) {
        Some(JsonValue::UInt(n)) => if *n <= usize::MAX as u64 {
            Some(*n as usize)
        } else {
            None
        },
        _ => None,
    }
}

/// A boolean member.
pub fn get_flag(fields: &Vec<(String, JsonValue)>, key: &str) -> (r: Option<bool>)
    ensures
        r == flag_of(member(fields@, key@)),
{
    match find_member(fields, key) {
        Some(JsonValue::Bool(b)) => Some(*b),
        _ => None,
    }
}

/// A number member, as its decimal text.
pub fn get_number_text(fields: &Vec<(String, JsonValue)>, key: &str) -> (r: Option<String>)
    ensures
        opt_view(r) == number_text_of(member(fields@, key@)),
{
    match find_member(fields, key) {
        Some(JsonValue::UInt(n)) => {
            let mut s = String::new();
            crate::text::append_decimal(&mut s, *n);
            assert(s@ =~= decimal(*n as nat));
            Some(s)
        },
        Some(JsonValue::Number(s)) => Some(s.clone()),
        _ => None,
    }
}

/// A string member that may be absent; `Err(())` when it has another type.
pub fn get_opt_text(fields: &Vec<(String, JsonValue)>, key: &str) -> (r: Result<Option<String>, ()>)
    ensures
        match r {
            Ok(o) => opt_text_of(member(fields@, key@)) == Some(opt_view(o)),
            Err(_) => opt_text_of(member(fields@, key@)) is None,
        },
{
    match find_member(fields, key) {
        None => Ok(None),
        Some(JsonValue::Null) => Ok(None),
        Some(JsonValue::Str(s)) => Ok(Some(s.clone())),
        _ => Err(()),
    }
}

/// The texts of an array of strings.
pub fn strings_of(items: &Vec<JsonValue>) -> (r: Option<Vec<String>>)
    ensures
        match r {
            Some(v) => all_strings(items@) && views(v@) == items@.map_values(|x: JsonValue| str_view(x)),
            None => !all_strings(items@),
        },
{
    let mut out: Vec<String> = Vec::new();
    let mut i: usize = 0;
    while i < items.len()
        invariant
            i <= items@.len(),
            all_strings(items@.subrange(0, i as int)),
            views(out@) == items@.subrange(0, i as int).map_values(|x: JsonValue| str_view(x)),
        decreases items.len() - i,
    {
        let ghost old_out = out@;
        match &items[i] {
            JsonValue::Str(s) => {
                let c = s.clone();
                assert(c@ == str_view(items@[i as int]));
                out.push(c);
            },
            _ => {
                assert(!(items@[i as int] is Str));
                return None;
            },
        }
        assert(items@.subrange(0, i + 1) =~= items@.subrange(0, i as int).push(items@[i as int]));
        assert(views(out@) =~= views(old_out).push(str_view(items@[i as int])));
        assert(views(out@) =~= items@.subrange(0, i + 1).map_values(|x: JsonValue| str_view(x)));
        i = i + 1;
        assert(forall|j: int| 0 <= j < i ==> items@.subrange(0, i as int)[j] == items@[j]);
    }
    assert(items@.subrange(0, items@.len() as int) =~= items@);
    Some(out)
}

/// A member that is an array of strings.
pub fn get_texts(fields: &Vec<(String, JsonValue)>, key: &str) -> (r: Option<Vec<String>>)
    ensures
        opt_views(r) == texts_of(member(fields@, key@)),
{
    match find_member(fields, key) {
        Some(JsonValue::Array(items)) => strings_of(items),
        _ => None,
    }
}

/// A member that is an array of strings or absent; `Err(())` when it has another type.
pub fn get_opt_texts(fields: &Vec<(String, JsonValue)>, key: &str) -> (r: Result<
    Option<Vec<String>>,
    (),
>)
    ensures
        match r {
            Ok(o) => opt_texts_of(member(fields@, key@)) == Some(opt_views(o)),
            Err(_) => opt_texts_of(member(fields@, key@)) is None,
        },
{
    match find_member(fields, key) {
        None => Ok(None),
        Some(JsonValue::Null) => Ok(None),
        Some(JsonValue::Array(items)) => match strings_of(items) {
            Some(v) => Ok(Some(v)),
            None => Err(()),
        },
        _ => Err(()),
    }
}

} // verus!
