//! JSON documents as a tree of the library's own. `serde_json` reads the bytes
//! and escapes the strings; its part is stated here and not proved.

use vstd::prelude::*;
use vstd::string::StringExecFns;
use crate::text::same_text;

verus! {

/// What a JSON document holds, as a mathematical value.
pub enum JsonModel {
    Null,
    Bool(bool),
    /// An integer that fits in 64 signed bits.
    Int(int),
    /// Any other number: its value is not kept.
    Number,
    Text(Seq<char>),
    List(Seq<JsonModel>),
    /// The members in the order in which the document is walked.
    Object(Seq<(Seq<char>, JsonModel)>),
}

/// A JSON document.
#[derive(Debug, PartialEq, Eq)]
pub enum Json {
    Null,
    Bool(bool),
    Int(i64),
    Number,
    Text(String),
    List(Vec<Json>),
    Object(Vec<(String, Json)>),
}

impl Json {
    /// What this document holds.
    pub open spec fn model(self) -> JsonModel
        decreases self,
    {
        match self {
            Json::Null => JsonModel::Null,
            Json::Bool(b) => JsonModel::Bool(b),
            Json::Int(n) => JsonModel::Int(n as int),
            Json::Number => JsonModel::Number,
            Json::Text(s) => JsonModel::Text(s@),
            Json::List(items) => JsonModel::List(
                Seq::new(
                    items@.len(),
                    |i: int|
                        if 0 <= i < items@.len() {
                            items@[i].model()
                        } else {
                            JsonModel::Null
                        },
                ),
            ),
            Json::Object(members) => JsonModel::Object(
                Seq::new(
                    members@.len(),
                    |i: int|
                        if 0 <= i < members@.len() {
                            (members@[i].0@, members@[i].1.model())
                        } else {
                            (Seq::empty(), JsonModel::Null)
                        },
                ),
            ),
        }
    }
}

impl View for Json {
    type V = JsonModel;

    open spec fn view(&self) -> JsonModel {
        self.model()
    }
}

/// `serde_json::Value`, a JSON document as `serde_json` holds it. Nothing is
/// seen of it here but through the functions below.
#[verifier::external_type_specification]
#[verifier::external_body]
pub struct ExValue(serde_json::Value);

/// `serde_json::Map`, the members of a JSON object as `serde_json` holds them.
#[verifier::external_type_specification]
#[verifier::external_body]
#[verifier::reject_recursive_types(K)]
#[verifier::reject_recursive_types(V)]
pub struct ExMap<K, V>(serde_json::Map<K, V>);

/// What a `serde_json::Value` holds. A number is an `Int` where
/// `Value::as_i64` gives it, and a `Number` where it does not.
pub uninterp spec fn held(v: serde_json::Value) -> JsonModel;

/// What a `serde_json::Map` holds: its members in the order in which
/// `Map::iter` walks them.
pub uninterp spec fn members_held(m: serde_json::Map<String, serde_json::Value>) -> Seq<
    (Seq<char>, JsonModel),
>;

/// What `serde_json::from_slice` reads from the bytes: the document, or nothing
/// where it refuses the bytes.
pub uninterp spec fn document(bytes: Seq<u8>) -> Option<JsonModel>;

/// `Value::is_null` tells whether the value is JSON's `null`.
pub assume_specification[ serde_json::Value::is_null ](v: &serde_json::Value) -> (r: bool)
    ensures
        r == (held(*v) is Null),
;

/// `Value::as_bool` gives the truth value that the value is, and nothing
/// where it is none.
pub assume_specification[ serde_json::Value::as_bool ](v: &serde_json::Value) -> (r: Option<bool>)
    ensures
        match r {
            Some(b) => held(*v) == JsonModel::Bool(b),
            None => !(held(*v) is Bool),
        },
;

/// `Value::as_i64` gives the number where the value is an integer that fits
/// in 64 signed bits, and nothing where it is anything else.
pub assume_specification[ serde_json::Value::as_i64 ](v: &serde_json::Value) -> (r: Option<i64>)
    ensures
        match r {
            Some(n) => held(*v) == JsonModel::Int(n as int),
            None => !(held(*v) is Int),
        },
;

/// `Value::as_str` gives the text where the value is a string, and nothing
/// where it is none.
pub assume_specification<'a>[ serde_json::Value::as_str ](v: &'a serde_json::Value) -> (r: Option<
    &'a str,
>)
    ensures
        match r {
            Some(s) => held(*v) == JsonModel::Text(s@),
            None => !(held(*v) is Text),
        },
;

/// `Value::as_array` gives the items where the value is an array, and nothing
/// where it is none.
pub assume_specification<'a>[ serde_json::Value::as_array ](v: &'a serde_json::Value) -> (r: Option<
    &'a Vec<serde_json::Value>,
>)
    ensures
        match r {
            Some(items) => held(*v) == JsonModel::List(
                Seq::new(items@.len(), |i: int| held(items@[i])),
            ),
            None => !(held(*v) is List),
        },
;

/// `Value::as_object` gives the members where the value is an object, and
/// nothing where it is none.
pub assume_specification<'a>[ serde_json::Value::as_object ](v: &'a serde_json::Value) -> (r:
    Option<&'a serde_json::Map<String, serde_json::Value>>)
    ensures
        match r {
            Some(m) => held(*v) == JsonModel::Object(members_held(*m)),
            None => !(held(*v) is Object),
        },
;

/// `Map::iter`, gathered: the members of the map, name and value, in the
/// order in which it walks them.
#[verifier::external_body]
fn members_of<'a>(m: &'a serde_json::Map<String, serde_json::Value>) -> (r: Vec<
    (&'a String, &'a serde_json::Value),
>)
    ensures
        r@.len() == members_held(*m).len(),
        forall|i: int|
            0 <= i < r@.len() ==> (#[trigger] r@[i]).0@ == members_held(*m)[i].0 && held(*r@[i].1)
                == members_held(*m)[i].1,
{
    m.iter().collect()
}

/// `serde_json::from_slice` for a `Value`: the document that the bytes are,
/// or nothing where it refuses them. Which bytes it takes, and for what, is
/// not stated here: `document` is the name of its answer.
#[verifier::external_body]
fn read_document(bytes: &[u8]) -> (r: Option<serde_json::Value>)
    ensures
        match r {
            Some(v) => document(bytes@) == Some(held(v)),
            None => document(bytes@) is None,
        },
{
    serde_json::from_slice::<serde_json::Value>(bytes).ok()
}

/// Why a document could not be decoded.
#[derive(Clone, Copy, Debug, PartialEq, Eq, Structural)]
pub enum DecodeError {
    /// The bytes are not one JSON document.
    Malformed,
    /// A required member is absent.
    MissingField,
    /// A value is present but has not the shape required of it.
    WrongShape,
    /// The type discriminator names no known variant.
    UnknownType,
    /// An entity of another kind than the one asked for.
    UnexpectedKind,
}

/// The value under `key` in a run of members: the first member of that name.
pub open spec fn lookup(members: Seq<(Seq<char>, JsonModel)>, key: Seq<char>) -> Option<JsonModel>
    decreases members.len(),
{
    if members.len() == 0 {
        None
    } else if members[0].0 == key {
        Some(members[0].1)
    } else {
        lookup(members.skip(1), key)
    }
}

/// The members that are not named `key`, in order.
pub open spec fn removed(members: Seq<(Seq<char>, JsonModel)>, key: Seq<char>) -> Seq<(Seq<char>, JsonModel)>
    decreases members.len(),
{
    if members.len() == 0 {
        members
    } else if members[0].0 == key {
        removed(members.skip(1), key)
    } else {
        seq![members[0]] + removed(members.skip(1), key)
    }
}

/// Taking the members named `key` out leaves no member of that name, and
/// every other member as it was.
pub proof fn lemma_lookup_removed(members: Seq<(Seq<char>, JsonModel)>, key: Seq<char>, other: Seq<char>)
    ensures
        lookup(removed(members, key), other) == (if other == key {
            None
        } else {
            lookup(members, other)
        }),
    decreases members.len(),
{
    if members.len() > 0 {
        lemma_lookup_removed(members.skip(1), key, other);
        if members[0].0 != key {
            let rest = removed(members.skip(1), key);
            assert((seq![members[0]] + rest).skip(1) =~= rest);
            assert((seq![members[0]] + rest)[0] == members[0]);
        }
    }
}

impl JsonModel {
    /// The object without its members named `key`; any other value as it is.
    pub open spec fn without(self, key: Seq<char>) -> JsonModel {
        match self {
            JsonModel::Object(members) => JsonModel::Object(removed(members, key)),
            _ => self,
        }
    }

    /// What `without` does to the members of an object, seen from outside.
    pub proof fn lemma_without(self, key: Seq<char>, other: Seq<char>)
        ensures
            self.without(key) is Object == self is Object,
            self.without(key).member(other) == (if other == key {
                None
            } else {
                self.member(other)
            }),
    {
        if let JsonModel::Object(members) = self {
            lemma_lookup_removed(members, key, other);
        }
    }

    /// The member `key` of an object; nothing where this is no object or has
    /// no such member.
    pub open spec fn member(self, key: Seq<char>) -> Option<JsonModel> {
        match self {
            JsonModel::Object(members) => lookup(members, key),
            _ => None,
        }
    }

    /// The member `key` where it is present and not null.
    pub open spec fn present(self, key: Seq<char>) -> Option<JsonModel> {
        match self.member(key) {
            Some(JsonModel::Null) => None,
            other => other,
        }
    }
}

impl Json {
    /// The member `key` of an object.
    pub fn member(&self, key: &str) -> (r: Option<&Json>)
        ensures
            match r {
                Some(j) => self@.member(key@) == Some(j@),
                None => self@.member(key@) is None,
            },
    {
        match self {
            Json::Object(members) => {
                let ghost all = self@->Object_0;
                let mut i: usize = 0;
                proof {
                    assert(all.skip(0) =~= all);
                }
                while i < members.len()
                    invariant
                        i <= members@.len(),
                        self@ == JsonModel::Object(all),
                        all.len() == members@.len(),
                        forall|k: int| 0 <= k < members@.len() ==> all[k] == (members@[k].0@, members@[k].1@),
                        lookup(all, key@) == lookup(all.skip(i as int), key@),
                    decreases members@.len() - i,
                {
                    proof {
                        assert(all.skip(i as int)[0] == all[i as int]);
                        assert(all.skip(i as int).skip(1) =~= all.skip(i + 1));
                    }
                    if same_text(members[i].0.as_str(), key) {
                        return Some(&members[i].1);
                    }
                    i = i + 1;
                }
                None
            },
            _ => None,
        }
    }

    /// The member `key` where it is present and not null.
    pub fn present(&self, key: &str) -> (r: Option<&Json>)
        ensures
            match r {
                Some(j) => self@.present(key@) == Some(j@),
                None => self@.present(key@) is None,
            },
    {
        match self.member(key) {
            Some(Json::Null) => None,
            other => other,
        }
    }

    /// Reads one JSON document from `bytes`.
    pub fn parse(bytes: &[u8]) -> (r: Result<Json, DecodeError>)
        ensures
            match r {
                Ok(j) => document(bytes@) == Some(j@),
                Err(e) => document(bytes@) is None && e == DecodeError::Malformed,
            },
    {
        match read_document(bytes) {
            Some(v) => Ok(lift(&v)),
            None => Err(DecodeError::Malformed),
        }
    }
}

/// The document that a `serde_json::Value` holds, as a tree of the library.
fn lift(v: &serde_json::Value) -> (j: Json)
    ensures
        j@ == held(*v),
    decreases held(*v),
{
    if v.is_null() {
        Json::Null
    } else if let Some(b) = v.as_bool() {
        Json::Bool(b)
    } else if let Some(n) = v.as_i64() {
        Json::Int(n)
    } else if let Some(s) = v.as_str() {
        Json::Text(s.to_owned())
    } else if let Some(items) = v.as_array() {
        let ghost all = held(*v)->List_0;
        let mut out: Vec<Json> = Vec::new();
        let mut i: usize = 0;
        while i < items.len()
            invariant
                i <= items@.len(),
                out@.len() == i,
                held(*v) == JsonModel::List(all),
                all.len() == items@.len(),
                forall|k: int| 0 <= k < items@.len() ==> all[k] == held(#[trigger] items@[k]),
                forall|k: int| 0 <= k < i ==> (#[trigger] out@[k])@ == all[k],
            decreases items@.len() - i,
        {
            proof {
                assert(all[i as int] == held(items@[i as int]));
                assert(decreases_to!(held(*v) => held(*v)->List_0));
                assert(decreases_to!(all => all[i as int]));
            }
            let item = lift(&items[i]);
            out.push(item);
            i = i + 1;
        }
        let j = Json::List(out);
        proof {
            assert(j@->List_0 =~= all);
        }
        j
    } else if let Some(m) = v.as_object() {
        let ghost all = held(*v)->Object_0;
        let members = members_of(m);
        let mut out: Vec<(String, Json)> = Vec::new();
        let mut i: usize = 0;
        while i < members.len()
            invariant
                i <= members@.len(),
                out@.len() == i,
                held(*v) == JsonModel::Object(all),
                all.len() == members@.len(),
                forall|k: int|
                    0 <= k < members@.len() ==> (#[trigger] members@[k]).0@ == all[k].0 && held(
                        *members@[k].1,
                    ) == all[k].1,
                forall|k: int| 0 <= k < i ==> (#[trigger] out@[k]).0@ == all[k].0 && out@[k].1@ == all[k].1,
            decreases members@.len() - i,
        {
            proof {
                assert(held(*members@[i as int].1) == all[i as int].1);
                assert(decreases_to!(held(*v) => held(*v)->Object_0));
                assert(decreases_to!(all => all[i as int]));
                assert(decreases_to!(all[i as int] => all[i as int].1));
            }
            let value = lift(members[i].1);
            let name = members[i].0.clone();
            out.push((name, value));
            i = i + 1;
        }
        let j = Json::Object(out);
        proof {
            assert(j@->Object_0 =~= all);
        }
        j
    } else {
        Json::Number
    }
}

/// The hexadecimal digit, in lower case, that stands for `d`.
pub open spec fn hex_digit(d: int) -> char {
    if d < 10 {
        crate::text::digit_char(d)
    } else if d == 10 {
        'a'
    } else if d == 11 {
        'b'
    } else if d == 12 {
        'c'
    } else if d == 13 {
        'd'
    } else if d == 14 {
        'e'
    } else {
        'f'
    }
}

/// How one character stands inside a JSON string: the quotation mark, the
/// reverse solidus and the control characters below the space are escaped,
/// every other character stands for itself.
pub open spec fn escaped_char(c: char) -> Seq<char> {
    if c == '"' {
        seq!['\\', '"']
    } else if c == '\\' {
        seq!['\\', '\\']
    } else if c == '\u{8}' {
        seq!['\\', 'b']
    } else if c == '\t' {
        seq!['\\', 't']
    } else if c == '\n' {
        seq!['\\', 'n']
    } else if c == '\u{c}' {
        seq!['\\', 'f']
    } else if c == '\r' {
        seq!['\\', 'r']
    } else if (c as int) < 32 {
        seq!['\\', 'u', '0', '0', hex_digit((c as int) / 16), hex_digit((c as int) % 16)]
    } else {
        seq![c]
    }
}

/// The characters of `s`, each as it stands inside a JSON string.
pub open spec fn escaped(s: Seq<char>) -> Seq<char>
    decreases s.len(),
{
    if s.len() == 0 {
        Seq::empty()
    } else {
        escaped(s.drop_last()) + escaped_char(s.last())
    }
}

/// `s` as a JSON string: escaped, between quotation marks.
pub open spec fn quoted(s: Seq<char>) -> Seq<char> {
    seq!['"'] + escaped(s) + seq!['"']
}

/// `serde_json::to_string` on a string slice: the JSON string that holds `s`,
/// each character escaped as `escaped_char` states, between quotation marks.
#[verifier::external_body]
fn quote(s: &str) -> (r: String)
    ensures
        r@ == quoted(s@),
{
    serde_json::to_string(s).unwrap_or_default()
}

/// Appends `s` as a JSON string to `out`.
pub fn push_quoted(out: &mut String, s: &str)
    ensures
        final(out)@ == old(out)@ + quoted(s@),
{
    let q = quote(s);
    out.append(q.as_str());
}

} // verus!
