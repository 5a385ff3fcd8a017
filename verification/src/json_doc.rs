//! JSON documents as plain values: the parameter files the library reads
//! and the documents (tileset metadata, glTF, feature tables) it describes.
use vstd::prelude::*;
use json::JsonValue;
use json::number::Number;

verus! {

/// A JSON value. A number is held as `Number(positive, mantissa, exponent)`:
/// the value `mantissa * 10^exponent`, negated when not positive.
pub enum JsonDoc {
    Null,
    Bool(bool),
    Number(bool, u64, i16),
    Str(String),
    Array(Vec<JsonDoc>),
    /// Members in order; keys are distinct
    Object(Vec<(String, JsonDoc)>),
}

/// The mathematical value of a JSON document
pub enum JsonSpec {
    Null,
    Bool(bool),
    Number(bool, u64, i16),
    Str(Seq<char>),
    Array(Seq<JsonSpec>),
    Object(Seq<(Seq<char>, JsonSpec)>),
}

/// The mathematical value of a document
pub open spec fn json_view(doc: JsonDoc) -> JsonSpec
    decreases doc,
{
    match doc {
        JsonDoc::Null => JsonSpec::Null,
        JsonDoc::Bool(b) => JsonSpec::Bool(b),
        JsonDoc::Number(positive, mantissa, exponent) => JsonSpec::Number(positive, mantissa, exponent),
        JsonDoc::Str(s) => JsonSpec::Str(s@),
        JsonDoc::Array(items) => JsonSpec::Array(
            Seq::new(
                items@.len(),
                |i: int|
                    if 0 <= i < items@.len() {
                        json_view(items@[i])
                    } else {
                        JsonSpec::Null
                    },
            ),
        ),
        JsonDoc::Object(entries) => JsonSpec::Object(
            Seq::new(
                entries@.len(),
                |i: int|
                    if 0 <= i < entries@.len() {
                        (entries@[i].0@, json_view(entries@[i].1))
                    } else {
                        (Seq::empty(), JsonSpec::Null)
                    },
            ),
        ),
    }
}

impl View for JsonDoc {
    type V = JsonSpec;

    open spec fn view(&self) -> JsonSpec {
        json_view(*self)
    }
}

/// The mathematical values of the members of an object
pub open spec fn entries_view(entries: Seq<(String, JsonDoc)>) -> Seq<(Seq<char>, JsonSpec)> {
    Seq::new(entries.len(), |i: int| (entries[i].0@, entries[i].1@))
}

/// The mathematical values of the items of an array
pub open spec fn items_view(items: Seq<JsonDoc>) -> Seq<JsonSpec> {
    Seq::new(items.len(), |i: int| items[i]@)
}

/// No members yet, for an object under construction
pub fn new_members() -> (entries: Vec<(String, JsonDoc)>)
    ensures
        entries_view(entries@) == Seq::<(Seq<char>, JsonSpec)>::empty(),
{
    let entries: Vec<(String, JsonDoc)> = Vec::new();
    assert(entries_view(entries@) =~= Seq::<(Seq<char>, JsonSpec)>::empty());
    entries
}

/// No items yet, for an array under construction
pub fn new_items() -> (items: Vec<JsonDoc>)
    ensures
        items_view(items@) == Seq::<JsonSpec>::empty(),
{
    let items: Vec<JsonDoc> = Vec::new();
    assert(items_view(items@) =~= Seq::<JsonSpec>::empty());
    items
}

/// A string value
pub fn json_str(s: &str) -> (doc: JsonDoc)
    ensures
        doc@ == JsonSpec::Str(s@),
{
    JsonDoc::Str(s.to_owned())
}

/// The value of a non-negative integer
pub open spec fn spec_uint(n: u64) -> JsonSpec {
    JsonSpec::Number(true, n, 0)
}

/// A non-negative integer value
pub fn json_uint(n: u64) -> (doc: JsonDoc)
    ensures
        doc@ == spec_uint(n),
{
    JsonDoc::Number(true, n, 0)
}

/// An object with the given members
pub fn json_object(entries: Vec<(String, JsonDoc)>) -> (doc: JsonDoc)
    ensures
        doc@ == JsonSpec::Object(entries_view(entries@)),
{
    let ghost e = entries@;
    let doc = JsonDoc::Object(entries);
    proof {
        let v = doc@;
        assert(v is Object);
        let inner = v->Object_0;
        assert(inner.len() == e.len());
        assert forall|i: int| 0 <= i < e.len() implies inner[i] == entries_view(e)[i] by {}
        assert(inner =~= entries_view(e));
    }
    doc
}

/// An array with the given items
pub fn json_array(items: Vec<JsonDoc>) -> (doc: JsonDoc)
    ensures
        doc@ == JsonSpec::Array(items_view(items@)),
{
    let ghost e = items@;
    let doc = JsonDoc::Array(items);
    proof {
        let v = doc@;
        assert(v is Array);
        let inner = v->Array_0;
        assert(inner.len() == e.len());
        assert forall|i: int| 0 <= i < e.len() implies inner[i] == items_view(e)[i] by {}
        assert(inner =~= items_view(e));
    }
    doc
}

/// Add a member to the members of an object under construction
pub fn add_member(entries: &mut Vec<(String, JsonDoc)>, key: &str, value: JsonDoc)
    ensures
        entries_view(final(entries)@) == entries_view(old(entries)@).push((key@, value@)),
{
    let ghost v = value@;
    entries.push((key.to_owned(), value));
    assert(entries_view(entries@) =~= entries_view(old(entries)@).push((key@, v)));
}

/// Add an item to the items of an array under construction
pub fn add_item(items: &mut Vec<JsonDoc>, value: JsonDoc)
    ensures
        items_view(final(items)@) == items_view(old(items)@).push(value@),
{
    let ghost v = value@;
    items.push(value);
    assert(items_view(items@) =~= items_view(old(items)@).push(v));
}

/// The index of the first member of `entries` under `key`, if any
pub open spec fn member_index(entries: Seq<(String, JsonDoc)>, key: Seq<char>) -> Option<int>
    decreases entries.len(),
{
    if entries.len() == 0 {
        None
    } else if entries[0].0@ == key {
        Some(0)
    } else {
        match member_index(entries.drop_first(), key) {
            Some(i) => Some(i + 1),
            None => None,
        }
    }
}

/// The member of an object under `key`: `Null` when the value is no object
/// or has no such member.
pub open spec fn spec_member(doc: JsonDoc, key: Seq<char>) -> JsonDoc {
    match doc {
        JsonDoc::Object(entries) => match member_index(entries@, key) {
            Some(i) => entries@[i].1,
            None => JsonDoc::Null,
        },
        _ => JsonDoc::Null,
    }
}

/// The string, when the value is one
pub open spec fn spec_as_str(doc: JsonDoc) -> Option<Seq<char>> {
    match doc {
        JsonDoc::Str(s) => Some(s@),
        _ => None,
    }
}

/// The number, when it is a non-negative integer that fits a `u64`: a
/// positive number with exponent 0
pub open spec fn spec_as_u64(doc: JsonDoc) -> Option<u64> {
    match doc {
        JsonDoc::Number(positive, mantissa, exponent) => if positive && exponent == 0 {
            Some(mantissa)
        } else {
            None
        },
        _ => None,
    }
}

/// The number, when it is a non-negative integer that fits a `u16`
pub open spec fn spec_as_u16(doc: JsonDoc) -> Option<u16> {
    match spec_as_u64(doc) {
        Some(n) => if n <= u16::MAX { Some(n as u16) } else { None },
        None => None,
    }
}

/// The number, when it is a non-negative integer that fits a `u8`
pub open spec fn spec_as_u8(doc: JsonDoc) -> Option<u8> {
    match spec_as_u64(doc) {
        Some(n) => if n <= u8::MAX { Some(n as u8) } else { None },
        None => None,
    }
}

/// The number, when it is a non-negative integer that fits a `usize`
pub open spec fn spec_as_usize(doc: JsonDoc) -> Option<usize> {
    match spec_as_u64(doc) {
        Some(n) => if n <= usize::MAX { Some(n as usize) } else { None },
        None => None,
    }
}

/// Whether the value is the string `s`
pub open spec fn spec_is_str(doc: JsonDoc, s: Seq<char>) -> bool {
    spec_as_str(doc) == Some(s)
}

/// The number of members of an array or object, 0 for other values
pub open spec fn spec_len(doc: JsonDoc) -> nat {
    match doc {
        JsonDoc::Array(items) => items@.len(),
        JsonDoc::Object(entries) => entries@.len(),
        _ => 0,
    }
}

impl JsonDoc {
    /// The member of an object under `key`, or `Null`
    pub fn member(&self, key: &str) -> (value: &JsonDoc)
        ensures
            *value == spec_member(*self, key@),
    {
        match self {
            JsonDoc::Object(entries) => {
                let key_string = key.to_owned();
                let mut i: usize = 0;
                assert(entries@.subrange(0, entries@.len() as int) =~= entries@);
                while i < entries.len()
                    invariant
                        i <= entries@.len(),
                        key_string@ == key@,
                        *self == JsonDoc::Object(*entries),
                        member_index(entries@, key@) == match member_index(
                            entries@.subrange(i as int, entries@.len() as int),
                            key@,
                        ) {
                            Some(j) => Some(j + i),
                            None => None::<int>,
                        },
                    decreases entries@.len() - i,
                {
                    let ghost rest = entries@.subrange(i as int, entries@.len() as int);
                    assert(rest[0] == entries@[i as int]);
                    if entries[i].0 == key_string {
                        assert(member_index(rest, key@) == Some(0int));
                        assert(member_index(entries@, key@) == Some(i as int));
                        assert(*self == JsonDoc::Object(*entries));
                        assert(spec_member(*self, key@) == entries@[i as int].1);
                        return &entries[i].1;
                    }
                    assert(rest.drop_first() =~= entries@.subrange(i + 1, entries@.len() as int));
                    i = i + 1;
                }
                assert(entries@.subrange(i as int, entries@.len() as int).len() == 0);
                &JsonDoc::Null
            },
            _ => &JsonDoc::Null,
        }
    }

    /// The string, when the value is one
    pub fn as_str(&self) -> (s: Option<&str>)
        ensures
            match s {
                Some(s) => spec_as_str(*self) == Some(s@),
                None => spec_as_str(*self) is None,
            },
    {
        match self {
            JsonDoc::Str(s) => Some(s.as_str()),
            _ => None,
        }
    }

    /// The number, when it is a non-negative integer that fits a `u64`
    pub fn as_u64(&self) -> (n: Option<u64>)
        ensures
            n == spec_as_u64(*self),
    {
        match self {
            JsonDoc::Number(positive, mantissa, exponent) => if *positive && *exponent == 0 {
                Some(*mantissa)
            } else {
                None
            },
            _ => None,
        }
    }

    /// The number, when it is a non-negative integer that fits a `u16`
    pub fn as_u16(&self) -> (n: Option<u16>)
        ensures
            n == spec_as_u16(*self),
    {
        match self.as_u64() {
            Some(n) => if n <= 65535 {
                Some(n as u16)
            } else {
                None
            },
            None => None,
        }
    }

    /// The number, when it is a non-negative integer that fits a `u8`
    pub fn as_u8(&self) -> (n: Option<u8>)
        ensures
            n == spec_as_u8(*self),
    {
        match self.as_u64() {
            Some(n) => if n <= 255 {
                Some(n as u8)
            } else {
                None
            },
            None => None,
        }
    }

    /// The number, when it is a non-negative integer that fits a `usize`
    pub fn as_usize(&self) -> (n: Option<usize>)
        ensures
            n == spec_as_usize(*self),
    {
        match self.as_u64() {
            Some(n) => if n <= usize::MAX as u64 {
                Some(n as usize)
            } else {
                None
            },
            None => None,
        }
    }

    /// Whether the value is the string `s`
    pub fn is_str(&self, s: &str) -> (b: bool)
        ensures
            b == spec_is_str(*self, s@),
    {
        match self {
            JsonDoc::Str(t) => *t == s.to_owned(),
            _ => false,
        }
    }

    /// The number of members of an array or object, 0 for other values
    pub fn len(&self) -> (n: usize)
        ensures
            n == spec_len(*self),
    {
        match self {
            JsonDoc::Array(items) => items.len(),
            JsonDoc::Object(entries) => entries.len(),
            _ => 0,
        }
    }

    pub fn is_null(&self) -> (b: bool)
        ensures
            b == (*self is Null),
    {
        match self {
            JsonDoc::Null => true,
            _ => false,
        }
    }

    pub fn is_object(&self) -> (b: bool)
        ensures
            b == (*self is Object),
    {
        match self {
            JsonDoc::Object(_) => true,
            _ => false,
        }
    }
}

#[verifier::external_type_specification]
#[verifier::external_body]
pub struct ExJsonValue(json::JsonValue);

/// The document that `json::parse` reads from a text, or `None` when the
/// text is no JSON
pub uninterp spec fn parsed_document(text: Seq<char>) -> Option<JsonSpec>;

/// The text that `json::stringify` writes for a document
pub uninterp spec fn json_text(doc: JsonSpec) -> Seq<char>;

/// Converts a value of the `json` crate into a document, one variant for
/// the matching variant, a number by its parts (`Number::as_parts`). Nothing
/// is claimed of it: `parse_document` states what the parse and this
/// conversion give together.
#[verifier::external_body]
fn document_of(value: &JsonValue) -> JsonDoc {
    match value {
        JsonValue::Null => JsonDoc::Null,
        JsonValue::Boolean(b) => JsonDoc::Bool(*b),
        JsonValue::Number(number) => {
            let (positive, mantissa, exponent) = number.as_parts();
            JsonDoc::Number(positive, mantissa, exponent)
        },
        JsonValue::Short(text) => JsonDoc::Str(text.as_str().to_owned()),
        JsonValue::String(text) => JsonDoc::Str(text.to_owned()),
        JsonValue::Array(items) => JsonDoc::Array(items.iter().map(document_of).collect()),
        JsonValue::Object(object) => JsonDoc::Object(
            object.iter().map(|(key, member)| (key.to_owned(), document_of(member))).collect(),
        ),
    }
}

/// Converts a document into a value of the `json` crate, one variant for the
/// matching variant, a number from its parts (`Number::from_parts`). Nothing
/// is claimed of it: `stringify` states what this conversion and the
/// serialization give together.
#[verifier::external_body]
fn value_of(doc: &JsonDoc) -> JsonValue {
    match doc {
        JsonDoc::Null => JsonValue::Null,
        JsonDoc::Bool(b) => JsonValue::Boolean(*b),
        JsonDoc::Number(positive, mantissa, exponent) => {
            JsonValue::Number(Number::from_parts(*positive, *mantissa, *exponent))
        },
        JsonDoc::Str(text) => JsonValue::String(text.clone()),
        JsonDoc::Array(items) => JsonValue::Array(items.iter().map(value_of).collect()),
        JsonDoc::Object(members) => JsonValue::Object(
            members.iter().map(|(key, member)| (key.as_str(), value_of(member))).collect(),
        ),
    }
}

/// Calls `json::parse` on the text and converts the value read into a
/// document: `None` when the text is no JSON. The document is named by
/// `parsed_document`, a function of the text alone.
#[verifier::external_body]
fn parse_document(text: &str) -> (doc: Option<JsonDoc>)
    ensures
        doc is None <==> parsed_document(text@) is None,
        doc matches Some(d) ==> parsed_document(text@) == Some(d@),
{
    json::parse(text).ok().map(|value| document_of(&value))
}

/// Calls `json::stringify` on the value of the document. The text is named
/// by `json_text`, a function of the document alone.
#[verifier::external_body]
pub(crate) fn stringify(doc: &JsonDoc) -> (text: String)
    ensures
        text@ == json_text(doc@),
{
    json::stringify(value_of(doc))
}

/// Read a JSON parameter file: the document in the text, or `None` when the
/// text is no JSON.
pub fn parse_parameters(text: &str) -> (doc: Option<JsonDoc>)
    ensures
        doc is None <==> parsed_document(text@) is None,
        doc matches Some(d) ==> parsed_document(text@) == Some(d@),
{
    parse_document(text)
}

/// The member of an object value under `key`: the value of a member with
/// that key, or `Null` when the value is no object or has no such member
pub open spec fn spec_get(doc: JsonSpec, key: Seq<char>) -> JsonSpec {
    match doc {
        JsonSpec::Object(members) => if exists|i: int| 0 <= i < members.len() && #[trigger] members[i].0 == key {
            members[choose|i: int| 0 <= i < members.len() && #[trigger] members[i].0 == key].1
        } else {
            JsonSpec::Null
        },
        _ => JsonSpec::Null,
    }
}

/// The item `i` of an array value, or `Null`
pub open spec fn spec_item(doc: JsonSpec, i: int) -> JsonSpec {
    match doc {
        JsonSpec::Array(items) => if 0 <= i < items.len() {
            items[i]
        } else {
            JsonSpec::Null
        },
        _ => JsonSpec::Null,
    }
}

/// The keys of an object value, in order; empty for other values
pub open spec fn object_keys(doc: JsonSpec) -> Seq<Seq<char>> {
    match doc {
        JsonSpec::Object(members) => Seq::new(members.len(), |i: int| members[i].0),
        _ => Seq::empty(),
    }
}

/// The member of an object under a key that only member `j` has is that
/// member's value.
pub proof fn lemma_get_unique(members: Seq<(Seq<char>, JsonSpec)>, key: Seq<char>, j: int)
    requires
        0 <= j < members.len(),
        members[j].0 == key,
        forall|i: int| 0 <= i < members.len() && i != j ==> members[i].0 != key,
    ensures
        spec_get(JsonSpec::Object(members), key) == members[j].1,
{
    assert(members[j].0 == key);
    let i = choose|i: int| 0 <= i < members.len() && #[trigger] members[i].0 == key;
    assert(i == j);
}

} // verus!
