//! JSON values: a type that holds them as plain data, with the mathematical
//! content that contracts speak of. Reading and writing JSON text is the
//! work of `serde_json`; what it returns is named here, not described.

use vstd::prelude::*;

verus! {

/// The mathematical content of a JSON value.
pub enum Json {
    Null,
    Bool(bool),
    Number(Seq<char>),
    String(Seq<char>),
    Array(Seq<Json>),
    Object(Seq<Member>),
}

/// One entry of an object.
pub struct Member {
    pub key: Seq<char>,
    pub value: Json,
}

/// A JSON value. A number is held as its text; the members of an object are
/// held in a list, of which the later of two entries with one key counts.
#[derive(Debug, PartialEq, Eq)]
pub enum JsonValue {
    Null,
    Bool(bool),
    Number(String),
    String(String),
    Array(Vec<JsonValue>),
    Object(Vec<(String, JsonValue)>),
}

impl View for JsonValue {
    type V = Json;

    open spec fn view(&self) -> Json
        decreases self,
    {
        match self {
            JsonValue::Null => Json::Null,
            JsonValue::Bool(b) => Json::Bool(*b),
            JsonValue::Number(n) => Json::Number(n@),
            JsonValue::String(s) => Json::String(s@),
            JsonValue::Array(items) => Json::Array(
                Seq::new(
                    items@.len(),
                    |i: int|
                        if 0 <= i < items@.len() {
                            items@[i].view()
                        } else {
                            Json::Null
                        },
                ),
            ),
            JsonValue::Object(entries) => Json::Object(
                Seq::new(
                    entries@.len(),
                    |i: int|
                        if 0 <= i < entries@.len() {
                            Member { key: entries@[i].0@, value: entries@[i].1.view() }
                        } else {
                            Member { key: Seq::empty(), value: Json::Null }
                        },
                ),
            ),
        }
    }
}

/// The value that the last entry of `entries` below `upto` with the key `key`
/// holds.
pub open spec fn entry_lookup(entries: Seq<Member>, key: Seq<char>, upto: int) -> Option<Json>
    decreases upto,
{
    if upto <= 0 || upto > entries.len() {
        None
    } else if entries[upto - 1].key == key {
        Some(entries[upto - 1].value)
    } else {
        entry_lookup(entries, key, upto - 1)
    }
}

/// The member `key` of an object; where a key stands twice, the later entry
/// counts. Nothing for a value that is no object.
pub open spec fn field(value: Json, key: Seq<char>) -> Option<Json> {
    match value {
        Json::Object(entries) => entry_lookup(entries, key, entries.len() as int),
        _ => None,
    }
}

/// The element `index` of an array.
pub open spec fn element(value: Json, index: int) -> Option<Json> {
    match value {
        Json::Array(items) => if 0 <= index < items.len() {
            Some(items[index])
        } else {
            None
        },
        _ => None,
    }
}

/// The text of a string value.
pub open spec fn text_of(value: Json) -> Option<Seq<char>> {
    match value {
        Json::String(s) => Some(s),
        _ => None,
    }
}

/// What `serde_json::from_str` makes of `text`: the value it reads, or nothing
/// where it reports an error.
pub uninterp spec fn json_parse(text: Seq<char>) -> Option<Json>;

/// The compact text that `serde_json` writes for `value`.
pub uninterp spec fn json_text(value: Json) -> Seq<char>;

/// `serde_json::Value`, the type in which the outside crate holds what it
/// reads and what it is to write. Nothing is known of a value of it.
#[verifier::external_type_specification]
#[verifier::external_body]
pub struct ExValue(serde_json::Value);

/// Turns a `serde_json::Value` into a `JsonValue`, variant by variant; a
/// number is kept as the text that `Number::to_string` writes for it. Nothing
/// is claimed of the result.
#[verifier::external_body]
fn from_serde(value: serde_json::Value) -> JsonValue {
    match value {
        serde_json::Value::Null => JsonValue::Null,
        serde_json::Value::Bool(b) => JsonValue::Bool(b),
        serde_json::Value::Number(n) => JsonValue::Number(n.to_string()),
        serde_json::Value::String(s) => JsonValue::String(s),
        serde_json::Value::Array(a) => JsonValue::Array(a.into_iter().map(from_serde).collect()),
        serde_json::Value::Object(o) => JsonValue::Object(
            o.into_iter().map(|(k, v)| (k, from_serde(v))).collect(),
        ),
    }
}

/// Turns a `JsonValue` into a `serde_json::Value`, variant by variant; a
/// number is read from its text by `Number::from_str`, and becomes null where
/// that fails. Nothing is claimed of the result.
#[verifier::external_body]
fn to_serde(value: &JsonValue) -> serde_json::Value {
    match value {
        JsonValue::Null => serde_json::Value::Null,
        JsonValue::Bool(b) => serde_json::Value::Bool(*b),
        JsonValue::Number(n) => n.parse::<serde_json::Number>().map_or(
            serde_json::Value::Null,
            serde_json::Value::Number,
        ),
        JsonValue::String(s) => serde_json::Value::String(s.clone()),
        JsonValue::Array(a) => serde_json::Value::Array(a.iter().map(to_serde).collect()),
        JsonValue::Object(o) => serde_json::Value::Object(
            o.iter().map(|(k, v)| (k.clone(), to_serde(v))).collect(),
        ),
    }
}

/// Calls `serde_json::from_str` for a `Value`. The result is the value that
/// the outside parser reads from `text`, or nothing where it reports an error.
#[verifier::external_body]
fn parse_text(text: &str) -> (r: Option<JsonValue>)
    ensures
        r is Some <==> json_parse(text@) is Some,
        r matches Some(v) ==> json_parse(text@) == Some(v@),
{
    serde_json::from_str::<serde_json::Value>(text).ok().map(from_serde)
}

/// Calls `to_string` of `serde_json::Value`. The result is the compact text
/// that the outside crate writes for the value.
#[verifier::external_body]
fn render_text(value: &JsonValue) -> (r: String)
    ensures
        r@ == json_text(value@),
{
    to_serde(value).to_string()
}

/// The content of an object, entry by entry.
pub proof fn lemma_view_object(value: JsonValue)
    requires
        value is Object,
    ensures
        value@ is Object,
        value@->Object_0.len() == value->Object_0@.len(),
        forall|j: int|
            0 <= j < value->Object_0@.len() ==> #[trigger] value@->Object_0[j] == (Member {
                key: value->Object_0@[j].0@,
                value: value->Object_0@[j].1@,
            }),
{
    match value {
        JsonValue::Object(entries) => {
            assert(value@->Object_0.len() == entries@.len());
        },
        _ => {},
    }
}

/// The content of an array, element by element.
pub proof fn lemma_view_array(value: JsonValue)
    requires
        value is Array,
    ensures
        value@ is Array,
        value@->Array_0.len() == value->Array_0@.len(),
        forall|j: int|
            0 <= j < value->Array_0@.len() ==> #[trigger] value@->Array_0[j] == value->Array_0@[j]@,
{
    match value {
        JsonValue::Array(items) => {
            assert(value@->Array_0.len() == items@.len());
        },
        _ => {},
    }
}

impl Clone for JsonValue {
    fn clone(&self) -> (r: JsonValue)
        ensures
            r@ == self@,
    {
        self.duplicate()
    }
}

impl JsonValue {
    /// Reads a JSON text.
    pub fn parse(text: &str) -> (r: Option<JsonValue>)
        ensures
            r is Some <==> json_parse(text@) is Some,
            r matches Some(v) ==> json_parse(text@) == Some(v@),
    {
        parse_text(text)
    }

    /// Writes this value as compact JSON text.
    pub fn render(&self) -> (r: String)
        ensures
            r@ == json_text(self@),
    {
        render_text(self)
    }

    /// The member `key` of an object.
    pub fn get(&self, key: &str) -> (r: Option<&JsonValue>)
        ensures
            r is Some <==> field(self@, key@) is Some,
            r matches Some(v) ==> field(self@, key@) == Some(v@),
    {
        match self {
            JsonValue::Object(entries) => {
                proof {
                    lemma_view_object(*self);
                }
                let wanted = key.to_owned();
                let mut i: usize = entries.len();
                while i > 0
                    invariant
                        i <= entries.len(),
                        wanted@ == key@,
                        self@ is Object,
                        self@->Object_0.len() == entries@.len(),
                        forall|j: int|
                            0 <= j < entries@.len() ==> #[trigger] self@->Object_0[j] == (Member {
                                key: entries@[j].0@,
                                value: entries@[j].1@,
                            }),
                        field(self@, key@) == entry_lookup(self@->Object_0, key@, i as int),
                    decreases i,
                {
                    if entries[i - 1].0 == wanted {
                        return Some(&entries[i - 1].1);
                    }
                    i -= 1;
                }
                None
            },
            _ => None,
        }
    }

    /// The element `index` of an array.
    pub fn at(&self, index: usize) -> (r: Option<&JsonValue>)
        ensures
            r is Some <==> element(self@, index as int) is Some,
            r matches Some(v) ==> element(self@, index as int) == Some(v@),
    {
        match self {
            JsonValue::Array(items) => {
                proof {
                    lemma_view_array(*self);
                }
                if index < items.len() {
                    Some(&items[index])
                } else {
                    None
                }
            },
            _ => None,
        }
    }

    /// The text of a string value.
    pub fn as_str(&self) -> (r: Option<&str>)
        ensures
            r is Some <==> text_of(self@) is Some,
            r matches Some(s) ==> text_of(self@) == Some(s@),
    {
        match self {
            JsonValue::String(s) => Some(s.as_str()),
            _ => None,
        }
    }

    /// A copy of this value.
    pub fn duplicate(&self) -> (r: JsonValue)
        ensures
            r@ == self@,
        decreases self,
    {
        match self {
            JsonValue::Null => JsonValue::Null,
            JsonValue::Bool(b) => JsonValue::Bool(*b),
            JsonValue::Number(n) => JsonValue::Number(n.clone()),
            JsonValue::String(s) => JsonValue::String(s.clone()),
            JsonValue::Array(items) => {
                let mut out: Vec<JsonValue> = Vec::new();
                let mut i: usize = 0;
                while i < items.len()
                    invariant
                        i <= items.len(),
                        out@.len() == i,
                        forall|j: int| 0 <= j < i ==> out@[j]@ == items@[j]@,
                        *self == JsonValue::Array(*items),
                    decreases items.len() - i,
                {
                    proof {
                        vstd::std_specs::vec::axiom_vec_index_decreases(*items, i as int);
                        assert(decreases_to!(*self => self->Array_0));
                    }
                    out.push(items[i].duplicate());
                    i += 1;
                }
                let r = JsonValue::Array(out);
                assert(r@->Array_0 =~= self@->Array_0);
                r
            },
            JsonValue::Object(entries) => {
                let mut out: Vec<(String, JsonValue)> = Vec::new();
                let mut i: usize = 0;
                while i < entries.len()
                    invariant
                        i <= entries.len(),
                        out@.len() == i,
                        forall|j: int|
                            0 <= j < i ==> out@[j].0@ == entries@[j].0@ && out@[j].1@
                                == entries@[j].1@,
                        *self == JsonValue::Object(*entries),
                    decreases entries.len() - i,
                {
                    proof {
                        vstd::std_specs::vec::axiom_vec_index_decreases(*entries, i as int);
                        assert(decreases_to!(*self => self->Object_0));
                    }
                    out.push((entries[i].0.clone(), entries[i].1.duplicate()));
                    i += 1;
                }
                let r = JsonValue::Object(out);
                assert(r@->Object_0 =~= self@->Object_0);
                r
            },
        }
    }
}

} // verus!
