use vstd::prelude::*;
use serde_json::Value;
use crate::recipe::{opt_view, strings_view};

verus! {

/// A JSON number, as the values that the recipe rules read of it.
#[derive(Debug)]
pub struct JsonNumber {
    /// Whether the number is held as a float (it was written with a fraction or an exponent).
    pub is_float: bool,
    /// The number written in decimal, as serde_json renders it.
    pub decimal: String,
    /// The number converted to a 64-bit float and written in decimal.
    pub float_decimal: Option<String>,
    /// The number, where it is an integer in `0..2^64`.
    pub unsigned: Option<u64>,
}

/// The contents of a JSON number.
pub ghost struct NumberView {
    pub is_float: bool,
    pub decimal: Seq<char>,
    pub float_decimal: Option<Seq<char>>,
    pub unsigned: Option<u64>,
}

impl View for JsonNumber {
    type V = NumberView;

    open spec fn view(&self) -> NumberView {
        NumberView {
            is_float: self.is_float,
            decimal: self.decimal@,
            float_decimal: opt_view(self.float_decimal),
            unsigned: self.unsigned,
        }
    }
}

/// A JSON value of unknown shape.
#[derive(Debug)]
pub enum JsonValue {
    Null,
    Bool(bool),
    Number(JsonNumber),
    String(String),
    Array(Vec<JsonValue>),
    /// The members of an object, keys unique.
    Object(Vec<(String, JsonValue)>),
}

/// The contents of a JSON value.
pub ghost enum JsonView {
    Null,
    Bool(bool),
    Number(NumberView),
    String(Seq<char>),
    Array(Seq<JsonView>),
    Object(Seq<(Seq<char>, JsonView)>),
}

pub open spec fn json_view(v: JsonValue) -> JsonView
    decreases v,
{
    match v {
        JsonValue::Null => JsonView::Null,
        JsonValue::Bool(b) => JsonView::Bool(b),
        JsonValue::Number(n) => JsonView::Number(n@),
        JsonValue::String(s) => JsonView::String(s@),
        JsonValue::Array(a) => JsonView::Array(
            Seq::new(
                a@.len(),
                |i: int|
                    if 0 <= i < a@.len() {
                        json_view(a@[i])
                    } else {
                        JsonView::Null
                    },
            ),
        ),
        JsonValue::Object(m) => JsonView::Object(
            Seq::new(
                m@.len(),
                |i: int|
                    if 0 <= i < m@.len() {
                        (m@[i].0@, json_view(m@[i].1))
                    } else {
                        (Seq::empty(), JsonView::Null)
                    },
            ),
        ),
    }
}

impl View for JsonValue {
    type V = JsonView;

    open spec fn view(&self) -> JsonView {
        json_view(*self)
    }
}

/// The contents of an array are the contents of its elements.
pub proof fn lemma_array_view(a: Vec<JsonValue>)
    ensures
        json_view(JsonValue::Array(a)) is Array,
        json_view(JsonValue::Array(a))->Array_0.len() == a@.len(),
        forall|k: int| 0 <= k < a@.len() ==> #[trigger] json_view(JsonValue::Array(a))->Array_0[k] == json_view(a@[k]),
{
}

/// The contents of an object are its keys with the contents of their values.
pub proof fn lemma_object_view(m: Vec<(String, JsonValue)>)
    ensures
        json_view(JsonValue::Object(m)) is Object,
        json_view(JsonValue::Object(m))->Object_0.len() == m@.len(),
        forall|k: int|
            0 <= k < m@.len() ==> #[trigger] json_view(JsonValue::Object(m))->Object_0[k] == (m@[k].0@, json_view(m@[k].1)),
{
}

/// The contents of an optional value.
pub open spec fn opt_json(v: Option<JsonValue>) -> Option<JsonView> {
    match v {
        Some(x) => Some(x@),
        None => None,
    }
}

/// The top level of a JSON document, its members still written as JSON text.
pub enum JsonNode {
    Null,
    Bool(bool),
    Number(JsonNumber),
    String(String),
    Array(Vec<String>),
    Object(Vec<(String, String)>),
}

/// The contents of the top level of a JSON document.
pub ghost enum NodeView {
    Null,
    Bool(bool),
    Number(NumberView),
    String(Seq<char>),
    Array(Seq<Seq<char>>),
    Object(Seq<(Seq<char>, Seq<char>)>),
}

/// The characters of each key and text of a list of pairs.
pub open spec fn pairs_view(m: Seq<(String, String)>) -> Seq<(Seq<char>, Seq<char>)> {
    m.map_values(|e: (String, String)| (e.0@, e.1@))
}

pub open spec fn node_view(n: Option<JsonNode>) -> Option<NodeView> {
    match n {
        Some(JsonNode::Null) => Some(NodeView::Null),
        Some(JsonNode::Bool(b)) => Some(NodeView::Bool(b)),
        Some(JsonNode::Number(x)) => Some(NodeView::Number(x@)),
        Some(JsonNode::String(s)) => Some(NodeView::String(s@)),
        Some(JsonNode::Array(a)) => Some(NodeView::Array(strings_view(a@))),
        Some(JsonNode::Object(m)) => Some(NodeView::Object(pairs_view(m@))),
        None => None,
    }
}

/// The top level of the JSON document that serde_json reads in a text.
pub uninterp spec fn json_top(text: Seq<char>) -> Option<NodeView>;

/// Relies on serde_json::from_str, on the variants of serde_json::Value, on
/// serde_json::Number's is_f64, Display, as_f64 and as_u64, and on Value's
/// Display (compact JSON text): the top level of the document, or nothing
/// where the text is not one JSON document. A number's decimal text is never
/// empty, and `as_f64` gives a value for every float.
#[verifier::external_body]
fn parse_top(text: &str) -> (r: Option<JsonNode>)
    ensures
        node_view(r) == json_top(text@),
        r matches Some(JsonNode::Number(n)) ==> n.decimal@.len() > 0 && (n.is_float ==> n.float_decimal is Some),
{
    serde_json::from_str::<Value>(text).ok().map(|v| match v {
        Value::Null => JsonNode::Null,
        Value::Bool(b) => JsonNode::Bool(b),
        Value::Number(n) => JsonNode::Number(JsonNumber {
            is_float: n.is_f64(),
            decimal: n.to_string(),
            float_decimal: n.as_f64().map(|x| x.to_string()),
            unsigned: n.as_u64(),
        }),
        Value::String(s) => JsonNode::String(s),
        Value::Array(a) => JsonNode::Array(a.iter().map(|x| x.to_string()).collect()),
        Value::Object(m) => JsonNode::Object(m.into_iter().map(|(k, x)| (k, x.to_string())).collect()),
    })
}

/// The deepest nesting that serde_json's parser accepts by default.
pub const MAX_DEPTH: u32 = 128;

/// Members written as JSON text, each read to `depth` levels.
pub open spec fn members_at(items: Seq<Seq<char>>, depth: nat) -> Seq<JsonView>
    decreases depth, 2nat,
{
    items.map_values(|t: Seq<char>| member_at(t, depth))
}

/// Keyed members written as JSON text, each read to `depth` levels.
pub open spec fn entries_at(members: Seq<(Seq<char>, Seq<char>)>, depth: nat) -> Seq<(Seq<char>, JsonView)>
    decreases depth, 2nat,
{
    members.map_values(|e: (Seq<char>, Seq<char>)| (e.0, member_at(e.1, depth)))
}

/// A member written as JSON text, read with members nested below it to `depth` levels.
pub open spec fn member_at(text: Seq<char>, depth: nat) -> JsonView
    decreases depth, 1nat,
{
    match json_at(text, depth) {
        Some(v) => v,
        None => JsonView::Null,
    }
}

/// The JSON document that a text holds, read with members nested to `depth`
/// levels (deeper arrays and objects read as empty).
pub open spec fn json_at(text: Seq<char>, depth: nat) -> Option<JsonView>
    decreases depth, 0nat,
{
    match json_top(text) {
        Some(NodeView::Null) => Some(JsonView::Null),
        Some(NodeView::Bool(b)) => Some(JsonView::Bool(b)),
        Some(NodeView::Number(n)) => Some(JsonView::Number(n)),
        Some(NodeView::String(s)) => Some(JsonView::String(s)),
        Some(NodeView::Array(items)) => Some(JsonView::Array(
            if depth == 0 {
                Seq::empty()
            } else {
                members_at(items, (depth - 1) as nat)
            },
        )),
        Some(NodeView::Object(members)) => Some(JsonView::Object(
            if depth == 0 {
                Seq::empty()
            } else {
                entries_at(members, (depth - 1) as nat)
            },
        )),
        None => None,
    }
}

/// The JSON document that a text holds; nothing where it is not valid JSON.
pub open spec fn json_of(text: Seq<char>) -> Option<JsonView> {
    json_at(text, MAX_DEPTH as nat)
}

/// The JSON document that a text holds, read to `depth` levels (see `json_at`).
fn parse_at(text: &str, depth: u32) -> (r: Option<JsonValue>)
    ensures
        opt_json(r) == json_at(text@, depth as nat),
    decreases depth,
{
    match parse_top(text) {
        None => None,
        Some(JsonNode::Null) => Some(JsonValue::Null),
        Some(JsonNode::Bool(b)) => Some(JsonValue::Bool(b)),
        Some(JsonNode::Number(n)) => Some(JsonValue::Number(n)),
        Some(JsonNode::String(s)) => Some(JsonValue::String(s)),
        Some(JsonNode::Array(items)) => {
            let ghost texts = strings_view(items@);
            let mut out: Vec<JsonValue> = Vec::new();
            if depth > 0 {
                let mut i: usize = 0;
                while i < items.len()
                    invariant
                        depth > 0,
                        i <= items@.len(),
                        texts == strings_view(items@),
                        out@.len() == i,
                        forall|j: int| 0 <= j < i ==> (#[trigger] out@[j])@ == member_at(texts[j], (depth - 1) as nat),
                    decreases items@.len() - i,
                {
                    let item = match parse_at(items[i].as_str(), depth - 1) {
                        Some(v) => v,
                        None => JsonValue::Null,
                    };
                    out.push(item);
                    i = i + 1;
                }
                proof {
                    lemma_array_view(out);
                    assert(json_view(JsonValue::Array(out))->Array_0 =~= members_at(texts, (depth - 1) as nat));
                }
            } else {
                proof {
                    lemma_array_view(out);
                    assert(json_view(JsonValue::Array(out))->Array_0 =~= Seq::<JsonView>::empty());
                }
            }
            Some(JsonValue::Array(out))
        },
        Some(JsonNode::Object(members)) => {
            let ghost texts = pairs_view(members@);
            let mut out: Vec<(String, JsonValue)> = Vec::new();
            if depth > 0 {
                let mut rest = members;
                let ghost start = rest@;
                while rest.len() > 0
                    invariant
                        depth > 0,
                        out@.len() + rest@.len() == start.len(),
                        texts == pairs_view(start),
                        rest@ == start.subrange(out@.len() as int, start.len() as int),
                        forall|j: int|
                            0 <= j < out@.len() ==> (#[trigger] out@[j]).0@ == texts[j].0 && out@[j].1@ == member_at(
                                texts[j].1,
                                (depth - 1) as nat,
                            ),
                    decreases rest@.len(),
                {
                    let ghost k = out@.len();
                    let (key, text) = rest.remove(0);
                    assert(start[k as int] == (key, text));
                    let item = match parse_at(text.as_str(), depth - 1) {
                        Some(v) => v,
                        None => JsonValue::Null,
                    };
                    out.push((key, item));
                    assert(rest@ =~= start.subrange(out@.len() as int, start.len() as int));
                }
                proof {
                    lemma_object_view(out);
                    assert(json_view(JsonValue::Object(out))->Object_0 =~= entries_at(texts, (depth - 1) as nat));
                }
            } else {
                proof {
                    lemma_object_view(out);
                    assert(json_view(JsonValue::Object(out))->Object_0 =~= Seq::<(Seq<char>, JsonView)>::empty());
                }
            }
            Some(JsonValue::Object(out))
        },
    }
}

/// Parses a JSON document; nothing where the text is not valid JSON.
pub fn parse_json(text: &str) -> (r: Option<JsonValue>)
    ensures
        opt_json(r) == json_of(text@),
{
    parse_at(text, MAX_DEPTH)
}

/// The value that the first member named `key` holds.
pub open spec fn entry_value(entries: Seq<(Seq<char>, JsonView)>, key: Seq<char>) -> Option<JsonView>
    decreases entries.len(),
{
    if entries.len() == 0 {
        None
    } else if entries[0].0 == key {
        Some(entries[0].1)
    } else {
        entry_value(entries.drop_first(), key)
    }
}

/// The member `key` of an object; nothing for a missing member or another kind of value.
pub open spec fn field(v: JsonView, key: Seq<char>) -> Option<JsonView> {
    match v {
        JsonView::Object(m) => entry_value(m, key),
        _ => None,
    }
}

/// The first element of an array; nothing for an empty array or another kind of value.
pub open spec fn first_item(v: JsonView) -> Option<JsonView> {
    match v {
        JsonView::Array(a) => if a.len() > 0 {
            Some(a[0])
        } else {
            None
        },
        _ => None,
    }
}

/// Whether the value is the string `t`.
pub open spec fn is_string(v: Option<JsonView>, t: Seq<char>) -> bool {
    match v {
        Some(JsonView::String(s)) => s == t,
        _ => false,
    }
}

/// The member `key` of `v`, where `v` is an object that has it.
pub fn get_field<'a>(v: &'a JsonValue, key: &String) -> (r: Option<&'a JsonValue>)
    ensures
        match r {
            Some(x) => field(v@, key@) == Some(x@),
            None => field(v@, key@) is None,
        },
{
    match v {
        JsonValue::Object(m) => {
            proof {
                lemma_object_view(*m);
            }
            let ghost entries = json_view(JsonValue::Object(*m))->Object_0;
            let mut i: usize = 0;
            assert(entries.subrange(0, entries.len() as int) =~= entries);
            while i < m.len()
                invariant
                    entries.len() == m@.len(),
                    forall|k: int| 0 <= k < m@.len() ==> #[trigger] entries[k] == (m@[k].0@, json_view(m@[k].1)),
                    field(v@, key@) == entry_value(entries, key@),
                    i <= m@.len(),
                    entry_value(entries, key@) == entry_value(entries.subrange(i as int, m@.len() as int), key@),
                decreases m@.len() - i,
            {
                assert(entries.subrange(i as int, m@.len() as int).drop_first() =~= entries.subrange(i + 1, m@.len() as int));
                let entry = &m[i];
                assert(entries.subrange(i as int, m@.len() as int)[0] == entries[i as int]);
                if entry.0 == *key {
                    return Some(&entry.1);
                }
                i = i + 1;
            }
            None
        },
        _ => None,
    }
}

/// The first element of `v`, where `v` is an array that has one.
pub fn get_first(v: &JsonValue) -> (r: Option<&JsonValue>)
    ensures
        match r {
            Some(x) => first_item(v@) == Some(x@),
            None => first_item(v@) is None,
        },
{
    match v {
        JsonValue::Array(a) => if a.len() > 0 {
            Some(&a[0])
        } else {
            None
        },
        _ => None,
    }
}

/// Whether `v` is the string `t`.
pub fn string_equals(v: Option<&JsonValue>, t: &String) -> (r: bool)
    ensures
        r == match v {
            Some(x) => is_string(Some(x@), t@),
            None => false,
        },
{
    match v {
        Some(JsonValue::String(s)) => *s == *t,
        _ => false,
    }
}

} // verus!
