//! JSON documents as plain data, read and written through `serde_json`.

use vstd::prelude::*;

verus! {

/// A JSON number of `serde_json`. The library never looks inside one; it only
/// carries it from the text that was read to the text that is written.
#[verifier::external_type_specification]
#[verifier::external_body]
pub struct ExJsonNumber(serde_json::Number);

/// A document as `serde_json` holds it in memory.
#[verifier::external_type_specification]
#[verifier::external_body]
pub struct ExJsonTree(serde_json::Value);

/// Mathematical model of a JSON document. An object is a finite map: member
/// order carries no meaning and a key occurs once.
pub enum JsonView {
    Null,
    Bool(bool),
    Number(serde_json::Number),
    String(Seq<char>),
    Array(Seq<JsonView>),
    Object(Map<Seq<char>, JsonView>),
}

/// A JSON document held as plain data.
///
/// An object keeps its members in a vector; where a key is repeated the last
/// occurrence is the one that counts.
#[derive(Debug, PartialEq)]
pub enum JsonValue {
    Null,
    Bool(bool),
    Number(serde_json::Number),
    String(String),
    Array(Vec<JsonValue>),
    Object(Vec<(String, JsonValue)>),
}

/// Views of the items of an array, in order.
pub open spec fn view_items(items: Seq<JsonValue>) -> Seq<JsonView>
    decreases items, 0nat,
{
    if items.len() == 0 {
        Seq::empty()
    } else {
        view_items(items.drop_last()).push(view_value(items.last()))
    }
}

/// The map that a member list stands for: later members override earlier ones.
pub open spec fn view_members(members: Seq<(String, JsonValue)>) -> Map<Seq<char>, JsonView>
    decreases members, 0nat,
{
    if members.len() == 0 {
        Map::empty()
    } else {
        view_members(members.drop_last()).insert(members.last().0@, view_value(members.last().1))
    }
}

/// The document that a value stands for.
pub open spec fn view_value(v: JsonValue) -> JsonView
    decreases v, 1nat,
{
    match v {
        JsonValue::Null => JsonView::Null,
        JsonValue::Bool(b) => JsonView::Bool(b),
        JsonValue::Number(n) => JsonView::Number(n),
        JsonValue::String(s) => JsonView::String(s@),
        JsonValue::Array(items) => JsonView::Array(view_items(items@)),
        JsonValue::Object(members) => JsonView::Object(view_members(members@)),
    }
}

impl View for JsonValue {
    type V = JsonView;

    open spec fn view(&self) -> JsonView {
        view_value(*self)
    }
}

/// `view_items` keeps length and position.
pub proof fn lemma_view_items(items: Seq<JsonValue>)
    ensures
        view_items(items).len() == items.len(),
        forall|i: int| 0 <= i < items.len() ==> #[trigger] view_items(items)[i] == items[i]@,
    decreases items.len(),
{
    if items.len() > 0 {
        lemma_view_items(items.drop_last());
    }
}

/// Appending one item appends its view.
pub proof fn lemma_view_items_push(items: Seq<JsonValue>, item: JsonValue)
    ensures
        view_items(items.push(item)) == view_items(items).push(item@),
{
    assert(items.push(item).drop_last() =~= items);
}

/// Appending one member inserts it into the map, over any earlier member of
/// the same key.
pub proof fn lemma_view_members_push(members: Seq<(String, JsonValue)>, key: String, value: JsonValue)
    ensures
        view_members(members.push((key, value))) == view_members(members).insert(key@, value@),
{
    assert(members.push((key, value)).drop_last() =~= members);
}

/// The string under `key`, where the object has one there.
pub open spec fn text_member(m: Map<Seq<char>, JsonView>, key: Seq<char>) -> Option<Seq<char>> {
    if m.contains_key(key) {
        match m[key] {
            JsonView::String(s) => Some(s),
            _ => None,
        }
    } else {
        None
    }
}

/// The boolean under `key`, where the object has one there.
pub open spec fn bool_member(m: Map<Seq<char>, JsonView>, key: Seq<char>) -> Option<bool> {
    if m.contains_key(key) {
        match m[key] {
            JsonView::Bool(b) => Some(b),
            _ => None,
        }
    } else {
        None
    }
}

/// The items of the array under `key`; none where the member is absent or
/// no array.
pub open spec fn items_member(m: Map<Seq<char>, JsonView>, key: Seq<char>) -> Seq<JsonView> {
    if m.contains_key(key) {
        match m[key] {
            JsonView::Array(items) => items,
            _ => Seq::empty(),
        }
    } else {
        Seq::empty()
    }
}

impl JsonValue {
    /// The text of a string value.
    pub fn as_text(&self) -> (text: Option<&String>)
        ensures
            match text {
                Some(s) => self@ == JsonView::String(s@),
                None => !(self@ is String),
            },
    {
        match self {
            JsonValue::String(s) => Some(s),
            _ => None,
        }
    }

    /// The truth value of a boolean.
    pub fn as_bool(&self) -> (flag: Option<bool>)
        ensures
            match flag {
                Some(b) => self@ == JsonView::Bool(b),
                None => !(self@ is Bool),
            },
    {
        match self {
            JsonValue::Bool(b) => Some(*b),
            _ => None,
        }
    }

    /// The items of an array.
    pub fn as_array(&self) -> (items: Option<&Vec<JsonValue>>)
        ensures
            match items {
                Some(v) => self@ == JsonView::Array(view_items(v@)),
                None => !(self@ is Array),
            },
    {
        match self {
            JsonValue::Array(v) => Some(v),
            _ => None,
        }
    }

    /// The members of an object.
    pub fn as_object(&self) -> (members: Option<&Vec<(String, JsonValue)>>)
        ensures
            match members {
                Some(v) => self@ == JsonView::Object(view_members(v@)),
                None => !(self@ is Object),
            },
    {
        match self {
            JsonValue::Object(v) => Some(v),
            _ => None,
        }
    }
}

/// Looks a key up in the members of an object. Of several members with the
/// key the last one is found.
pub fn member<'a>(members: &'a Vec<(String, JsonValue)>, key: &str) -> (found: Option<&'a JsonValue>)
    ensures
        match found {
            Some(v) => view_members(members@).contains_key(key@) && view_members(members@)[key@]
                == v@,
            None => !view_members(members@).contains_key(key@),
        },
{
    let mut found: Option<&'a JsonValue> = None;
    let mut i: usize = 0;
    while i < members.len()
        invariant
            i <= members.len(),
            match found {
                Some(v) => view_members(members@.take(i as int)).contains_key(key@)
                    && view_members(members@.take(i as int))[key@] == v@,
                None => !view_members(members@.take(i as int)).contains_key(key@),
            },
        decreases members.len() - i,
    {
        proof {
            assert(members@.take(i + 1).drop_last() =~= members@.take(i as int));
        }
        if crate::text::same_text(members[i].0.as_str(), key) {
            found = Some(&members[i].1);
        }
        i += 1;
    }
    assert(members@.take(i as int) =~= members@);
    found
}

/// The string under `key`.
pub fn member_text<'a>(members: &'a Vec<(String, JsonValue)>, key: &str) -> (text: Option<&'a String>)
    ensures
        match text {
            Some(s) => text_member(view_members(members@), key@) == Some(s@),
            None => text_member(view_members(members@), key@) is None,
        },
{
    match member(members, key) {
        Some(v) => v.as_text(),
        None => None,
    }
}

/// The boolean under `key`.
pub fn member_bool(members: &Vec<(String, JsonValue)>, key: &str) -> (flag: Option<bool>)
    ensures
        flag == bool_member(view_members(members@), key@),
{
    match member(members, key) {
        Some(v) => v.as_bool(),
        None => None,
    }
}

/// The document that a `serde_json` value stands for: its variants one for
/// one, an object as the map from its keys.
pub uninterp spec fn json_model(tree: serde_json::Value) -> JsonView;

/// What `serde_json::from_str` makes of a text when asked for a
/// `serde_json::Value`: the document, or the message of the failure that it
/// reports.
pub uninterp spec fn parsed_json(text: Seq<char>) -> Result<JsonView, Seq<char>>;

/// What `serde_json::to_string_pretty` makes of a document: the text, or the
/// message of the failure that it reports. The members of an object are
/// written in the order of their keys, in which `serde_json` keeps them as
/// it is built here, so that the text does not depend on the order in which
/// they came.
pub uninterp spec fn pretty_text(doc: JsonView) -> Result<Seq<char>, Seq<char>>;

/// Calls `serde_json::from_str` for a `serde_json::Value`; a failure comes
/// back as its message. Nothing is claimed of the outcome but that it is the
/// one `parsed_json` names.
#[verifier::external_body]
fn parse_tree(text: &str) -> (outcome: Result<serde_json::Value, String>)
    ensures
        match outcome {
            Ok(tree) => parsed_json(text@) == Ok::<JsonView, Seq<char>>(json_model(tree)),
            Err(message) => parsed_json(text@) == Err::<JsonView, Seq<char>>(message@),
        },
{
    serde_json::from_str::<serde_json::Value>(text).map_err(|failure| failure.to_string())
}

/// Calls `serde_json::to_string_pretty` on a `serde_json::Value`; a failure
/// comes back as its message. Nothing is claimed of the outcome but that it
/// is the one `pretty_text` names.
#[verifier::external_body]
fn render_tree(tree: &serde_json::Value) -> (outcome: Result<String, String>)
    ensures
        match outcome {
            Ok(text) => pretty_text(json_model(*tree)) == Ok::<Seq<char>, Seq<char>>(text@),
            Err(message) => pretty_text(json_model(*tree)) == Err::<Seq<char>, Seq<char>>(
                message@,
            ),
        },
{
    serde_json::to_string_pretty(tree).map_err(|failure| failure.to_string())
}

/// Takes a `serde_json::Value` apart, variant by variant, into the
/// library's own type. The members of an object come out in the order in
/// which `serde_json::Map` hands them out, each key once.
#[verifier::external_body]
fn lift(tree: serde_json::Value) -> (doc: JsonValue)
    ensures
        doc@ == json_model(tree),
{
    match tree {
        serde_json::Value::Null => JsonValue::Null,
        serde_json::Value::Bool(b) => JsonValue::Bool(b),
        serde_json::Value::Number(n) => JsonValue::Number(n),
        serde_json::Value::String(s) => JsonValue::String(s),
        serde_json::Value::Array(items) => JsonValue::Array(items.into_iter().map(lift).collect()),
        serde_json::Value::Object(map) => JsonValue::Object(
            map.into_iter().map(|(k, v)| (k, lift(v))).collect(),
        ),
    }
}

/// Builds the `serde_json::Value` of a document, variant by variant. The
/// members of an object go into a new `serde_json::Map` one by one, in
/// order, with `serde_json::Map::insert`, which gives a key that is there
/// already the new value: of a repeated key the last member stays.
#[verifier::external_body]
fn lower(doc: &JsonValue) -> (tree: serde_json::Value)
    ensures
        json_model(tree) == doc@,
{
    match doc {
        JsonValue::Null => serde_json::Value::Null,
        JsonValue::Bool(b) => serde_json::Value::Bool(*b),
        JsonValue::Number(n) => serde_json::Value::Number(n.clone()),
        JsonValue::String(s) => serde_json::Value::String(s.clone()),
        JsonValue::Array(items) => serde_json::Value::Array(items.iter().map(lower).collect()),
        JsonValue::Object(members) => {
            let mut map = serde_json::Map::new();
            for (key, value) in members {
                map.insert(key.clone(), lower(value));
            }
            serde_json::Value::Object(map)
        },
    }
}

/// Reads a JSON text. On failure the message of the parser is returned.
pub fn parse_document(text: &str) -> (outcome: Result<JsonValue, String>)
    ensures
        match outcome {
            Ok(doc) => parsed_json(text@) == Ok::<JsonView, Seq<char>>(doc@),
            Err(message) => parsed_json(text@) == Err::<JsonView, Seq<char>>(message@),
        },
{
    match parse_tree(text) {
        Ok(tree) => Ok(lift(tree)),
        Err(message) => Err(message),
    }
}

/// Writes a document as indented JSON text. On failure the message of the
/// writer is returned.
pub fn render_document(doc: &JsonValue) -> (outcome: Result<String, String>)
    ensures
        match outcome {
            Ok(text) => pretty_text(doc@) == Ok::<Seq<char>, Seq<char>>(text@),
            Err(message) => pretty_text(doc@) == Err::<Seq<char>, Seq<char>>(message@),
        },
{
    let tree = lower(doc);
    render_tree(&tree)
}

} // verus!
