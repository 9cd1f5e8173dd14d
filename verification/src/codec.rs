//! JSON text to [`Json`] and back, through `serde_json`.
//!
//! Reading and writing JSON text is `serde_json`'s work, on its own type
//! `serde_json::Value`. What such a value holds is named by [`value_doc`].
//! The functions at the top of this module say, one level of a document at a
//! time, what `serde_json` hands out and takes; the conversions between its
//! values and [`Json`] are built on them and verified.

use crate::json::{
    items_view, member, members_view, new_items, new_members, push_item, push_member, Json,
    JsonView, Number, NumberView,
};
use serde_json::Value;
use vstd::prelude::*;

verus! {

/// What a body that holds no answer of a known shape is reported as.
pub const DECODE_FAILURE: &'static str = "error decoding response body";

#[verifier::external_type_specification]
#[verifier::external_body]
pub struct ExValue(serde_json::Value);

/// The document that a `serde_json::Value` holds. An integer from zero up is
/// an unsigned number and one below zero a negative number; any other number
/// is a real number with the text that `serde_json` prints for it. The
/// members of an object stand in the order in which its map walks them.
pub uninterp spec fn value_doc(value: serde_json::Value) -> JsonView;

/// The document that `serde_json` reads from `text`, or `None` where it
/// rejects the text.
pub uninterp spec fn parsed(text: Seq<u8>) -> Option<JsonView>;

/// The text that `serde_json` writes for a value that holds `doc`.
pub uninterp spec fn written(doc: JsonView) -> Option<Seq<u8>>;

/// The number that `serde_json` reads from the literal `text`, or `None`
/// where it rejects the literal.
pub uninterp spec fn real_number(text: Seq<char>) -> Option<JsonView>;

/// The members of the `serde_json::Map` into which `members` were collected
/// in their order: one member for each key, with the last of the key's
/// values, in the order in which the map walks them.
pub uninterp spec fn collected(members: Seq<(Seq<char>, JsonView)>) -> Seq<(Seq<char>, JsonView)>;

/// Whether the same keys occur in `left` and in `right`.
pub open spec fn same_keys(
    left: Seq<(Seq<char>, JsonView)>,
    right: Seq<(Seq<char>, JsonView)>,
) -> bool {
    forall|key: Seq<char>|
        #![trigger member(left, key)]
        #![trigger member(right, key)]
        member(left, key) is Some <==> member(right, key) is Some
}

/// Whether `left` and `right` have members of the same keys: a key that has
/// no member in the one has none in the other.
pub open spec fn same_fields(left: JsonView, right: JsonView) -> bool {
    forall|key: Seq<char>|
        #![trigger left.field(key)]
        #![trigger right.field(key)]
        left.field(key) is Some <==> right.field(key) is Some
}

/// The top level of a `serde_json::Value`: which kind of document it holds,
/// and what it is made of. A number is asked for with [`number_of`].
pub enum Layer<'a> {
    Null,
    Bool(bool),
    Number,
    String(&'a String),
    Array(&'a Vec<Value>),
    Object(Vec<(&'a String, &'a Value)>),
}

/// The top level of a `serde_json::Value` that is to be made.
pub enum Piece {
    Null,
    Bool(bool),
    Unsigned(u64),
    Signed(i64),
    String(String),
    Array(Vec<Value>),
    Object(Vec<(String, Value)>),
}

/// The documents that `values` hold, one by one.
pub open spec fn docs(values: Seq<Value>) -> Seq<JsonView> {
    Seq::new(values.len(), |i: int| value_doc(values[i]))
}

/// The keys of `members` with the documents that their values hold.
pub open spec fn borrowed_docs(members: Seq<(&String, &Value)>) -> Seq<(Seq<char>, JsonView)> {
    Seq::new(members.len(), |i: int| (members[i].0@, value_doc(*members[i].1)))
}

/// The keys of `members` with the documents that their values hold.
pub open spec fn owned_docs(members: Seq<(String, Value)>) -> Seq<(Seq<char>, JsonView)> {
    Seq::new(members.len(), |i: int| (members[i].0@, value_doc(members[i].1)))
}

/// Whether `layer` is the top level of `doc`.
pub open spec fn shows(layer: Layer, doc: JsonView) -> bool {
    match layer {
        Layer::Null => doc == JsonView::Null,
        Layer::Bool(b) => doc == JsonView::Bool(b),
        Layer::Number => doc is Number,
        Layer::String(s) => doc == JsonView::String(s@),
        Layer::Array(items) => doc == JsonView::Array(docs(items@)),
        Layer::Object(members) => doc == JsonView::Object(borrowed_docs(members@)),
    }
}

/// The number that stands for a signed integer: unsigned from zero up,
/// negative below.
pub open spec fn signed_number(value: i64) -> NumberView {
    if value < 0 {
        NumberView::Negative(value)
    } else {
        NumberView::Unsigned(value as u64)
    }
}

/// The document that the value made of `piece` holds.
pub open spec fn piece_doc(piece: Piece) -> JsonView {
    match piece {
        Piece::Null => JsonView::Null,
        Piece::Bool(b) => JsonView::Bool(b),
        Piece::Unsigned(u) => JsonView::Number(NumberView::Unsigned(u)),
        Piece::Signed(i) => JsonView::Number(signed_number(i)),
        Piece::String(s) => JsonView::String(s@),
        Piece::Array(items) => JsonView::Array(docs(items@)),
        Piece::Object(members) => JsonView::Object(collected(owned_docs(members@))),
    }
}

/// The document held by a value that may be missing.
pub open spec fn held(value: Option<Value>) -> Option<JsonView> {
    match value {
        Some(v) => Some(value_doc(v)),
        None => None,
    }
}

/// `serde_json::from_slice` into a `serde_json::Value`. The same bytes always
/// give the same document, which [`parsed`] names.
#[verifier::external_body]
fn value_from_slice(text: &[u8]) -> (value: Option<Value>)
    ensures
        held(value) == parsed(text@),
{
    serde_json::from_slice::<Value>(text).ok()
}

/// The variant of a `serde_json::Value` with what it holds: the string, the
/// items of the array, or the members of the object as `serde_json::Map::iter`
/// yields them.
#[verifier::external_body]
fn peel(value: &Value) -> (layer: Layer<'_>)
    ensures
        shows(layer, value_doc(*value)),
{
    match value {
        Value::Null => Layer::Null,
        Value::Bool(b) => Layer::Bool(*b),
        Value::Number(_) => Layer::Number,
        Value::String(s) => Layer::String(s),
        Value::Array(items) => Layer::Array(items),
        Value::Object(map) => Layer::Object(map.iter().collect()),
    }
}

/// The number of a `serde_json::Value` that holds one: by `as_u64` an
/// unsigned integer, else by `as_i64` a negative one, else a real number
/// with its `Display` text.
#[verifier::external_body]
fn number_of(value: &Value) -> (number: Number)
    requires
        value_doc(*value) is Number,
    ensures
        JsonView::Number(number@) == value_doc(*value),
{
    match (value.as_u64(), value.as_i64()) {
        (Some(u), _) => Number::Unsigned(u),
        (None, Some(i)) => Number::Negative(i),
        (None, None) => Number::Real(value.to_string()),
    }
}

/// The `serde_json::Value` made of `piece`: the variant for its kind, with
/// `serde_json::Value::from` for an integer, and the members of an object
/// collected into a `serde_json::Map` in their order. The map has a member
/// for each key that was given, and for no other.
#[verifier::external_body]
fn assemble(piece: Piece) -> (value: Value)
    ensures
        value_doc(value) == piece_doc(piece),
        piece matches Piece::Object(members) ==> value_doc(value) == JsonView::Object(
            collected(owned_docs(members@)),
        ),
        piece matches Piece::Object(members) ==> same_fields(
            JsonView::Object(owned_docs(members@)),
            value_doc(value),
        ),
{
    match piece {
        Piece::Null => Value::Null,
        Piece::Bool(b) => Value::Bool(b),
        Piece::Unsigned(u) => Value::from(u),
        Piece::Signed(i) => Value::from(i),
        Piece::String(s) => Value::String(s),
        Piece::Array(items) => Value::Array(items),
        Piece::Object(members) => Value::Object(members.into_iter().collect()),
    }
}

/// `str::parse` into a `serde_json::Number`, as a value. The same literal
/// always gives the same number, which [`real_number`] names.
#[verifier::external_body]
fn number_from_literal(text: &str) -> (value: Option<Value>)
    ensures
        held(value) == real_number(text@),
        value matches Some(v) ==> value_doc(v) is Number,
{
    text.parse::<serde_json::Number>().ok().map(Value::Number)
}

/// `serde_json::to_vec` on a `serde_json::Value`. The text depends on the
/// document that the value holds, and [`written`] names it.
#[verifier::external_body]
fn value_to_vec(value: &Value) -> (text: Option<Vec<u8>>)
    ensures
        match text {
            Some(bytes) => written(value_doc(*value)) == Some(bytes@),
            None => written(value_doc(*value)) is None,
        },
{
    serde_json::to_vec(value).ok()
}

/// The document held by the `serde_json::Value` that is made of `doc`, or
/// `None` where `doc` holds a real number whose literal `serde_json` does
/// not accept. Integers and strings stay as they are; a negative number that
/// is not below zero becomes unsigned; the members of an object are
/// collected into a map.
pub open spec fn lowered(doc: JsonView) -> Option<JsonView>
    decreases doc, 1int,
{
    match doc {
        JsonView::Null => Some(JsonView::Null),
        JsonView::Bool(b) => Some(JsonView::Bool(b)),
        JsonView::Number(NumberView::Unsigned(u)) => Some(
            JsonView::Number(NumberView::Unsigned(u)),
        ),
        JsonView::Number(NumberView::Negative(i)) => Some(JsonView::Number(signed_number(i))),
        JsonView::Number(NumberView::Real(text)) => real_number(text),
        JsonView::String(s) => Some(JsonView::String(s)),
        JsonView::Array(items) => if all_lowered(items) {
            Some(JsonView::Array(lowered_items(items)))
        } else {
            None
        },
        JsonView::Object(members) => if all_members_lowered(members) {
            Some(JsonView::Object(collected(lowered_members(members))))
        } else {
            None
        },
    }
}

/// Whether a value can be made of each of `items`.
pub open spec fn all_lowered(items: Seq<JsonView>) -> bool
    decreases items, 0int,
{
    forall|i: int| 0 <= i < items.len() ==> lowered(#[trigger] items[i]) is Some
}

/// What the values made of `items` hold, one by one.
pub open spec fn lowered_items(items: Seq<JsonView>) -> Seq<JsonView>
    decreases items, 0int,
{
    Seq::new(
        items.len(),
        |i: int|
            if 0 <= i < items.len() {
                lowered(items[i])->0
            } else {
                JsonView::Null
            },
    )
}

/// Whether a value can be made of the value of each of `members`.
pub open spec fn all_members_lowered(members: Seq<(Seq<char>, JsonView)>) -> bool
    decreases members, 0int,
{
    forall|i: int| 0 <= i < members.len() ==> lowered((#[trigger] members[i]).1) is Some
}

/// The keys of `members` with what the values made of their values hold.
pub open spec fn lowered_members(members: Seq<(Seq<char>, JsonView)>) -> Seq<
    (Seq<char>, JsonView),
>
    decreases members, 0int,
{
    Seq::new(
        members.len(),
        |i: int|
            if 0 <= i < members.len() {
                (members[i].0, lowered(members[i].1)->0)
            } else {
                (Seq::empty(), JsonView::Null)
            },
    )
}

/// The text that `serde_json` writes for `doc`, or `None` where `doc` holds a
/// real number whose literal `serde_json` does not accept.
pub open spec fn rendered(doc: JsonView) -> Option<Seq<u8>> {
    match lowered(doc) {
        Some(held) => written(held),
        None => None,
    }
}

/// The values made of members have the keys of the members.
pub proof fn lemma_lowered_keys(members: Seq<(Seq<char>, JsonView)>)
    ensures
        same_keys(members, lowered_members(members)),
    decreases members.len(),
{
    let made = lowered_members(members);
    if members.len() > 0 {
        lemma_lowered_keys(members.drop_last());
        assert(made.drop_last() =~= lowered_members(members.drop_last()));
        assert(made.last().0 == members.last().0);
        assert forall|key: Seq<char>| member(members, key) is Some <==> member(
            made,
            key,
        ) is Some by {
            assert(member(members.drop_last(), key) is Some <==> member(
                lowered_members(members.drop_last()),
                key,
            ) is Some);
        }
    }
}

/// The [`Json`] that holds what `value` holds.
pub fn lift(value: &Value) -> (doc: Json)
    ensures
        doc@ == value_doc(*value),
    decreases value_doc(*value),
{
    match peel(value) {
        Layer::Null => Json::Null,
        Layer::Bool(b) => Json::Bool(b),
        Layer::Number => Json::Number(number_of(value)),
        Layer::String(s) => Json::String(s.clone()),
        Layer::Array(items) => {
            let ghost all = docs(items@);
            let mut lifted = new_items();
            let mut i: usize = 0;
            assert(all.take(0) =~= Seq::<JsonView>::empty());
            while i < items.len()
                invariant
                    i <= items.len(),
                    all == docs(items@),
                    value_doc(*value) == JsonView::Array(all),
                    items_view(lifted@) == all.take(i as int),
                decreases items.len() - i,
            {
                proof {
                    let whole = value_doc(*value);
                    assert(decreases_to!(whole => whole->Array_0));
                    assert(decreases_to!(all => all[i as int]));
                }
                let item = lift(&items[i]);
                push_item(&mut lifted, item);
                assert(all.take(i as int).push(all[i as int]) =~= all.take(i + 1));
                i = i + 1;
            }
            assert(all.take(items.len() as int) =~= all);
            Json::array(lifted)
        },
        Layer::Object(members) => {
            let ghost all = borrowed_docs(members@);
            let mut lifted = new_members();
            let mut i: usize = 0;
            assert(all.take(0) =~= Seq::<(Seq<char>, JsonView)>::empty());
            while i < members.len()
                invariant
                    i <= members.len(),
                    all == borrowed_docs(members@),
                    value_doc(*value) == JsonView::Object(all),
                    members_view(lifted@) == all.take(i as int),
                decreases members.len() - i,
            {
                proof {
                    let whole = value_doc(*value);
                    assert(decreases_to!(whole => whole->Object_0));
                    assert(decreases_to!(all => all[i as int]));
                    assert(decreases_to!(all[i as int] => all[i as int].1));
                }
                let item = lift(members[i].1);
                push_member(&mut lifted, members[i].0.as_str(), item);
                assert(all.take(i as int).push(all[i as int]) =~= all.take(i + 1));
                i = i + 1;
            }
            assert(all.take(members.len() as int) =~= all);
            Json::object(lifted)
        },
    }
}

/// The `serde_json::Value` made of `doc`, or `None` where `doc` holds a real
/// number whose literal `serde_json` does not accept. The value has members
/// of the same keys as `doc`.
pub fn lower(doc: &Json) -> (value: Option<Value>)
    ensures
        held(value) == lowered(doc@),
        value matches Some(v) ==> same_fields(doc@, value_doc(v)),
    decreases doc,
{
    match doc {
        Json::Null => Some(assemble(Piece::Null)),
        Json::Bool(b) => Some(assemble(Piece::Bool(*b))),
        Json::Number(Number::Unsigned(u)) => Some(assemble(Piece::Unsigned(*u))),
        Json::Number(Number::Negative(i)) => Some(assemble(Piece::Signed(*i))),
        Json::Number(Number::Real(text)) => number_from_literal(text.as_str()),
        Json::String(s) => Some(assemble(Piece::String(s.clone()))),
        Json::Array(items) => {
            let ghost views = items_view(items@);
            proof {
                doc.lemma_array_view();
                assert(doc@->Array_0 =~= views);
            }
            let mut values: Vec<Value> = Vec::new();
            let mut i: usize = 0;
            while i < items.len()
                invariant
                    i <= items.len(),
                    doc is Array,
                    doc->Array_0 == *items,
                    views == items_view(items@),
                    doc@ == JsonView::Array(views),
                    values.len() == i,
                    forall|k: int|
                        0 <= k < i ==> lowered(views[k]) == Some(
                            value_doc(#[trigger] values[k]),
                        ),
                decreases items.len() - i,
            {
                proof {
                    assert(decreases_to!(*doc => doc->Array_0));
                    assert(decreases_to!(*items => items@[i as int]));
                }
                match lower(&items[i]) {
                    Some(value) => values.push(value),
                    None => {
                        assert(lowered(views[i as int]) is None);
                        return None;
                    },
                }
                i = i + 1;
            }
            proof {
                assert forall|k: int| 0 <= k < views.len() implies lowered(
                    #[trigger] views[k],
                ) is Some by {
                    assert(lowered(views[k]) == Some(value_doc(values[k])));
                }
                assert(lowered_items(views) =~= docs(values@)) by {
                    assert forall|k: int| 0 <= k < views.len() implies lowered(views[k])->0
                        == value_doc(values[k]) by {
                        assert(lowered(views[k]) == Some(value_doc(values[k])));
                    }
                }
            }
            Some(assemble(Piece::Array(values)))
        },
        Json::Object(members) => {
            let ghost views = members_view(members@);
            proof {
                doc.lemma_object_view();
                assert(doc@->Object_0 =~= views);
            }
            let mut values: Vec<(String, Value)> = Vec::new();
            let mut i: usize = 0;
            while i < members.len()
                invariant
                    i <= members.len(),
                    doc is Object,
                    doc->Object_0 == *members,
                    views == members_view(members@),
                    doc@ == JsonView::Object(views),
                    values.len() == i,
                    forall|k: int|
                        0 <= k < i ==> (#[trigger] values[k]).0@ == views[k].0 && lowered(
                            views[k].1,
                        ) == Some(value_doc(values[k].1)),
                decreases members.len() - i,
            {
                proof {
                    assert(decreases_to!(*doc => doc->Object_0));
                    assert(decreases_to!(*members => members@[i as int]));
                }
                match lower(&members[i].1) {
                    Some(value) => values.push((members[i].0.clone(), value)),
                    None => {
                        assert(lowered(views[i as int].1) is None);
                        return None;
                    },
                }
                i = i + 1;
            }
            proof {
                assert forall|k: int| 0 <= k < views.len() implies lowered(
                    (#[trigger] views[k]).1,
                ) is Some by {
                    assert(lowered(views[k].1) == Some(value_doc(values[k].1)));
                }
                assert(lowered_members(views) =~= owned_docs(values@)) by {
                    assert forall|k: int| 0 <= k < views.len() implies lowered_members(
                        views,
                    )[k] == (values[k].0@, value_doc(values[k].1)) by {
                        assert(lowered(views[k].1) == Some(value_doc(values[k].1)));
                    }
                }
                lemma_lowered_keys(views);
            }
            let ghost given = owned_docs(values@);
            let value = assemble(Piece::Object(values));
            proof {
                let made = value_doc(value);
                assert forall|key: Seq<char>| doc@.field(key) is Some <==> made.field(
                    key,
                ) is Some by {
                    assert(doc@.field(key) == member(views, key));
                    assert(JsonView::Object(given).field(key) == member(given, key));
                }
            }
            Some(value)
        },
    }
}

impl Json {
    /// Reads a JSON text.
    pub fn parse(text: &[u8]) -> (doc: Option<Json>)
        ensures
            match doc {
                Some(j) => parsed(text@) == Some(j@),
                None => parsed(text@) is None,
            },
    {
        match value_from_slice(text) {
            Some(value) => Some(lift(&value)),
            None => None,
        }
    }

    /// Writes the document as JSON text. The text is that of a document with
    /// members of the same keys.
    pub fn to_bytes(&self) -> (text: Option<Vec<u8>>)
        ensures
            match text {
                Some(bytes) => rendered(self@) == Some(bytes@),
                None => rendered(self@) is None,
            },
            text is Some ==> (lowered(self@) matches Some(sent) && same_fields(self@, sent)),
    {
        match lower(self) {
            Some(value) => value_to_vec(&value),
            None => None,
        }
    }
}

} // verus!
