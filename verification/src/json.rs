//! JSON documents as plain values.
//!
//! [`Json`] is the tree the rest of the crate reads and builds. Its view,
//! [`JsonView`], is the mathematical tree all contracts are stated over.

use vstd::prelude::*;

verus! {

/// The view of a [`Number`].
pub enum NumberView {
    Unsigned(u64),
    Negative(i64),
    Real(Seq<char>),
}

/// The view of a [`Json`] document.
pub enum JsonView {
    Null,
    Bool(bool),
    Number(NumberView),
    String(Seq<char>),
    Array(Seq<JsonView>),
    Object(Seq<(Seq<char>, JsonView)>),
}

/// A JSON number: a non-negative integer, a negative integer, or the literal
/// text of a number that is not an integer.
#[derive(Debug, Clone, PartialEq, Eq)]
pub enum Number {
    Unsigned(u64),
    Negative(i64),
    Real(String),
}

/// A JSON document. The members of an object keep their order; when a key
/// occurs more than once, the last occurrence is the one that counts.
#[derive(Debug, PartialEq, Eq)]
pub enum Json {
    Null,
    Bool(bool),
    Number(Number),
    String(String),
    Array(Vec<Json>),
    Object(Vec<(String, Json)>),
}

impl View for Number {
    type V = NumberView;

    open spec fn view(&self) -> NumberView {
        match self {
            Number::Unsigned(u) => NumberView::Unsigned(*u),
            Number::Negative(i) => NumberView::Negative(*i),
            Number::Real(text) => NumberView::Real(text@),
        }
    }
}

/// The document that `j` holds.
pub open spec fn json_view(j: Json) -> JsonView
    decreases j,
{
    match j {
        Json::Null => JsonView::Null,
        Json::Bool(b) => JsonView::Bool(b),
        Json::Number(n) => JsonView::Number(n@),
        Json::String(s) => JsonView::String(s@),
        Json::Array(items) => JsonView::Array(
            Seq::new(
                items@.len(),
                |i: int|
                    if 0 <= i < items@.len() {
                        json_view(items@[i])
                    } else {
                        JsonView::Null
                    },
            ),
        ),
        Json::Object(members) => JsonView::Object(
            Seq::new(
                members@.len(),
                |i: int|
                    if 0 <= i < members@.len() {
                        (members@[i].0@, json_view(members@[i].1))
                    } else {
                        (Seq::empty(), JsonView::Null)
                    },
            ),
        ),
    }
}

impl View for Json {
    type V = JsonView;

    open spec fn view(&self) -> JsonView {
        json_view(*self)
    }
}

/// The value of the last member of `members` whose key is `key`.
pub open spec fn member(members: Seq<(Seq<char>, JsonView)>, key: Seq<char>) -> Option<JsonView>
    decreases members.len(),
{
    if members.len() == 0 {
        None
    } else if members.last().0 == key {
        Some(members.last().1)
    } else {
        member(members.drop_last(), key)
    }
}

/// The views of `items`, one by one.
pub open spec fn items_view(items: Seq<Json>) -> Seq<JsonView> {
    Seq::new(items.len(), |i: int| json_view(items[i]))
}

/// The views of `members`, one by one.
pub open spec fn members_view(members: Seq<(String, Json)>) -> Seq<(Seq<char>, JsonView)> {
    Seq::new(members.len(), |i: int| (members[i].0@, json_view(members[i].1)))
}

impl NumberView {
    /// The value of a number that is an integer.
    pub open spec fn integer(self) -> Option<int> {
        match self {
            NumberView::Unsigned(u) => Some(u as int),
            NumberView::Negative(i) => Some(i as int),
            NumberView::Real(_) => None,
        }
    }
}

impl JsonView {
    /// The value of member `key` when `self` is an object that has one.
    pub open spec fn field(self, key: Seq<char>) -> Option<JsonView> {
        match self {
            JsonView::Object(members) => member(members, key),
            _ => None,
        }
    }

    /// Member `key` when it is there and is not `null`.
    pub open spec fn present(self, key: Seq<char>) -> Option<JsonView> {
        match self.field(key) {
            Some(JsonView::Null) => None,
            found => found,
        }
    }

    /// The characters of a string.
    pub open spec fn text(self) -> Option<Seq<char>> {
        match self {
            JsonView::String(s) => Some(s),
            _ => None,
        }
    }

    /// The items of an array.
    pub open spec fn items(self) -> Option<Seq<JsonView>> {
        match self {
            JsonView::Array(items) => Some(items),
            _ => None,
        }
    }

    /// The value of a number that is an integer.
    pub open spec fn integer(self) -> Option<int> {
        match self {
            JsonView::Number(n) => n.integer(),
            _ => None,
        }
    }

    /// The strings of an array that holds nothing but strings.
    pub open spec fn texts(self) -> Option<Seq<Seq<char>>> {
        match self {
            JsonView::Array(items) => if forall|i: int|
                0 <= i < items.len() ==> (#[trigger] items[i]) is String {
                Some(Seq::new(items.len(), |i: int| items[i]->String_0))
            } else {
                None
            },
            _ => None,
        }
    }

    /// The characters of member `key` when it is a string.
    pub open spec fn text_field(self, key: Seq<char>) -> Option<Seq<char>> {
        match self.field(key) {
            Some(JsonView::String(s)) => Some(s),
            _ => None,
        }
    }

    /// An optional string member: `Some(None)` when `key` is missing or
    /// `null`, `Some(Some(..))` when it is a string, `None` when it is
    /// anything else.
    pub open spec fn optional_text(self, key: Seq<char>) -> Option<Option<Seq<char>>> {
        match self.present(key) {
            None => Some(None),
            Some(JsonView::String(s)) => Some(Some(s)),
            Some(_) => None,
        }
    }

    /// The value of member `key` when it is an integer from `low` to `high`.
    pub open spec fn integer_field(self, key: Seq<char>, low: int, high: int) -> Option<int> {
        match self.field(key) {
            Some(value) => match value.integer() {
                Some(i) => if low <= i <= high {
                    Some(i)
                } else {
                    None
                },
                None => None,
            },
            None => None,
        }
    }

    /// An optional integer member: `Some(None)` when `key` is missing or
    /// `null`, `Some(Some(..))` when it is an integer from `low` to `high`,
    /// `None` when it is anything else.
    pub open spec fn optional_integer(self, key: Seq<char>, low: int, high: int) -> Option<
        Option<int>,
    > {
        match self.present(key) {
            None => Some(None),
            Some(value) => match value.integer() {
                Some(i) => if low <= i <= high {
                    Some(Some(i))
                } else {
                    None
                },
                None => None,
            },
        }
    }
}

/// The members of an object that has none.
pub open spec fn no_members() -> Seq<(Seq<char>, JsonView)> {
    Seq::empty()
}

/// `members`, and after them member `key` if `value` is there.
pub open spec fn with_optional(
    members: Seq<(Seq<char>, JsonView)>,
    key: Seq<char>,
    value: Option<JsonView>,
) -> Seq<(Seq<char>, JsonView)> {
    match value {
        Some(v) => members.push((key, v)),
        None => members,
    }
}

/// A string, if there is one.
pub open spec fn optional_string(value: Option<Seq<char>>) -> Option<JsonView> {
    match value {
        Some(s) => Some(JsonView::String(s)),
        None => None,
    }
}

/// What `read` finds in each of `items`, when it finds something in every
/// one.
pub open spec fn read_all<T>(items: Seq<JsonView>, read: spec_fn(JsonView) -> Option<T>) -> Option<
    Seq<T>,
> {
    if forall|i: int| 0 <= i < items.len() ==> (#[trigger] read(items[i])) is Some {
        Some(Seq::new(items.len(), |i: int| read(items[i])->0))
    } else {
        None
    }
}

/// Looking a key up after an optional member was appended.
pub broadcast proof fn lemma_member_with_optional(
    members: Seq<(Seq<char>, JsonView)>,
    key: Seq<char>,
    value: Option<JsonView>,
    wanted: Seq<char>,
)
    ensures
        #[trigger] member(with_optional(members, key, value), wanted) == if value is Some && key
            == wanted {
            value
        } else {
            member(members, wanted)
        },
{
    if value is Some {
        lemma_member_push(members, key, value->0, wanted);
    }
}

/// Looking a key up after one more member was appended.
pub broadcast proof fn lemma_member_push(
    members: Seq<(Seq<char>, JsonView)>,
    key: Seq<char>,
    value: JsonView,
    wanted: Seq<char>,
)
    ensures
        #[trigger] member(members.push((key, value)), wanted) == if key == wanted {
            Some(value)
        } else {
            member(members, wanted)
        },
{
    assert(members.push((key, value)).drop_last() =~= members);
}

impl Number {
    /// A copy of the number.
    pub fn duplicate(&self) -> (copy: Number)
        ensures
            copy@ == self@,
    {
        match self {
            Number::Unsigned(u) => Number::Unsigned(*u),
            Number::Negative(i) => Number::Negative(*i),
            Number::Real(text) => Number::Real(text.clone()),
        }
    }
}

impl Json {
    /// What the view of an object holds, member by member.
    pub proof fn lemma_object_view(self)
        requires
            self is Object,
        ensures
            self@ is Object,
            self@->Object_0.len() == self->Object_0.len(),
            forall|k: int|
                0 <= k < self->Object_0.len() ==> #[trigger] self@->Object_0[k] == (
                    self->Object_0[k].0@,
                    self->Object_0[k].1@,
                ),
    {
    }

    /// What the view of an array holds, item by item.
    pub proof fn lemma_array_view(self)
        requires
            self is Array,
        ensures
            self@ is Array,
            self@->Array_0.len() == self->Array_0.len(),
            forall|k: int|
                0 <= k < self->Array_0.len() ==> #[trigger] self@->Array_0[k]
                    == self->Array_0[k]@,
    {
    }

    /// Looks up member `key` of an object.
    pub fn get(&self, key: &str) -> (found: Option<&Json>)
        ensures
            match found {
                Some(value) => self@.field(key@) == Some(value@),
                None => self@.field(key@) is None,
            },
    {
        match self {
            Json::Object(members) => {
                let wanted: String = key.to_owned();
                let ghost all = self@->Object_0;
                proof {
                    self.lemma_object_view();
                    assert(all.take(all.len() as int) =~= all);
                }
                let mut i: usize = members.len();
                while i > 0
                    invariant
                        i <= members.len(),
                        wanted@ == key@,
                        self@ == JsonView::Object(all),
                        all.len() == members.len(),
                        forall|k: int|
                            0 <= k < members.len() ==> #[trigger] all[k] == (
                                members[k].0@,
                                members[k].1@,
                            ),
                        member(all, key@) == member(all.take(i as int), key@),
                    decreases i,
                {
                    i = i - 1;
                    proof {
                        let prefix = all.take(i + 1);
                        assert(prefix.drop_last() =~= all.take(i as int));
                        assert(prefix.last() == all[i as int]);
                    }
                    if members[i].0 == wanted {
                        assert(member(all.take(i + 1), key@) == Some(all[i as int].1));
                        return Some(&members[i].1);
                    }
                }
                assert(all.take(0).len() == 0);
                None
            },
            _ => None,
        }
    }

    /// Member `key` of an object, unless it is missing or `null`.
    pub fn present(&self, key: &str) -> (found: Option<&Json>)
        ensures
            match found {
                Some(value) => self@.present(key@) == Some(value@),
                None => self@.present(key@) is None,
            },
    {
        match self.get(key) {
            Some(Json::Null) => None,
            found => found,
        }
    }

    /// The characters of a string.
    pub fn as_text(&self) -> (found: Option<&String>)
        ensures
            match found {
                Some(text) => self@.text() == Some(text@),
                None => self@.text() is None,
            },
    {
        match self {
            Json::String(text) => Some(text),
            _ => None,
        }
    }

    /// The items of an array.
    pub fn as_items(&self) -> (found: Option<&Vec<Json>>)
        ensures
            match found {
                Some(items) => self@.items() == Some(items_view(items@)),
                None => self@.items() is None,
            },
    {
        match self {
            Json::Array(items) => {
                proof {
                    self.lemma_array_view();
                    assert(self@->Array_0 =~= items_view(items@));
                }
                Some(items)
            },
            _ => None,
        }
    }

    /// The strings of an array that holds nothing but strings.
    pub fn as_texts(&self) -> (found: Option<Vec<String>>)
        ensures
            match found {
                Some(texts) => self@.texts() == Some(crate::text::texts_view(texts@)),
                None => self@.texts() is None,
            },
    {
        match self.as_items() {
            Some(items) => {
                let mut texts: Vec<String> = Vec::new();
                let mut i: usize = 0;
                while i < items.len()
                    invariant
                        i <= items.len(),
                        self@ == JsonView::Array(items_view(items@)),
                        texts.len() == i,
                        forall|k: int|
                            0 <= k < i ==> items[k]@ == JsonView::String((#[trigger] texts[k])@),
                    decreases items.len() - i,
                {
                    match items[i].as_text() {
                        Some(text) => texts.push(text.clone()),
                        None => {
                            assert(!(items_view(items@)[i as int] is String));
                            return None;
                        },
                    }
                    i = i + 1;
                }
                proof {
                    let views = items_view(items@);
                    assert forall|k: int| 0 <= k < views.len() implies (#[trigger] views[k])
                        is String by {
                        assert(items[k]@ == JsonView::String(texts[k]@));
                    }
                    assert(self@.texts()->0 =~= crate::text::texts_view(texts@)) by {
                        assert forall|k: int| 0 <= k < views.len() implies views[k]->String_0
                            == texts[k]@ by {
                            assert(items[k]@ == JsonView::String(texts[k]@));
                        }
                    }
                }
                Some(texts)
            },
            None => None,
        }
    }

    /// The characters of member `key` when it is a string.
    pub fn text_field(&self, key: &str) -> (found: Option<&String>)
        ensures
            match found {
                Some(text) => self@.text_field(key@) == Some(text@),
                None => self@.text_field(key@) is None,
            },
    {
        match self.get(key) {
            Some(value) => value.as_text(),
            None => None,
        }
    }

    /// An optional string member; the outer `None` says that the member is
    /// there and is neither a string nor `null`.
    pub fn optional_text(&self, key: &str) -> (found: Option<Option<String>>)
        ensures
            match found {
                Some(Some(text)) => self@.optional_text(key@) == Some(Some(text@)),
                Some(None) => self@.optional_text(key@) == Some(None::<Seq<char>>),
                None => self@.optional_text(key@) is None,
            },
    {
        match self.present(key) {
            None => Some(None),
            Some(value) => match value.as_text() {
                Some(text) => Some(Some(text.clone())),
                None => None,
            },
        }
    }

    /// The value of member `key` when it is an integer from `low` to `high`.
    pub fn integer_field(&self, key: &str, low: i128, high: i128) -> (found: Option<i128>)
        ensures
            match found {
                Some(i) => self@.integer_field(key@, low as int, high as int) == Some(i as int),
                None => self@.integer_field(key@, low as int, high as int) is None,
            },
    {
        match self.get(key) {
            Some(value) => match value.as_integer() {
                Some(i) => if low <= i && i <= high {
                    Some(i)
                } else {
                    None
                },
                None => None,
            },
            None => None,
        }
    }

    /// An optional integer member; the outer `None` says that the member is
    /// there and is neither `null` nor an integer from `low` to `high`.
    pub fn optional_integer(&self, key: &str, low: i128, high: i128) -> (found: Option<
        Option<i128>,
    >)
        ensures
            match found {
                Some(Some(i)) => self@.optional_integer(key@, low as int, high as int) == Some(
                    Some(i as int),
                ),
                Some(None) => self@.optional_integer(key@, low as int, high as int) == Some(
                    None::<int>,
                ),
                None => self@.optional_integer(key@, low as int, high as int) is None,
            },
    {
        match self.present(key) {
            None => Some(None),
            Some(value) => match value.as_integer() {
                Some(i) => if low <= i && i <= high {
                    Some(Some(i))
                } else {
                    None
                },
                None => None,
            },
        }
    }

    /// The value of a number that is an integer.
    pub fn as_integer(&self) -> (found: Option<i128>)
        ensures
            match found {
                Some(value) => self@.integer() == Some(value as int),
                None => self@.integer() is None,
            },
    {
        match self {
            Json::Number(Number::Unsigned(u)) => Some(*u as i128),
            Json::Number(Number::Negative(i)) => Some(*i as i128),
            _ => None,
        }
    }

    /// A string.
    pub fn text(text: &str) -> (doc: Json)
        ensures
            doc@ == JsonView::String(text@),
    {
        Json::String(text.to_owned())
    }

    /// An integer number.
    pub fn integer(value: i128) -> (doc: Json)
        requires
            i64::MIN <= value <= u64::MAX,
        ensures
            doc@.integer() == Some(value as int),
            doc@ is Number,
            value >= 0 ==> doc@ == JsonView::Number(NumberView::Unsigned(value as u64)),
            value < 0 ==> doc@ == JsonView::Number(NumberView::Negative(value as i64)),
    {
        if value >= 0 {
            Json::Number(Number::Unsigned(value as u64))
        } else {
            Json::Number(Number::Negative(value as i64))
        }
    }

    /// An array of `items`.
    pub fn array(items: Vec<Json>) -> (doc: Json)
        ensures
            doc@ == JsonView::Array(items_view(items@)),
    {
        let ghost views = items_view(items@);
        let doc = Json::Array(items);
        proof {
            doc.lemma_array_view();
            assert(doc@->Array_0 =~= views);
        }
        doc
    }

    /// An object of `members`.
    pub fn object(members: Vec<(String, Json)>) -> (doc: Json)
        ensures
            doc@ == JsonView::Object(members_view(members@)),
    {
        let ghost views = members_view(members@);
        let doc = Json::Object(members);
        proof {
            doc.lemma_object_view();
            assert(doc@->Object_0 =~= views);
        }
        doc
    }

    /// A copy of the document.
    pub fn duplicate(&self) -> (copy: Json)
        ensures
            copy@ == self@,
        decreases self,
    {
        match self {
            Json::Null => Json::Null,
            Json::Bool(b) => Json::Bool(*b),
            Json::Number(Number::Unsigned(u)) => Json::Number(Number::Unsigned(*u)),
            Json::Number(Number::Negative(i)) => Json::Number(Number::Negative(*i)),
            Json::Number(Number::Real(text)) => Json::Number(Number::Real(text.clone())),
            Json::String(text) => Json::String(text.clone()),
            Json::Array(items) => {
                let mut copies: Vec<Json> = Vec::new();
                let mut i: usize = 0;
                while i < items.len()
                    invariant
                        i <= items.len(),
                        self is Array,
                        self->Array_0 == *items,
                        copies.len() == i,
                        forall|k: int| 0 <= k < i ==> (#[trigger] copies[k])@ == items[k]@,
                    decreases items.len() - i,
                {
                    proof {
                        assert(decreases_to!(*self => self->Array_0));
                        assert(decreases_to!(*items => items@[i as int]));
                    }
                    copies.push(items[i].duplicate());
                    i = i + 1;
                }
                proof {
                    self.lemma_array_view();
                    assert(items_view(copies@) =~= self@->Array_0);
                }
                Json::array(copies)
            },
            Json::Object(members) => {
                let mut copies: Vec<(String, Json)> = Vec::new();
                let mut i: usize = 0;
                while i < members.len()
                    invariant
                        i <= members.len(),
                        self is Object,
                        self->Object_0 == *members,
                        copies.len() == i,
                        forall|k: int|
                            0 <= k < i ==> (#[trigger] copies[k]).0@ == members[k].0@
                                && copies[k].1@ == members[k].1@,
                    decreases members.len() - i,
                {
                    proof {
                        assert(decreases_to!(*self => self->Object_0));
                        assert(decreases_to!(*members => members@[i as int]));
                    }
                    copies.push((members[i].0.clone(), members[i].1.duplicate()));
                    i = i + 1;
                }
                proof {
                    self.lemma_object_view();
                    assert(members_view(copies@) =~= self@->Object_0);
                }
                Json::object(copies)
            },
        }
    }
}

/// The members of an object under construction, none yet.
pub fn new_members() -> (members: Vec<(String, Json)>)
    ensures
        members_view(members@) == no_members(),
{
    let members: Vec<(String, Json)> = Vec::new();
    assert(members_view(members@) =~= no_members());
    members
}

/// The items of an array under construction, none yet.
pub fn new_items() -> (items: Vec<Json>)
    ensures
        items_view(items@) == Seq::<JsonView>::empty(),
{
    let items: Vec<Json> = Vec::new();
    assert(items_view(items@) =~= Seq::<JsonView>::empty());
    items
}

/// Appends member `key` with `value` to the members of an object under
/// construction.
pub fn push_member(members: &mut Vec<(String, Json)>, key: &str, value: Json)
    ensures
        members_view(final(members)@) == members_view(old(members)@).push((key@, value@)),
{
    members.push((key.to_owned(), value));
    assert(members_view(members@) =~= members_view(old(members)@).push((key@, value@)));
}

/// Appends `item` to the items of an array under construction.
pub fn push_item(items: &mut Vec<Json>, item: Json)
    ensures
        items_view(final(items)@) == items_view(old(items)@).push(item@),
{
    items.push(item);
    assert(items_view(items@) =~= items_view(old(items)@).push(item@));
}

} // verus!
