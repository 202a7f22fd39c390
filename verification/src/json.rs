use vstd::prelude::*;

use crate::text::same_text;

verus! {

/// A JSON number, as far as this library reads it.
#[derive(Debug, Clone, Copy, PartialEq, Eq, Structural)]
pub enum JsonNumber {
    /// A non-negative integer.
    PosInt(u64),
    /// A negative integer.
    NegInt(i64),
    /// Any other number; its value is not held.
    Float,
}

/// A JSON value.
#[derive(Debug)]
pub enum Json {
    Null,
    Bool(bool),
    Number(JsonNumber),
    String(String),
    Array(Vec<Json>),
    /// The members of an object, in order.
    Object(Vec<(String, Json)>),
}

/// The mathematical form of a JSON value.
pub enum JsonView {
    Null,
    Bool(bool),
    Number(JsonNumber),
    Str(Seq<char>),
    Array(Seq<JsonView>),
    Object(Seq<(Seq<char>, JsonView)>),
}

impl View for Json {
    type V = JsonView;

    open spec fn view(&self) -> JsonView
        decreases self,
    {
        match self {
            Json::Null => JsonView::Null,
            Json::Bool(b) => JsonView::Bool(*b),
            Json::Number(n) => JsonView::Number(*n),
            Json::String(s) => JsonView::Str(s@),
            Json::Array(items) => JsonView::Array(items_view(items@)),
            Json::Object(members) => JsonView::Object(members_view(members@)),
        }
    }
}

/// The mathematical forms of a sequence of JSON values.
pub open spec fn items_view(items: Seq<Json>) -> Seq<JsonView>
    decreases items,
{
    if items.len() == 0 {
        Seq::empty()
    } else {
        items_view(items.drop_last()).push(items.last().view())
    }
}

/// The mathematical forms of the members of an object: their names and their values.
pub open spec fn members_view(members: Seq<(String, Json)>) -> Seq<(Seq<char>, JsonView)>
    decreases members,
{
    if members.len() == 0 {
        Seq::empty()
    } else {
        members_view(members.drop_last()).push((members.last().0@, members.last().1.view()))
    }
}

/// The value of the first member named `key`, or `Null` where there is none.
pub open spec fn member(members: Seq<(Seq<char>, JsonView)>, key: Seq<char>) -> JsonView
    decreases members.len(),
{
    if members.len() == 0 {
        JsonView::Null
    } else if members[0].0 == key {
        members[0].1
    } else {
        member(members.drop_first(), key)
    }
}

impl JsonView {
    /// `value[key]` as `serde_json` reads it: the member of an object, or `Null`.
    pub open spec fn get(self, key: Seq<char>) -> JsonView {
        match self {
            JsonView::Object(members) => member(members, key),
            _ => JsonView::Null,
        }
    }

    /// `as_str`: the text of a string.
    pub open spec fn as_str(self) -> Option<Seq<char>> {
        match self {
            JsonView::Str(s) => Some(s),
            _ => None,
        }
    }

    /// `as_u64`: the value of a non-negative integer.
    pub open spec fn as_u64(self) -> Option<u64> {
        match self {
            JsonView::Number(JsonNumber::PosInt(n)) => Some(n),
            _ => None,
        }
    }

    /// `as_array`: the items of an array.
    pub open spec fn as_array(self) -> Option<Seq<JsonView>> {
        match self {
            JsonView::Array(items) => Some(items),
            _ => None,
        }
    }
}

/// The view of a sequence of values has one entry per value, each the view of that value.
pub proof fn lemma_items_view(items: Seq<Json>)
    ensures
        items_view(items).len() == items.len(),
        forall|i: int| 0 <= i < items.len() ==> #[trigger] items_view(items)[i] == items[i]@,
    decreases items.len(),
{
    reveal_with_fuel(items_view, 2);
    if items.len() > 0 {
        lemma_items_view(items.drop_last());
    } else {
        assert(items_view(items) == Seq::<JsonView>::empty());
    }
}

/// The view of the members of an object has one entry per member: its name and the view of
/// its value.
pub proof fn lemma_members_view(members: Seq<(String, Json)>)
    ensures
        members_view(members).len() == members.len(),
        forall|i: int|
            0 <= i < members.len() ==> #[trigger] members_view(members)[i] == (
                members[i].0@,
                members[i].1@,
            ),
    decreases members.len(),
{
    reveal_with_fuel(members_view, 2);
    if members.len() > 0 {
        lemma_members_view(members.drop_last());
    }
}

impl Json {
    /// `self[key]`: the first member of an object named `key`; `None` where `serde_json`
    /// gives `Null` for want of one.
    pub fn get(&self, key: &str) -> (found: Option<&Json>)
        ensures
            self@.get(key@) == match found {
                Some(v) => v@,
                None => JsonView::Null,
            },
    {
        match self {
            Json::Object(members) => {
                let ghost views = members_view(members@);
                proof {
                    lemma_members_view(members@);
                }
                assert(self@ == JsonView::Object(views));
                assert(self@.get(key@) == member(views, key@));
                let mut i: usize = 0;
                assert(views.subrange(0, views.len() as int) =~= views);
                while i < members.len()
                    invariant
                        i <= members@.len(),
                        views == members_view(members@),
                        self@.get(key@) == member(views, key@),
                        views.len() == members@.len(),
                        forall|j: int|
                            0 <= j < members@.len() ==> #[trigger] views[j] == (
                                members@[j].0@,
                                members@[j].1@,
                            ),
                        member(views, key@) == member(
                            views.subrange(i as int, views.len() as int),
                            key@,
                        ),
                    decreases members.len() - i,
                {
                    let ghost rest = views.subrange(i as int, views.len() as int);
                    assert(rest[0] == views[i as int]);
                    if same_text(members[i].0.as_str(), key) {
                        assert(rest.len() > 0);
                        assert(member(rest, key@) == members@[i as int].1@);
                        return Some(&members[i].1);
                    }
                    assert(rest.drop_first() =~= views.subrange(i + 1, views.len() as int));
                    i = i + 1;
                }
                assert(views.subrange(i as int, views.len() as int).len() == 0);
                None
            },
            _ => None,
        }
    }

    /// `as_str`.
    pub fn as_str(&self) -> (text: Option<&str>)
        ensures
            match text {
                Some(t) => self@.as_str() == Some(t@),
                None => self@.as_str() is None,
            },
    {
        match self {
            Json::String(s) => Some(s.as_str()),
            _ => None,
        }
    }

    /// `as_u64`.
    pub fn as_u64(&self) -> (n: Option<u64>)
        ensures
            n == self@.as_u64(),
    {
        match self {
            Json::Number(JsonNumber::PosInt(n)) => Some(*n),
            _ => None,
        }
    }

    /// `as_array`.
    pub fn as_array(&self) -> (items: Option<&Vec<Json>>)
        ensures
            match items {
                Some(v) => self@.as_array() == Some(items_view(v@)),
                None => self@.as_array() is None,
            },
    {
        match self {
            Json::Array(items) => Some(items),
            _ => None,
        }
    }
}

} // verus!

verus! {

impl Json {
    /// A string value.
    pub fn text(s: &str) -> (j: Json)
        ensures
            j@ == JsonView::Str(s@),
    {
        Json::String(String::from_str(s))
    }

    /// An object without members.
    pub fn empty_object() -> (j: Json)
        ensures
            j@ == JsonView::Object(Seq::empty()),
    {
        let members: Vec<(String, Json)> = Vec::new();
        proof {
            reveal_with_fuel(members_view, 1);
        }
        Json::Object(members)
    }

    /// This object with one more member, placed last.
    pub fn with_member(self, key: &str, value: Json) -> (j: Json)
        requires
            self@ is Object,
        ensures
            j@ == JsonView::Object(self@->Object_0.push((key@, value@))),
    {
        match self {
            Json::Object(members) => {
                let mut members = members;
                let ghost before = members@;
                members.push((String::from_str(key), value));
                proof {
                    reveal_with_fuel(members_view, 1);
                    assert(members@.drop_last() =~= before);
                }
                Json::Object(members)
            },
            _ => self,
        }
    }

    /// An array without items.
    pub fn empty_array() -> (j: Json)
        ensures
            j@ == JsonView::Array(Seq::empty()),
    {
        let items: Vec<Json> = Vec::new();
        proof {
            reveal_with_fuel(items_view, 1);
        }
        Json::Array(items)
    }

    /// This array with one more item, placed last.
    pub fn with_item(self, value: Json) -> (j: Json)
        requires
            self@ is Array,
        ensures
            j@ == JsonView::Array(self@->Array_0.push(value@)),
    {
        match self {
            Json::Array(items) => {
                let mut items = items;
                let ghost before = items@;
                items.push(value);
                proof {
                    reveal_with_fuel(items_view, 1);
                    assert(items@.drop_last() =~= before);
                }
                Json::Array(items)
            },
            _ => self,
        }
    }
}

} // verus!
