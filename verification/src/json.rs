//! JSON document trees.

use vstd::prelude::*;

verus! {

/// One node of a JSON document.
///
/// A number keeps the text it was written with; an object keeps its members in
/// document order.
#[derive(Debug)]
pub enum Json {
    Null,
    Bool(bool),
    Number(String),
    Text(String),
    Array(Vec<Json>),
    Object(Vec<(String, Json)>),
}

/// The mathematical value of a [`Json`] node.
pub enum JsonValue {
    Null,
    Bool(bool),
    Number(Seq<char>),
    Text(Seq<char>),
    Array(Seq<JsonValue>),
    Object(Seq<(Seq<char>, JsonValue)>),
}

impl View for Json {
    type V = JsonValue;

    open spec fn view(&self) -> JsonValue
        decreases self,
    {
        match self {
            Json::Null => JsonValue::Null,
            Json::Bool(b) => JsonValue::Bool(*b),
            Json::Number(digits) => JsonValue::Number(digits@),
            Json::Text(text) => JsonValue::Text(text@),
            Json::Array(items) => JsonValue::Array(
                Seq::new(
                    items@.len(),
                    |i: int|
                        if 0 <= i < items@.len() {
                            items@[i]@
                        } else {
                            JsonValue::Null
                        },
                ),
            ),
            Json::Object(members) => JsonValue::Object(
                Seq::new(
                    members@.len(),
                    |i: int|
                        if 0 <= i < members@.len() {
                            (members@[i].0@, members@[i].1@)
                        } else {
                            (Seq::empty(), JsonValue::Null)
                        },
                ),
            ),
        }
    }
}

/// What sort of node a JSON value is.
#[derive(Debug, Clone, Copy, PartialEq, Eq, Structural)]
pub enum Kind {
    Null,
    Bool,
    Number,
    Text,
    Array,
    Object,
}

/// The value of the first member called `name` among `members`, if there is one.
pub open spec fn first_member(members: Seq<(Seq<char>, JsonValue)>, name: Seq<char>) -> Option<
    JsonValue,
>
    decreases members.len(),
{
    if members.len() == 0 {
        None
    } else if members[0].0 == name {
        Some(members[0].1)
    } else {
        first_member(members.skip(1), name)
    }
}

impl JsonValue {
    /// What sort of value this is.
    pub open spec fn kind(self) -> Kind {
        match self {
            JsonValue::Null => Kind::Null,
            JsonValue::Bool(_) => Kind::Bool,
            JsonValue::Number(_) => Kind::Number,
            JsonValue::Text(_) => Kind::Text,
            JsonValue::Array(_) => Kind::Array,
            JsonValue::Object(_) => Kind::Object,
        }
    }

    /// The member called `name` of an object: the first one, should the name occur
    /// more than once. A value that is no object has no members.
    pub open spec fn member(self, name: Seq<char>) -> Option<JsonValue> {
        match self {
            JsonValue::Object(members) => first_member(members, name),
            _ => None,
        }
    }
}

/// Skipping a member that is not called `name` does not change which member is found.
proof fn lemma_first_member_skip(members: Seq<(Seq<char>, JsonValue)>, name: Seq<char>, i: int)
    requires
        0 <= i <= members.len(),
        forall|k: int| 0 <= k < i ==> members[k].0 != name,
    ensures
        first_member(members, name) == first_member(members.skip(i), name),
    decreases i,
{
    if i > 0 {
        lemma_first_member_skip(members, name, i - 1);
        let rest = members.skip(i - 1);
        assert(rest[0] == members[i - 1]);
        assert(rest.skip(1) =~= members.skip(i));
    } else {
        assert(members.skip(0) =~= members);
    }
}

/// The value of an object is made of the names and values of its members, in
/// their order.
pub proof fn lemma_object_value(members: Vec<(String, Json)>)
    ensures
        Json::Object(members)@ matches JsonValue::Object(all) && all.len() == members@.len()
            && forall|k: int|
            0 <= k < all.len() ==> all[k] == (members@[k].0@, members@[k].1@),
{
    reveal_with_fuel(<Json as View>::view, 2);
}

impl Json {
    /// What sort of node this is.
    pub fn kind(&self) -> (k: Kind)
        ensures
            k == self@.kind(),
    {
        match self {
            Json::Null => Kind::Null,
            Json::Bool(_) => Kind::Bool,
            Json::Number(_) => Kind::Number,
            Json::Text(_) => Kind::Text,
            Json::Array(_) => Kind::Array,
            Json::Object(_) => Kind::Object,
        }
    }

    /// Looks up the member called `name`.
    pub fn member(&self, name: &str) -> (found: Option<&Json>)
        ensures
            match found {
                Some(value) => self@.member(name@) == Some(value@),
                None => self@.member(name@) is None,
            },
    {
        match self {
            Json::Object(members) => {
                let wanted = name.to_owned();
                let mut i: usize = 0;
                proof {
                    lemma_object_value(*members);
                }
                while i < members.len()
                    invariant
                        i <= members.len(),
                        wanted@ == name@,
                        self@ matches JsonValue::Object(all) && all.len() == members@.len()
                            && forall|k: int|
                            0 <= k < all.len() ==> all[k] == (members@[k].0@, members@[k].1@),
                        forall|k: int| 0 <= k < i ==> members@[k].0@ != name@,
                    decreases members.len() - i,
                {
                    if members[i].0 == wanted {
                        proof {
                            let all = self@->Object_0;
                            lemma_first_member_skip(all, name@, i as int);
                        }
                        return Some(&members[i].1);
                    }
                    i += 1;
                }
                proof {
                    let all = self@->Object_0;
                    lemma_first_member_skip(all, name@, all.len() as int);
                }
                None
            },
            _ => None,
        }
    }

    /// The text of a text node.
    pub fn as_text(&self) -> (text: Option<&String>)
        ensures
            match text {
                Some(t) => self@ == JsonValue::Text(t@),
                None => !(self@ is Text),
            },
    {
        match self {
            Json::Text(t) => Some(t),
            _ => None,
        }
    }

    /// The items of an array node.
    pub fn as_array(&self) -> (items: Option<&Vec<Json>>)
        ensures
            match items {
                Some(v) => self@ matches JsonValue::Array(values) && values.len() == v@.len()
                    && forall|i: int| 0 <= i < v@.len() ==> values[i] == #[trigger] v@[i]@,
                None => !(self@ is Array),
            },
    {
        match self {
            Json::Array(v) => Some(v),
            _ => None,
        }
    }

    /// Whether the node is an object.
    pub fn is_object(&self) -> (yes: bool)
        ensures
            yes == (self@ is Object),
    {
        match self {
            Json::Object(_) => true,
            _ => false,
        }
    }
}

} // verus!
