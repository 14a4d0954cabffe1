//! The input of a conversion: a JSON tree whose numbers keep their source
//! text and whose objects keep their members in insertion order.

use vstd::prelude::*;

verus! {

/// The mathematical value of a JSON tree.
pub enum JsonView {
    Null,
    Bool(bool),
    /// A number, as the characters of its literal.
    Number(Seq<char>),
    String(Seq<char>),
    Array(Seq<JsonView>),
    /// The members of an object, in insertion order.
    Object(Seq<(Seq<char>, JsonView)>),
}

/// No key occurs twice among `members`.
pub open spec fn keys_distinct(members: Seq<(Seq<char>, JsonView)>) -> bool {
    forall|i: int, j: int|
        0 <= i < j < members.len() ==> (#[trigger] members[i]).0 != (#[trigger] members[j]).0
}

/// Every object in the tree maps each of its keys to one value.
pub open spec fn well_formed(tree: JsonView) -> bool
    decreases tree,
{
    match tree {
        JsonView::Array(items) => forall|i: int|
            0 <= i < items.len() ==> well_formed(#[trigger] items[i]),
        JsonView::Object(members) => {
            &&& keys_distinct(members)
            &&& forall|i: int| 0 <= i < members.len() ==> well_formed((#[trigger] members[i]).1)
        },
        _ => true,
    }
}

/// `key` names one of `members`.
pub open spec fn has_key(members: Seq<(Seq<char>, JsonView)>, key: Seq<char>) -> bool {
    exists|i: int| 0 <= i < members.len() && (#[trigger] members[i]).0 == key
}

/// Where the member named `key` stands, if `has_key(members, key)`.
pub open spec fn key_position(members: Seq<(Seq<char>, JsonView)>, key: Seq<char>) -> int {
    choose|i: int| 0 <= i < members.len() && (#[trigger] members[i]).0 == key
}

/// The value that `members` gives to `key`.
pub open spec fn lookup(members: Seq<(Seq<char>, JsonView)>, key: Seq<char>) -> Option<JsonView> {
    if has_key(members, key) {
        Some(members[key_position(members, key)].1)
    } else {
        None
    }
}

/// `members` after `key` has been set to `value`: a key that is already there
/// keeps its place and gets the new value, a new key goes to the end.
pub open spec fn with_member(
    members: Seq<(Seq<char>, JsonView)>,
    key: Seq<char>,
    value: JsonView,
) -> Seq<(Seq<char>, JsonView)> {
    if has_key(members, key) {
        members.update(key_position(members, key), (key, value))
    } else {
        members.push((key, value))
    }
}

/// Among distinct keys the position of a key is the only index that holds it.
pub proof fn lemma_key_position_unique(
    members: Seq<(Seq<char>, JsonView)>,
    key: Seq<char>,
    i: int,
)
    requires
        keys_distinct(members),
        0 <= i < members.len(),
        members[i].0 == key,
    ensures
        has_key(members, key),
        key_position(members, key) == i,
        lookup(members, key) == Some(members[i].1),
{
    let p = key_position(members, key);
    assert(0 <= p < members.len() && members[p].0 == key);
    if p < i {
        assert(members[p].0 != members[i].0);
    } else if i < p {
        assert(members[i].0 != members[p].0);
    }
}

/// Setting a key keeps the members a mapping, and the last value set for a
/// key is the one that a lookup finds; other keys are not touched.
pub proof fn lemma_last_write_wins(
    members: Seq<(Seq<char>, JsonView)>,
    key: Seq<char>,
    value: JsonView,
)
    requires
        keys_distinct(members),
    ensures
        keys_distinct(with_member(members, key, value)),
        lookup(with_member(members, key, value), key) == Some(value),
        forall|other: Seq<char>|
            other != key ==> #[trigger] lookup(with_member(members, key, value), other) == lookup(
                members,
                other,
            ),
        with_member(members, key, value).len() == if has_key(members, key) {
            members.len()
        } else {
            members.len() + 1
        },
{
    let after = with_member(members, key, value);
    let at = if has_key(members, key) {
        key_position(members, key)
    } else {
        members.len() as int
    };
    assert(0 <= at < after.len() && after[at] == (key, value));
    assert forall|i: int, j: int| 0 <= i < j < after.len() implies (#[trigger] after[i]).0 != (
    #[trigger] after[j]).0 by {
        if has_key(members, key) {
            assert(after[i].0 == members[i].0 && after[j].0 == members[j].0);
        } else if j == members.len() {
            assert(after[i] == members[i]);
        } else {
            assert(after[i] == members[i] && after[j] == members[j]);
        }
    }
    lemma_key_position_unique(after, key, at);
    assert forall|other: Seq<char>| other != key implies #[trigger] lookup(after, other) == lookup(
        members,
        other,
    ) by {
        if has_key(members, other) {
            let p = key_position(members, other);
            assert(after[p] == members[p]);
            lemma_key_position_unique(members, other, p);
            lemma_key_position_unique(after, other, p);
        } else if has_key(after, other) {
            let p = key_position(after, other);
            assert(p != at);
            assert(after[p] == members[p]);
        }
    }
}

/// A JSON tree. A number holds the text of its literal and nothing else, so
/// that no number is ever rounded or reformatted.
#[derive(Debug, PartialEq, Eq)]
pub enum Json {
    Null,
    Bool(bool),
    Number(String),
    String(String),
    Array(Vec<Json>),
    Object(JsonObject),
}

/// The members of a JSON object: each key once, in the order in which the
/// keys were first inserted.
#[derive(Debug, PartialEq, Eq)]
pub struct JsonObject {
    members: Vec<(String, Json)>,
}

/// The value of a tree.
pub open spec fn tree_view(tree: Json) -> JsonView
    decreases tree,
{
    match tree {
        Json::Null => JsonView::Null,
        Json::Bool(b) => JsonView::Bool(b),
        Json::Number(literal) => JsonView::Number(literal@),
        Json::String(text) => JsonView::String(text@),
        Json::Array(items) => JsonView::Array(
            Seq::new(
                items@.len(),
                |i: int|
                    if 0 <= i < items@.len() {
                        tree_view(items@[i])
                    } else {
                        JsonView::Null
                    },
            ),
        ),
        Json::Object(object) => JsonView::Object(object.view()),
    }
}

/// The value of a list of members.
pub open spec fn members_view(members: Seq<(String, Json)>) -> Seq<(Seq<char>, JsonView)>
    decreases members,
{
    Seq::new(
        members.len(),
        |i: int|
            if 0 <= i < members.len() {
                (members[i].0@, tree_view(members[i].1))
            } else {
                (Seq::empty(), JsonView::Null)
            },
    )
}

impl View for JsonObject {
    type V = Seq<(Seq<char>, JsonView)>;

    closed spec fn view(&self) -> Seq<(Seq<char>, JsonView)>
        decreases self,
    {
        members_view(self.members@)
    }
}

impl View for Json {
    type V = JsonView;

    open spec fn view(&self) -> JsonView {
        tree_view(*self)
    }
}

impl JsonObject {
    #[verifier::type_invariant]
    spec fn members_are_a_mapping(self) -> bool {
        keys_distinct(self@)
    }

    /// An object without members.
    pub fn new() -> (object: Self)
        ensures
            object@ == Seq::<(Seq<char>, JsonView)>::empty(),
    {
        JsonObject { members: Vec::new() }
    }

    /// The members in the order in which their keys were first inserted.
    pub fn members(&self) -> (members: &Vec<(String, Json)>)
        ensures
            keys_distinct(self@),
            members@.len() == self@.len(),
            forall|i: int|
                0 <= i < members@.len() ==> (#[trigger] members@[i]).0@ == self@[i].0
                    && members@[i].1@ == self@[i].1,
    {
        proof {
            use_type_invariant(self);
        }
        &self.members
    }

    /// The number of members.
    pub fn len(&self) -> (n: usize)
        ensures
            n == self@.len(),
    {
        self.members.len()
    }

    /// Where the member named `key` stands.
    fn position(&self, key: &String) -> (found: Option<usize>)
        ensures
            keys_distinct(self@),
            match found {
                Some(i) => i < self@.len() && self@[i as int].0 == key@ && has_key(self@, key@)
                    && key_position(self@, key@) == i,
                None => !has_key(self@, key@),
            },
    {
        proof {
            use_type_invariant(self);
        }
        let mut i: usize = 0;
        while i < self.members.len()
            invariant
                i <= self.members@.len(),
                self.members@.len() == self@.len(),
                keys_distinct(self@),
                forall|k: int| 0 <= k < i ==> (#[trigger] self@[k]).0 != key@,
            decreases self.members@.len() - i,
        {
            if self.members[i].0 == *key {
                proof {
                    lemma_key_position_unique(self@, key@, i as int);
                }
                return Some(i);
            }
            i += 1;
        }
        None
    }

    /// The value of the member named `key`.
    pub fn get(&self, key: &str) -> (found: Option<&Json>)
        ensures
            keys_distinct(self@),
            match found {
                Some(value) => lookup(self@, key@) == Some(value@),
                None => lookup(self@, key@) is None,
            },
    {
        let wanted: String = key.to_owned();
        match self.position(&wanted) {
            Some(i) => Some(&self.members[i].1),
            None => None,
        }
    }

    /// Sets the member named `key` to `value`. A key that is already there
    /// keeps its place and loses its earlier value.
    pub fn insert(&mut self, key: String, value: Json)
        ensures
            final(self)@ == with_member(old(self)@, key@, value@),
            keys_distinct(final(self)@),
            lookup(final(self)@, key@) == Some(value@),
    {
        let ghost before = self@;
        proof {
            use_type_invariant(&*self);
            lemma_last_write_wins(before, key@, value@);
        }
        let found = self.position(&key);
        let mut taken = JsonObject::new();
        std::mem::swap(self, &mut taken);
        let mut members = taken.members;
        match found {
            Some(i) => {
                members.set(i, (key, value));
            },
            None => {
                members.push((key, value));
            },
        }
        assert(members_view(members@) =~= with_member(before, key@, value@));
        *self = JsonObject { members };
    }
}

} // verus!
