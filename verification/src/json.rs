//! JSON documents: what the service sends and what is sent to it.

use vstd::prelude::*;
use crate::text::{decimal_digits, decimal_text, text_eq};

verus! {

/// A JSON document held in memory.
#[derive(Debug, PartialEq, Eq)]
pub enum Json {
    Null,
    Bool(bool),
    /// A number that is an unsigned integer, such as a page size.
    Integer(u64),
    /// Any other number, carried as the decimal text that writes it.
    Number(String),
    Text(String),
    Array(Vec<Json>),
    /// The members in the order in which they were written. Looking a name
    /// up finds the first member that bears it.
    Object(Vec<(String, Json)>),
}

/// The mathematical value of a [`Json`] document.
pub enum JsonValue {
    Null,
    Bool(bool),
    Integer(u64),
    Number(Seq<char>),
    Text(Seq<char>),
    Array(Seq<JsonValue>),
    Object(Seq<(Seq<char>, JsonValue)>),
}

/// The values of a run of documents.
pub open spec fn values_of(items: Seq<Json>) -> Seq<JsonValue>
    decreases items, 0int,
{
    Seq::new(
        items.len(),
        |i: int|
            if 0 <= i < items.len() {
                items[i].view()
            } else {
                JsonValue::Null
            },
    )
}

/// The names and values of a run of members.
pub open spec fn members_of(members: Seq<(String, Json)>) -> Seq<(Seq<char>, JsonValue)>
    decreases members, 0int,
{
    Seq::new(
        members.len(),
        |i: int|
            if 0 <= i < members.len() {
                (members[i].0@, members[i].1.view())
            } else {
                (Seq::empty(), JsonValue::Null)
            },
    )
}

impl View for Json {
    type V = JsonValue;

    open spec fn view(&self) -> JsonValue
        decreases self, 1int,
    {
        match self {
            Json::Null => JsonValue::Null,
            Json::Bool(b) => JsonValue::Bool(*b),
            Json::Integer(n) => JsonValue::Integer(*n),
            Json::Number(t) => JsonValue::Number(t@),
            Json::Text(t) => JsonValue::Text(t@),
            Json::Array(items) => JsonValue::Array(values_of(items@)),
            Json::Object(members) => JsonValue::Object(members_of(members@)),
        }
    }
}

/// An object of one member.
pub open spec fn obj1(k: Seq<char>, v: JsonValue) -> JsonValue {
    JsonValue::Object(seq![(k, v)])
}

/// An object of two members.
pub open spec fn obj2(k0: Seq<char>, v0: JsonValue, k1: Seq<char>, v1: JsonValue) -> JsonValue {
    JsonValue::Object(seq![(k0, v0), (k1, v1)])
}

/// An object of three members.
pub open spec fn obj3(
    k0: Seq<char>,
    v0: JsonValue,
    k1: Seq<char>,
    v1: JsonValue,
    k2: Seq<char>,
    v2: JsonValue,
) -> JsonValue {
    JsonValue::Object(seq![(k0, v0), (k1, v1), (k2, v2)])
}

/// The value of the first member named `key`, if there is one.
pub open spec fn lookup(members: Seq<(Seq<char>, JsonValue)>, key: Seq<char>) -> Option<JsonValue>
    decreases members.len(),
{
    if members.len() == 0 {
        None
    } else if members[0].0 == key {
        Some(members[0].1)
    } else {
        lookup(members.drop_first(), key)
    }
}

impl JsonValue {
    /// The member `key` of an object; nothing for any other value.
    pub open spec fn get(self, key: Seq<char>) -> Option<JsonValue> {
        match self {
            JsonValue::Object(members) => lookup(members, key),
            _ => None,
        }
    }

    /// The items of an array.
    pub open spec fn as_array(self) -> Option<Seq<JsonValue>> {
        match self {
            JsonValue::Array(items) => Some(items),
            _ => None,
        }
    }

    /// The members of an object.
    pub open spec fn as_object(self) -> Option<Seq<(Seq<char>, JsonValue)>> {
        match self {
            JsonValue::Object(members) => Some(members),
            _ => None,
        }
    }

    /// The characters of a string.
    pub open spec fn as_text(self) -> Option<Seq<char>> {
        match self {
            JsonValue::Text(t) => Some(t),
            _ => None,
        }
    }

    /// The truth value of a boolean.
    pub open spec fn as_bool(self) -> Option<bool> {
        match self {
            JsonValue::Bool(b) => Some(b),
            _ => None,
        }
    }

    /// The decimal text of a number.
    pub open spec fn as_number(self) -> Option<Seq<char>> {
        match self {
            JsonValue::Number(t) => Some(t),
            JsonValue::Integer(n) => Some(decimal_digits(n as nat)),
            _ => None,
        }
    }

    /// The string that is the member `key` of an object.
    pub open spec fn text_at(self, key: Seq<char>) -> Option<Seq<char>> {
        match self.get(key) {
            Some(v) => v.as_text(),
            None => None,
        }
    }

    /// The array that is the member `key` of an object.
    pub open spec fn array_at(self, key: Seq<char>) -> Option<Seq<JsonValue>> {
        match self.get(key) {
            Some(v) => v.as_array(),
            None => None,
        }
    }

    /// The boolean that is the member `key` of an object.
    pub open spec fn bool_at(self, key: Seq<char>) -> Option<bool> {
        match self.get(key) {
            Some(v) => v.as_bool(),
            None => None,
        }
    }
}

/// Looking a name up skips the members before the first that bears it.
pub proof fn lemma_lookup_skip(members: Seq<(Seq<char>, JsonValue)>, key: Seq<char>, i: int)
    requires
        0 <= i <= members.len(),
        forall|k: int| 0 <= k < i ==> (#[trigger] members[k]).0 != key,
    ensures
        lookup(members, key) == lookup(members.skip(i), key),
    decreases i,
{
    if i == 0 {
        assert(members.skip(0) =~= members);
    } else {
        let rest = members.drop_first();
        assert forall|k: int| 0 <= k < i - 1 implies (#[trigger] rest[k]).0 != key by {
            assert(rest[k] == members[k + 1]);
        }
        lemma_lookup_skip(rest, key, i - 1);
        assert(rest.skip(i - 1) =~= members.skip(i));
    }
}

impl Json {
    /// The member `key` of an object; nothing for any other document.
    #[verifier::loop_isolation(false)]
    pub fn get(&self, key: &str) -> (r: Option<&Json>)
        ensures
            match r {
                Some(v) => self@.get(key@) == Some(v@),
                None => self@.get(key@).is_none(),
            },
    {
        match self {
            Json::Object(members) => {
                let mut i: usize = 0;
                while i < members.len()
                    invariant
                        i <= members@.len(),
                        forall|k: int|
                            0 <= k < i ==> (#[trigger] members_of(members@)[k]).0 != key@,
                    decreases members@.len() - i,
                {
                    if text_eq(members[i].0.as_str(), key) {
                        proof {
                            let all = members_of(members@);
                            lemma_lookup_skip(all, key@, i as int);
                            let rest = all.skip(i as int);
                            assert(rest[0] == all[i as int]);
                            assert(rest[0].0 == key@);
                            assert(lookup(rest, key@) == Some(rest[0].1));
                        }
                        return Some(&members[i].1);
                    }
                    i = i + 1;
                }
                proof {
                    let all = members_of(members@);
                    lemma_lookup_skip(all, key@, i as int);
                    assert(all.skip(i as int) =~= Seq::empty());
                }
                None
            },
            _ => None,
        }
    }

    /// The items of an array.
    pub fn as_array(&self) -> (r: Option<&Vec<Json>>)
        ensures
            match r {
                Some(items) => self@.as_array() == Some(values_of(items@)),
                None => self@.as_array().is_none(),
            },
    {
        match self {
            Json::Array(items) => Some(items),
            _ => None,
        }
    }

    /// The members of an object.
    pub fn as_object(&self) -> (r: Option<&Vec<(String, Json)>>)
        ensures
            match r {
                Some(members) => self@.as_object() == Some(members_of(members@)),
                None => self@.as_object().is_none(),
            },
    {
        match self {
            Json::Object(members) => Some(members),
            _ => None,
        }
    }

    /// The characters of a string.
    pub fn as_str(&self) -> (r: Option<&str>)
        ensures
            match r {
                Some(t) => self@.as_text() == Some(t@),
                None => self@.as_text().is_none(),
            },
    {
        match self {
            Json::Text(t) => Some(t.as_str()),
            _ => None,
        }
    }

    /// The truth value of a boolean.
    pub fn as_bool(&self) -> (r: Option<bool>)
        ensures
            r == self@.as_bool(),
    {
        match self {
            Json::Bool(b) => Some(*b),
            _ => None,
        }
    }

    /// The decimal text of a number.
    pub fn as_number(&self) -> (r: Option<String>)
        ensures
            match r {
                Some(t) => self@.as_number() == Some(t@),
                None => self@.as_number().is_none(),
            },
    {
        match self {
            Json::Number(t) => Some(t.clone()),
            Json::Integer(n) => Some(decimal_text(*n)),
            _ => None,
        }
    }

    /// The string that is the member `key` of an object.
    pub fn text_at(&self, key: &str) -> (r: Option<&str>)
        ensures
            match r {
                Some(t) => self@.text_at(key@) == Some(t@),
                None => self@.text_at(key@).is_none(),
            },
    {
        match self.get(key) {
            Some(v) => v.as_str(),
            None => None,
        }
    }

    /// The array that is the member `key` of an object.
    pub fn array_at(&self, key: &str) -> (r: Option<&Vec<Json>>)
        ensures
            match r {
                Some(items) => self@.array_at(key@) == Some(values_of(items@)),
                None => self@.array_at(key@).is_none(),
            },
    {
        match self.get(key) {
            Some(v) => v.as_array(),
            None => None,
        }
    }

    /// The boolean that is the member `key` of an object.
    pub fn bool_at(&self, key: &str) -> (r: Option<bool>)
        ensures
            r == self@.bool_at(key@),
    {
        match self.get(key) {
            Some(v) => v.as_bool(),
            None => None,
        }
    }

    /// A copy of the document.
    #[verifier::loop_isolation(false)]
    pub fn duplicate(&self) -> (r: Json)
        ensures
            r@ == self@,
        decreases self,
    {
        match self {
            Json::Null => Json::Null,
            Json::Bool(b) => Json::Bool(*b),
            Json::Integer(n) => Json::Integer(*n),
            Json::Number(t) => Json::Number(t.clone()),
            Json::Text(t) => Json::Text(t.clone()),
            Json::Array(items) => {
                let mut out: Vec<Json> = Vec::new();
                let mut i: usize = 0;
                while i < items.len()
                    invariant
                        i <= items@.len(),
                        out@.len() == i,
                        forall|k: int| 0 <= k < i ==> (#[trigger] out@[k])@ == items@[k]@,
                    decreases items@.len() - i,
                {
                    out.push(items[i].duplicate());
                    i = i + 1;
                }
                assert(values_of(out@) =~= values_of(items@));
                Json::Array(out)
            },
            Json::Object(members) => {
                let mut out: Vec<(String, Json)> = Vec::new();
                let mut i: usize = 0;
                while i < members.len()
                    invariant
                        i <= members@.len(),
                        out@.len() == i,
                        forall|k: int|
                            0 <= k < i ==> (#[trigger] out@[k]).0@ == members@[k].0@ && out@[k].1@
                                == members@[k].1@,
                    decreases members@.len() - i,
                {
                    out.push((members[i].0.clone(), members[i].1.duplicate()));
                    i = i + 1;
                }
                assert(members_of(out@) =~= members_of(members@));
                Json::Object(out)
            },
        }
    }

    /// A string document.
    pub fn text(s: &str) -> (r: Json)
        ensures
            r@ == JsonValue::Text(s@),
    {
        Json::Text(s.to_owned())
    }

    /// An array of one item.
    pub fn array1(item: Json) -> (r: Json)
        ensures
            r@ == JsonValue::Array(seq![item@]),
    {
        let mut items: Vec<Json> = Vec::new();
        items.push(item);
        assert(values_of(items@) =~= seq![item@]);
        Json::Array(items)
    }

    /// An array of the given items.
    pub fn array(items: Vec<Json>) -> (r: Json)
        ensures
            r@ == JsonValue::Array(values_of(items@)),
    {
        Json::Array(items)
    }

    /// An object without members.
    pub fn object0() -> (r: Json)
        ensures
            r@ == JsonValue::Object(Seq::empty()),
    {
        let members: Vec<(String, Json)> = Vec::new();
        assert(members_of(members@) =~= Seq::empty());
        Json::Object(members)
    }

    /// An object of one member.
    pub fn object1(k: &str, v: Json) -> (r: Json)
        ensures
            r@ == JsonValue::Object(seq![(k@, v@)]),
    {
        let mut members: Vec<(String, Json)> = Vec::new();
        members.push((k.to_owned(), v));
        assert(members_of(members@) =~= seq![(k@, v@)]);
        Json::Object(members)
    }

    /// An object of two members.
    pub fn object2(k0: &str, v0: Json, k1: &str, v1: Json) -> (r: Json)
        ensures
            r@ == JsonValue::Object(seq![(k0@, v0@), (k1@, v1@)]),
    {
        let mut members: Vec<(String, Json)> = Vec::new();
        members.push((k0.to_owned(), v0));
        members.push((k1.to_owned(), v1));
        assert(members_of(members@) =~= seq![(k0@, v0@), (k1@, v1@)]);
        Json::Object(members)
    }

    /// An object of three members.
    pub fn object3(k0: &str, v0: Json, k1: &str, v1: Json, k2: &str, v2: Json) -> (r: Json)
        ensures
            r@ == JsonValue::Object(seq![(k0@, v0@), (k1@, v1@), (k2@, v2@)]),
    {
        let mut members: Vec<(String, Json)> = Vec::new();
        members.push((k0.to_owned(), v0));
        members.push((k1.to_owned(), v1));
        members.push((k2.to_owned(), v2));
        assert(members_of(members@) =~= seq![(k0@, v0@), (k1@, v1@), (k2@, v2@)]);
        Json::Object(members)
    }

    /// The object with one more member at its end; any other document
    /// unchanged.
    pub fn with_member(self, k: &str, v: Json) -> (r: Json)
        ensures
            r@ == self@.with_member(k@, v@),
    {
        match self {
            Json::Object(members) => {
                let mut members = members;
                let ghost before = members_of(members@);
                members.push((k.to_owned(), v));
                assert(members_of(members@) =~= before.push((k@, v@)));
                Json::Object(members)
            },
            other => other,
        }
    }
}

impl JsonValue {
    /// The object with one more member at its end; any other value unchanged.
    pub open spec fn with_member(self, k: Seq<char>, v: JsonValue) -> JsonValue {
        match self {
            JsonValue::Object(members) => JsonValue::Object(members.push((k, v))),
            other => other,
        }
    }
}

impl Clone for Json {
    fn clone(&self) -> (r: Self)
        ensures
            r@ == self@,
    {
        self.duplicate()
    }
}

} // verus!
