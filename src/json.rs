use vstd::prelude::*;

verus! {

/// A JSON document as the protocol's messages use it.
///
/// Unsigned integers that fit 64 bits are held as numbers; any other number
/// keeps its JSON text. Object members keep their order.
#[derive(Debug)]
pub enum JsonValue {
    Null,
    Bool(bool),
    Number(u64),
    OtherNumber(String),
    Text(String),
    Array(Vec<JsonValue>),
    Object(Vec<(String, JsonValue)>),
}

/// A JSON document as a mathematical value.
pub enum JsonSpec {
    Null,
    Bool(bool),
    Number(u64),
    OtherNumber(Seq<char>),
    Text(Seq<char>),
    Array(Seq<JsonSpec>),
    Object(Seq<(Seq<char>, JsonSpec)>),
}

/// The mathematical value of a document.
pub open spec fn json_view(v: JsonValue) -> JsonSpec
    decreases v,
{
    match v {
        JsonValue::Null => JsonSpec::Null,
        JsonValue::Bool(b) => JsonSpec::Bool(b),
        JsonValue::Number(n) => JsonSpec::Number(n),
        JsonValue::OtherNumber(t) => JsonSpec::OtherNumber(t@),
        JsonValue::Text(t) => JsonSpec::Text(t@),
        JsonValue::Array(items) => JsonSpec::Array(
            Seq::new(
                items.len() as nat,
                |i: int|
                    if 0 <= i < items.len() {
                        json_view(items[i])
                    } else {
                        JsonSpec::Null
                    },
            ),
        ),
        JsonValue::Object(members) => JsonSpec::Object(
            Seq::new(
                members.len() as nat,
                |i: int|
                    if 0 <= i < members.len() {
                        (members[i].0@, json_view(members[i].1))
                    } else {
                        (Seq::empty(), JsonSpec::Null)
                    },
            ),
        ),
    }
}

/// The mathematical value of a list of object members.
pub open spec fn members_view(members: Seq<(String, JsonValue)>) -> Seq<(Seq<char>, JsonSpec)> {
    members.map_values(|m: (String, JsonValue)| (m.0@, json_view(m.1)))
}

/// The mathematical value of a list of array items.
pub open spec fn items_view(items: Seq<JsonValue>) -> Seq<JsonSpec> {
    items.map_values(|v: JsonValue| json_view(v))
}

/// The value of the first member named `key`.
pub open spec fn lookup(members: Seq<(Seq<char>, JsonSpec)>, key: Seq<char>) -> Option<JsonSpec>
    decreases members.len(),
{
    if members.len() == 0 {
        None
    } else if members[0].0 == key {
        Some(members[0].1)
    } else {
        lookup(members.drop_first(), key)
    }
}

impl JsonSpec {
    /// The member `key` of this value, where it is an object that has one.
    pub open spec fn field(self, key: Seq<char>) -> Option<JsonSpec> {
        match self {
            JsonSpec::Object(members) => lookup(members, key),
            _ => None,
        }
    }

    /// The names of the members of this value, where it is an object.
    pub open spec fn keys(self) -> Seq<Seq<char>> {
        match self {
            JsonSpec::Object(members) => members.map_values(|m: (Seq<char>, JsonSpec)| m.0),
            _ => Seq::empty(),
        }
    }
}

/// An object's value is the list of its members' values.
pub proof fn lemma_object_view(members: Vec<(String, JsonValue)>)
    ensures
        json_view(JsonValue::Object(members)) == JsonSpec::Object(members_view(members@)),
{
    assert(json_view(JsonValue::Object(members))->Object_0 =~= members_view(members@));
}

/// An array's value is the list of its items' values.
pub proof fn lemma_array_view(items: Vec<JsonValue>)
    ensures
        json_view(JsonValue::Array(items)) == JsonSpec::Array(items_view(items@)),
{
    assert(json_view(JsonValue::Array(items))->Array_0 =~= items_view(items@));
}

/// Builds an object from its members.
pub fn object(members: Vec<(String, JsonValue)>) -> (r: JsonValue)
    ensures
        json_view(r) == JsonSpec::Object(members_view(members@)),
{
    proof {
        lemma_object_view(members);
    }
    JsonValue::Object(members)
}

/// Builds an array from its items.
pub fn array(items: Vec<JsonValue>) -> (r: JsonValue)
    ensures
        json_view(r) == JsonSpec::Array(items_view(items@)),
{
    proof {
        lemma_array_view(items);
    }
    JsonValue::Array(items)
}

/// Appends the member `key` with `value` to an object's members.
pub fn push_member(members: &mut Vec<(String, JsonValue)>, key: &str, value: JsonValue)
    ensures
        members_view(final(members)@) == members_view(old(members)@).push((key@, json_view(value))),
{
    members.push((key.to_owned(), value));
    assert(members_view(final(members)@) =~= members_view(old(members)@).push(
        (key@, json_view(value)),
    ));
}

impl JsonValue {
    /// The member `key` of this value, where it is an object that has one.
    pub fn get(&self, key: &str) -> (r: Option<&JsonValue>)
        ensures
            r is None <==> json_view(*self).field(key@) is None,
            r matches Some(v) ==> json_view(*self).field(key@) == Some(json_view(*v)),
    {
        match self {
            JsonValue::Object(members) => {
                proof {
                    lemma_object_view(*members);
                }
                let ghost all = members_view(members@);
                let wanted = key.to_owned();
                let mut i: usize = 0;
                assert(all.subrange(0, all.len() as int) =~= all);
                while i < members.len()
                    invariant
                        i <= members@.len(),
                        all == members_view(members@),
                        wanted@ == key@,
                        json_view(*self).field(key@) == lookup(all, key@),
                        lookup(all, key@) == lookup(all.subrange(i as int, all.len() as int), key@),
                    decreases members@.len() - i,
                {
                    let ghost rest = all.subrange(i as int, all.len() as int);
                    assert(rest[0] == (members@[i as int].0@, json_view(members@[i as int].1)));
                    if members[i].0 == wanted {
                        return Some(&members[i].1);
                    }
                    assert(rest.drop_first() =~= all.subrange(i + 1, all.len() as int));
                    i += 1;
                }
                None
            },
            _ => None,
        }
    }

    /// The text of this value, where it is a JSON string.
    pub fn as_text(&self) -> (r: Option<&String>)
        ensures
            r is None <==> !(json_view(*self) is Text),
            r matches Some(t) ==> json_view(*self) == JsonSpec::Text(t@),
    {
        match self {
            JsonValue::Text(t) => Some(t),
            _ => None,
        }
    }

    /// The number held by this value, where it is an unsigned 64-bit one.
    pub fn as_u64(&self) -> (r: Option<u64>)
        ensures
            r is None <==> !(json_view(*self) is Number),
            r matches Some(n) ==> json_view(*self) == JsonSpec::Number(n),
    {
        match self {
            JsonValue::Number(n) => Some(*n),
            _ => None,
        }
    }
}

} // verus!
