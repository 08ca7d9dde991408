use vstd::prelude::*;
use crate::text::str_eq;

verus! {

/// A JSON document as a tree of plain values.
///
/// A number keeps the decimal text that stands for it; an object keeps its
/// members as a list of names and values.
#[derive(Debug)]
pub enum Json {
    Null,
    Bool(bool),
    Number(String),
    Text(String),
    Array(Vec<Json>),
    Object(Vec<(String, Json)>),
}

impl Clone for Json {
    fn clone(&self) -> (r: Self)
        ensures
            r@ == self@,
    {
        self.duplicate()
    }
}

/// The mathematical value of a [`Json`].
pub enum JsonValue {
    Null,
    Bool(bool),
    Number(Seq<char>),
    Text(Seq<char>),
    Array(Seq<JsonValue>),
    Object(Seq<(Seq<char>, JsonValue)>),
}

impl View for Json {
    type V = JsonValue;

    open spec fn view(&self) -> JsonValue
        decreases self,
    {
        match self {
            Json::Null => JsonValue::Null,
            Json::Bool(b) => JsonValue::Bool(*b),
            Json::Number(t) => JsonValue::Number(t@),
            Json::Text(t) => JsonValue::Text(t@),
            Json::Array(items) => JsonValue::Array(
                Seq::new(
                    items.len() as nat,
                    |i: int|
                        if 0 <= i < items.len() {
                            items[i]@
                        } else {
                            JsonValue::Null
                        },
                ),
            ),
            Json::Object(members) => JsonValue::Object(
                Seq::new(
                    members.len() as nat,
                    |i: int|
                        (
                            members[i].0@,
                            if 0 <= i < members.len() {
                                members[i].1@
                            } else {
                                JsonValue::Null
                            },
                        ),
                ),
            ),
        }
    }
}

/// Member `i` is the first member of the list that is named `key`.
pub open spec fn is_first_named(
    members: Seq<(Seq<char>, JsonValue)>,
    key: Seq<char>,
    i: int,
) -> bool {
    &&& 0 <= i < members.len()
    &&& members[i].0 == key
    &&& forall|j: int| 0 <= j < i ==> (#[trigger] members[j]).0 != key
}

/// The value of the first member of the list that is named `key`.
pub open spec fn first_named(members: Seq<(Seq<char>, JsonValue)>, key: Seq<char>) -> Option<
    JsonValue,
> {
    if exists|i: int| is_first_named(members, key, i) {
        Some(members[choose|i: int| is_first_named(members, key, i)].1)
    } else {
        None
    }
}

impl JsonValue {
    /// The members of an object; no other value has members.
    pub open spec fn members(self) -> Seq<(Seq<char>, JsonValue)> {
        match self {
            JsonValue::Object(m) => m,
            _ => Seq::empty(),
        }
    }

    /// The value of the member named `key`: of the first one, if an object
    /// has several of that name.
    pub open spec fn member(self, key: Seq<char>) -> Option<JsonValue> {
        first_named(self.members(), key)
    }

    /// The object that holds the members of `self` but for those of the
    /// given names.
    pub open spec fn without(self, names: Seq<Seq<char>>) -> JsonValue {
        JsonValue::Object(unnamed(self.members(), names))
    }
}

/// The members of the list, in their order, but for those of the given
/// names.
pub open spec fn unnamed(members: Seq<(Seq<char>, JsonValue)>, names: Seq<Seq<char>>) -> Seq<
    (Seq<char>, JsonValue),
> {
    members.filter(|m: (Seq<char>, JsonValue)| !names.contains(m.0))
}

/// What the next member adds to the members without the given names.
pub proof fn lemma_unnamed_step(
    members: Seq<(Seq<char>, JsonValue)>,
    names: Seq<Seq<char>>,
    i: int,
)
    requires
        0 <= i < members.len(),
    ensures
        unnamed(members.take(i + 1), names) == if names.contains(members[i].0) {
            unnamed(members.take(i), names)
        } else {
            unnamed(members.take(i), names).push(members[i])
        },
{
    reveal(Seq::filter);
    assert(members.take(i + 1).drop_last() =~= members.take(i));
}

/// Whether `name` is one of `names`.
pub fn is_one_of(names: &Vec<&str>, name: &str) -> (r: bool)
    ensures
        r == names@.map_values(|n: &str| n@).contains(name@),
{
    let ghost views = names@.map_values(|n: &str| n@);
    let mut i: usize = 0;
    while i < names.len()
        invariant
            i <= names.len(),
            views == names@.map_values(|n: &str| n@),
            forall|k: int| 0 <= k < i ==> (#[trigger] views[k]) != name@,
        decreases names.len() - i,
    {
        if str_eq(names[i], name) {
            assert(views[i as int] == name@);
            return true;
        }
        i += 1;
    }
    false
}

impl Json {
    /// The value of the member named `key`, if `self` is an object and has
    /// such a member.
    pub fn get(&self, key: &str) -> (r: Option<&Json>)
        ensures
            crate::fields::value_of(r) == self@.member(key@),
    {
        match self {
            Json::Object(m) => {
                let mut i: usize = 0;
                while i < m.len()
                    invariant
                        i <= m.len(),
                        self@.members().len() == m.len(),
                        forall|j: int|
                            0 <= j < m.len() ==> (#[trigger] self@.members()[j]) == (
                                m@[j].0@,
                                m@[j].1@,
                            ),
                        forall|j: int| 0 <= j < i ==> (#[trigger] self@.members()[j]).0 != key@,
                    decreases m.len() - i,
                {
                    if str_eq(m[i].0.as_str(), key) {
                        proof {
                            lemma_first_named_is(self@.members(), key@, i as int);
                        }
                        return Some(&m[i].1);
                    }
                    i += 1;
                }
                None
            },
            _ => None,
        }
    }

    /// The object that holds the members of `self` but for those of the
    /// given names. A value that is no object has no members.
    pub fn without(&self, names: &Vec<&str>) -> (r: Json)
        ensures
            r@ == self@.without(names@.map_values(|n: &str| n@)),
    {
        let ghost skipped = names@.map_values(|n: &str| n@);
        let mut kept: Vec<(String, Json)> = Vec::new();
        match self {
            Json::Object(m) => {
                let ghost members = self@.members();
                let mut i: usize = 0;
                assert(members.take(0) =~= Seq::empty());
                assert(unnamed(members.take(0), skipped) =~= Seq::empty()) by {
                    reveal(Seq::filter);
                }
                while i < m.len()
                    invariant
                        i <= m.len(),
                        members == self@.members(),
                        members.len() == m.len(),
                        skipped == names@.map_values(|n: &str| n@),
                        forall|j: int|
                            0 <= j < m.len() ==> (#[trigger] members[j]) == (m@[j].0@, m@[j].1@),
                        kept.len() == unnamed(members.take(i as int), skipped).len(),
                        forall|j: int|
                            0 <= j < kept.len() ==> ((#[trigger] kept@[j]).0@, kept@[j].1@)
                                == unnamed(members.take(i as int), skipped)[j],
                    decreases m.len() - i,
                {
                    proof {
                        lemma_unnamed_step(members, skipped, i as int);
                    }
                    if !is_one_of(names, m[i].0.as_str()) {
                        let name = m[i].0.clone();
                        let value = m[i].1.duplicate();
                        kept.push((name, value));
                    }
                    i += 1;
                }
                assert(members.take(m.len() as int) =~= members);
            },
            _ => {
                assert(unnamed(self@.members(), skipped) =~= Seq::empty()) by {
                    reveal(Seq::filter);
                }
            },
        }
        let r = Json::Object(kept);
        assert(r@->Object_0 =~= unnamed(self@.members(), skipped));
        r
    }

    /// A copy of the document.
    pub fn duplicate(&self) -> (r: Json)
        ensures
            r@ == self@,
        decreases self,
    {
        match self {
            Json::Null => Json::Null,
            Json::Bool(b) => Json::Bool(*b),
            Json::Number(t) => Json::Number(t.clone()),
            Json::Text(t) => Json::Text(t.clone()),
            Json::Array(items) => {
                let mut copy: Vec<Json> = Vec::new();
                let mut i: usize = 0;
                while i < items.len()
                    invariant
                        i <= items.len(),
                        copy.len() == i,
                        forall|j: int| 0 <= j < i ==> (#[trigger] copy@[j])@ == items@[j]@,
                        *self == Json::Array(*items),
                    decreases items.len() - i,
                {
                    assert(self is Array && self->Array_0 == *items);
                    assert(decreases_to!(*items => items[i as int]));
                    let item = items[i].duplicate();
                    copy.push(item);
                    i += 1;
                }
                assert(Json::Array(copy)@->Array_0 =~= self@->Array_0);
                Json::Array(copy)
            },
            Json::Object(members) => {
                let mut copy: Vec<(String, Json)> = Vec::new();
                let mut i: usize = 0;
                while i < members.len()
                    invariant
                        i <= members.len(),
                        copy.len() == i,
                        forall|j: int|
                            0 <= j < i ==> (#[trigger] copy@[j]).0@ == members@[j].0@ && copy@[j].1@
                                == members@[j].1@,
                        *self == Json::Object(*members),
                    decreases members.len() - i,
                {
                    assert(self is Object && self->Object_0 == *members);
                    assert(decreases_to!(*members => members[i as int]));
                    let name = members[i].0.clone();
                    let value = members[i].1.duplicate();
                    copy.push((name, value));
                    i += 1;
                }
                assert(Json::Object(copy)@->Object_0 =~= self@->Object_0);
                Json::Object(copy)
            },
        }
    }
}

/// The first member named `key` is found at one place only.
pub proof fn lemma_first_named_is(members: Seq<(Seq<char>, JsonValue)>, key: Seq<char>, i: int)
    requires
        is_first_named(members, key, i),
    ensures
        first_named(members, key) == Some(members[i].1),
{
    let k = choose|k: int| is_first_named(members, key, k);
    if k < i {
        assert(members[k].0 != key);
    } else if i < k {
        assert(members[i].0 != key);
    }
}

#[verifier::external_type_specification]
#[verifier::external_body]
pub struct ExJsonValue(serde_json::Value);

#[verifier::external_type_specification]
#[verifier::external_body]
pub struct ExJsonError(serde_json::Error);

/// The document that `serde_json` reads from the given bytes, if it reads one.
pub uninterp spec fn parsed_document(bytes: Seq<u8>) -> Option<JsonValue>;

/// Moves a `serde_json::Value` into a `Json`, variant by variant. A number
/// is handed over as the text that `serde_json` prints for it, and an
/// object's members in the order in which its map hands them out.
#[verifier::external_body]
fn json_from_value(value: serde_json::Value) -> Json {
    match value {
        serde_json::Value::Null => Json::Null,
        serde_json::Value::Bool(b) => Json::Bool(b),
        serde_json::Value::Number(n) => Json::Number(n.to_string()),
        serde_json::Value::String(s) => Json::Text(s),
        serde_json::Value::Array(a) => Json::Array(a.into_iter().map(json_from_value).collect()),
        serde_json::Value::Object(m) => Json::Object(
            m.into_iter().map(|(k, v)| (k, json_from_value(v))).collect(),
        ),
    }
}

/// Calls `serde_json::from_slice` for a `serde_json::Value`. The contract
/// claims that the outcome depends on the bytes alone, and gives it the name
/// `parsed_document`; it says nothing of which bytes are JSON.
#[verifier::external_body]
fn read_document(bytes: &[u8]) -> (r: Result<Json, serde_json::Error>)
    ensures
        r is Ok <==> parsed_document(bytes@) is Some,
        r matches Ok(j) ==> parsed_document(bytes@) == Some(j@),
{
    match serde_json::from_slice::<serde_json::Value>(bytes) {
        Ok(v) => Ok(json_from_value(v)),
        Err(e) => Err(e),
    }
}

/// The JSON string, between its quotes and with its escapes, that
/// `serde_json` writes for a text, if it writes one.
pub uninterp spec fn quoted_text(text: Seq<char>) -> Option<Seq<char>>;

/// Calls `serde_json::to_string` on a text. The contract claims that the
/// outcome depends on the text alone.
#[verifier::external_body]
fn write_quoted(text: &str) -> (r: Result<String, serde_json::Error>)
    ensures
        r is Ok <==> quoted_text(text@) is Some,
        r matches Ok(q) ==> quoted_text(text@) == Some(q@),
{
    serde_json::to_string(text)
}

/// The JSON string for a text, between its quotes and with its escapes.
pub fn quote(text: &str) -> (r: Option<String>)
    ensures
        r is Some <==> quoted_text(text@) is Some,
        r matches Some(q) ==> quoted_text(text@) == Some(q@),
{
    match write_quoted(text) {
        Ok(q) => Some(q),
        Err(_) => None,
    }
}

/// Reads a JSON document from `bytes`.
pub fn parse_json(bytes: &[u8]) -> (r: Option<Json>)
    ensures
        r is Some <==> parsed_document(bytes@) is Some,
        r matches Some(j) ==> parsed_document(bytes@) == Some(j@),
{
    match read_document(bytes) {
        Ok(j) => Some(j),
        Err(_) => None,
    }
}

} // verus!
