//! JSON documents: the values the pipeline reads replies as.

use vstd::prelude::*;

verus! {

/// A JSON document as a mathematical value. An object is the sequence of its
/// members, each a name and a value.
pub enum JsonValue {
    Null,
    Bool(bool),
    Number(Seq<char>),
    Text(Seq<char>),
    Array(Seq<JsonValue>),
    Object(Seq<(Seq<char>, JsonValue)>),
}

/// One member of a JSON object.
#[derive(Debug, PartialEq, Eq)]
pub struct Member {
    pub name: String,
    pub value: Json,
}

/// A JSON document held in memory. A number is kept as its decimal text.
#[derive(Debug, PartialEq, Eq)]
pub enum Json {
    Null,
    Bool(bool),
    Number(String),
    Text(String),
    Array(Vec<Json>),
    Object(Vec<Member>),
}

impl Json {
    /// The document that `self` holds.
    pub open spec fn value(&self) -> JsonValue
        decreases self,
    {
        match self {
            Json::Null => JsonValue::Null,
            Json::Bool(b) => JsonValue::Bool(*b),
            Json::Number(digits) => JsonValue::Number(digits@),
            Json::Text(text) => JsonValue::Text(text@),
            Json::Array(items) => JsonValue::Array(
                Seq::new(
                    items@.len(),
                    |i: int|
                        if 0 <= i < items@.len() {
                            items@[i].value()
                        } else {
                            JsonValue::Null
                        },
                ),
            ),
            Json::Object(members) => JsonValue::Object(
                Seq::new(
                    members@.len(),
                    |i: int|
                        if 0 <= i < members@.len() {
                            (members@[i].name@, members@[i].value.value())
                        } else {
                            (Seq::empty(), JsonValue::Null)
                        },
                ),
            ),
        }
    }
}

impl View for Json {
    type V = JsonValue;

    open spec fn view(&self) -> JsonValue {
        self.value()
    }
}

impl JsonValue {
    /// The value of the first member called `name` among `members[from..]`.
    pub open spec fn member_from(
        members: Seq<(Seq<char>, JsonValue)>,
        name: Seq<char>,
        from: int,
    ) -> Option<JsonValue>
        decreases members.len() - from,
    {
        if from < 0 || from >= members.len() {
            None
        } else if members[from].0 == name {
            Some(members[from].1)
        } else {
            Self::member_from(members, name, from + 1)
        }
    }

    /// The value of the member called `name`, where `self` is an object that
    /// has one.
    pub open spec fn get(self, name: Seq<char>) -> Option<JsonValue> {
        match self {
            JsonValue::Object(members) => Self::member_from(members, name, 0),
            _ => None,
        }
    }

    /// The items, where `self` is an array.
    pub open spec fn items(self) -> Option<Seq<JsonValue>> {
        match self {
            JsonValue::Array(items) => Some(items),
            _ => None,
        }
    }
}

/// Where no member of `members[from..at]` is called `name` and the one at `at`
/// is, the search from `from` finds the value at `at`.
pub proof fn lemma_member_found(
    members: Seq<(Seq<char>, JsonValue)>,
    name: Seq<char>,
    from: int,
    at: int,
)
    requires
        0 <= from <= at < members.len(),
        members[at].0 == name,
        forall|k: int| from <= k < at ==> members[k].0 != name,
    ensures
        JsonValue::member_from(members, name, from) == Some(members[at].1),
    decreases at - from,
{
    if from < at {
        lemma_member_found(members, name, from + 1, at);
    }
}

impl Json {
    /// The member called `name` of an object; `None` for any other value and
    /// for an object without such a member.
    pub fn get(&self, name: &str) -> (found: Option<&Json>)
        ensures
            match found {
                Some(value) => self@.get(name@) == Some(value@),
                None => self@.get(name@) is None,
            },
    {
        match self {
            Json::Object(members) => {
                let wanted = String::from_str(name);
                let ghost pairs = self@->Object_0;
                assert(pairs =~= Seq::new(
                    members@.len(),
                    |k: int| (members@[k].name@, members@[k].value@),
                ));
                let mut i: usize = 0;
                while i < members.len()
                    invariant
                        i <= members.len(),
                        wanted@ == name@,
                        self@ == JsonValue::Object(pairs),
                        pairs.len() == members@.len(),
                        forall|k: int|
                            0 <= k < members@.len() ==> pairs[k] == (
                                members@[k].name@,
                                members@[k].value@,
                            ),
                        JsonValue::member_from(pairs, name@, 0) == JsonValue::member_from(
                            pairs,
                            name@,
                            i as int,
                        ),
                    decreases members.len() - i,
                {
                    if members[i].name == wanted {
                        return Some(&members[i].value);
                    }
                    i += 1;
                }
                None
            },
            _ => None,
        }
    }

    /// The items of an array; `None` for any other value.
    pub fn items(&self) -> (found: Option<&Vec<Json>>)
        ensures
            match found {
                Some(items) => self@.items() == Some(items@.map_values(|item: Json| item@)),
                None => self@.items() is None,
            },
    {
        match self {
            Json::Array(items) => {
                assert(self@->Array_0 =~= items@.map_values(|item: Json| item@));
                Some(items)
            },
            _ => None,
        }
    }
}

/// The type `serde_json::Value`: a parsed document as the parser holds it.
#[verifier::external_type_specification]
#[verifier::external_body]
pub struct ExParsedTree(serde_json::Value);

/// What `serde_json::from_slice` makes of a text when asked for a
/// `serde_json::Value`: the document, or `None` where the text is refused.
pub uninterp spec fn json_document(text: Seq<u8>) -> Option<JsonValue>;

/// Moves a `serde_json::Value` into a `Json`, variant by variant. A number
/// becomes the text that `serde_json::Number` displays, an object the members
/// in the order in which `serde_json::Map` yields them.
#[verifier::external_body]
fn lift(tree: serde_json::Value) -> Json {
    match tree {
        serde_json::Value::Null => Json::Null,
        serde_json::Value::Bool(b) => Json::Bool(b),
        serde_json::Value::Number(n) => Json::Number(n.to_string()),
        serde_json::Value::String(s) => Json::Text(s),
        serde_json::Value::Array(items) => Json::Array(items.into_iter().map(lift).collect()),
        serde_json::Value::Object(map) => Json::Object(
            map.into_iter().map(|(name, value)| Member { name, value: lift(value) }).collect(),
        ),
    }
}

/// Calls `serde_json::from_slice` for a `serde_json::Value`. The result is a
/// function of the text alone; the contract gives it the name `json_document`
/// and claims nothing else of it.
#[verifier::external_body]
fn from_slice(text: &[u8]) -> (doc: Option<Json>)
    ensures
        match doc {
            Some(d) => json_document(text@) == Some(d@),
            None => json_document(text@) is None,
        },
{
    serde_json::from_slice::<serde_json::Value>(text).ok().map(lift)
}

impl Json {
    /// Reads a JSON text.
    pub fn parse(text: &[u8]) -> (doc: Option<Json>)
        ensures
            match doc {
                Some(d) => json_document(text@) == Some(d@),
                None => json_document(text@) is None,
            },
    {
        from_slice(text)
    }
}

} // verus!
