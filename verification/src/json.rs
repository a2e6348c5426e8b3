//! JSON documents: the library's own document type, its mathematical value,
//! and the lookups that the price extractor needs.

use vstd::prelude::*;

verus! {

/// The mathematical value of a JSON document.
pub enum JsonValue {
    Null,
    Bool(bool),
    /// A number, held as its decimal text.
    Number(Seq<char>),
    Text(Seq<char>),
    Array(Seq<JsonValue>),
    /// An object: the names of its members in order, and their values in the
    /// same order.
    Object { names: Seq<Seq<char>>, values: Seq<JsonValue> },
}

/// A JSON document.
#[derive(Debug, PartialEq, Eq)]
pub enum Json {
    Null,
    Bool(bool),
    /// A number, held as its decimal text.
    Number(String),
    Text(String),
    Array(Vec<Json>),
    /// An object: its members in order.
    Object(Vec<Member>),
}

/// One member of a JSON object.
#[derive(Debug, PartialEq, Eq)]
pub struct Member {
    pub name: String,
    pub value: Json,
}

impl View for Json {
    type V = JsonValue;

    open spec fn view(&self) -> JsonValue
        decreases self,
    {
        match self {
            Json::Null => JsonValue::Null,
            Json::Bool(b) => JsonValue::Bool(*b),
            Json::Number(digits) => JsonValue::Number(digits@),
            Json::Text(text) => JsonValue::Text(text@),
            Json::Array(items) => JsonValue::Array(
                Seq::new(
                    items@.len(),
                    |i: int|
                        if 0 <= i < items@.len() {
                            items@[i]@
                        } else {
                            JsonValue::Null
                        },
                ),
            ),
            Json::Object(members) => JsonValue::Object {
                names: Seq::new(members@.len(), |i: int| members@[i].name@),
                values: Seq::new(
                    members@.len(),
                    |i: int|
                        if 0 <= i < members@.len() {
                            members@[i].value@
                        } else {
                            JsonValue::Null
                        },
                ),
            },
        }
    }
}

/// The index of the first of `names` that equals `name`, if any does.
pub open spec fn first_index_of(names: Seq<Seq<char>>, name: Seq<char>) -> Option<int>
    decreases names.len(),
{
    if names.len() == 0 {
        None
    } else if names[0] == name {
        Some(0)
    } else {
        match first_index_of(names.drop_first(), name) {
            Some(i) => Some(i + 1),
            None => None,
        }
    }
}

impl JsonValue {
    /// The value that an object holds under `name`: that of its first member
    /// of that name. A document that is no object holds nothing under any
    /// name.
    pub open spec fn member(self, name: Seq<char>) -> Option<JsonValue> {
        match self {
            JsonValue::Object { names, values } => match first_index_of(names, name) {
                Some(i) => Some(values[i]),
                None => None,
            },
            _ => None,
        }
    }

    /// The text of a string; none for any other kind of document.
    pub open spec fn text(self) -> Option<Seq<char>> {
        match self {
            JsonValue::Text(text) => Some(text),
            _ => None,
        }
    }
}

/// What a search for `name` finds once the first `k` names are known to
/// differ from it: the name at `k` if that is `name`, and nothing if `k` is
/// the end.
pub proof fn lemma_first_index_after(names: Seq<Seq<char>>, name: Seq<char>, k: int)
    requires
        0 <= k <= names.len(),
        forall|j: int| 0 <= j < k ==> #[trigger] names[j] != name,
    ensures
        k == names.len() ==> first_index_of(names, name) is None,
        k < names.len() && names[k] == name ==> first_index_of(names, name) == Some(k),
    decreases k,
{
    if k > 0 {
        let rest = names.drop_first();
        assert(names[0] != name);
        assert forall|j: int| 0 <= j < k - 1 implies #[trigger] rest[j] != name by {
            assert(rest[j] == names[j + 1]);
        }
        lemma_first_index_after(rest, name, k - 1);
    }
}

impl Json {
    /// Looks up the value that an object holds under `name`.
    pub fn get(&self, name: &str) -> (found: Option<&Json>)
        ensures
            match found {
                Some(value) => self@.member(name@) == Some(value@),
                None => self@.member(name@) is None,
            },
    {
        match self {
            Json::Object(members) => {
                let wanted = name.to_owned();
                let ghost names = self@->names;
                let ghost values = self@->values;
                let mut i: usize = 0;
                while i < members.len()
                    invariant
                        i <= members.len(),
                        wanted@ == name@,
                        self@ == (JsonValue::Object { names, values }),
                        names.len() == members.len(),
                        forall|j: int| 0 <= j < members.len() ==> #[trigger] values[j] == members[j].value@,
                        forall|j: int| 0 <= j < members.len() ==> #[trigger] names[j] == members[j].name@,
                        forall|j: int| 0 <= j < i ==> #[trigger] names[j] != name@,
                    decreases members.len() - i,
                {
                    if members[i].name == wanted {
                        proof {
                            lemma_first_index_after(names, name@, i as int);
                        }
                        return Some(&members[i].value);
                    }
                    i = i + 1;
                }
                proof {
                    lemma_first_index_after(names, name@, i as int);
                }
                None
            },
            _ => None,
        }
    }

    /// The text of a string; none for any other kind of document.
    pub fn as_str(&self) -> (text: Option<&str>)
        ensures
            match text {
                Some(t) => self@.text() == Some(t@),
                None => self@.text() is None,
            },
    {
        match self {
            Json::Text(text) => Some(text.as_str()),
            _ => None,
        }
    }
}

} // verus!
