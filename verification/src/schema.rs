//! The vocabulary of the two wire protocols: member names, and the reading of
//! one member of a JSON object.
//!
//! Both the caller-facing envelope and the worker's records are JSON objects
//! with camelCase member names. The names are kept in one place, [`Key`], so
//! that writing and reading a member cannot disagree on how it is spelled.
use crate::json::{Json, JsonView};
use vstd::prelude::*;

verus! {

/// A member name of the wire protocols.
#[derive(Clone, Copy, Debug, PartialEq, Eq, Structural)]
pub enum Key {
    Protocol,
    Status,
    ExecutionId,
    Stream,
    Level,
    Group,
    Message,
    Data,
    Timestamp,
    Qualified,
    Title,
    Link,
    SubChecks,
    Description,
    Error,
    Kind,
}

impl Key {
    /// The name as it stands in a document.
    pub open spec fn name(self) -> Seq<char> {
        match self {
            Key::Protocol => "protocol"@,
            Key::Status => "status"@,
            Key::ExecutionId => "executionId"@,
            Key::Stream => "stream"@,
            Key::Level => "level"@,
            Key::Group => "group"@,
            Key::Message => "message"@,
            Key::Data => "data"@,
            Key::Timestamp => "timestamp"@,
            Key::Qualified => "qualified"@,
            Key::Title => "title"@,
            Key::Link => "link"@,
            Key::SubChecks => "subChecks"@,
            Key::Description => "description"@,
            Key::Error => "error"@,
            Key::Kind => "kind"@,
        }
    }

    /// The name as it stands in a document.
    pub fn as_str(self) -> (name: &'static str)
        ensures
            name@ == self.name(),
    {
        match self {
            Key::Protocol => "protocol",
            Key::Status => "status",
            Key::ExecutionId => "executionId",
            Key::Stream => "stream",
            Key::Level => "level",
            Key::Group => "group",
            Key::Message => "message",
            Key::Data => "data",
            Key::Timestamp => "timestamp",
            Key::Qualified => "qualified",
            Key::Title => "title",
            Key::Link => "link",
            Key::SubChecks => "subChecks",
            Key::Description => "description",
            Key::Error => "error",
            Key::Kind => "kind",
        }
    }

    /// Length, first and third character of a name: enough to tell any two
    /// names apart.
    spec fn mark(self) -> (nat, char, char) {
        (self.name().len(), self.name()[0], self.name()[2])
    }

    proof fn lemma_mark(self)
        ensures
            self.mark() == match self {
                Key::Protocol => (8nat, 'p', 'o'),
                Key::Status => (6nat, 's', 'a'),
                Key::ExecutionId => (11nat, 'e', 'e'),
                Key::Stream => (6nat, 's', 'r'),
                Key::Level => (5nat, 'l', 'v'),
                Key::Group => (5nat, 'g', 'o'),
                Key::Message => (7nat, 'm', 's'),
                Key::Data => (4nat, 'd', 't'),
                Key::Timestamp => (9nat, 't', 'm'),
                Key::Qualified => (9nat, 'q', 'a'),
                Key::Title => (5nat, 't', 't'),
                Key::Link => (4nat, 'l', 'n'),
                Key::SubChecks => (9nat, 's', 'b'),
                Key::Description => (11nat, 'd', 's'),
                Key::Error => (5nat, 'e', 'r'),
                Key::Kind => (4nat, 'k', 'n'),
            },
    {
        reveal_strlit("protocol");
        reveal_strlit("status");
        reveal_strlit("executionId");
        reveal_strlit("stream");
        reveal_strlit("level");
        reveal_strlit("group");
        reveal_strlit("message");
        reveal_strlit("data");
        reveal_strlit("timestamp");
        reveal_strlit("qualified");
        reveal_strlit("title");
        reveal_strlit("link");
        reveal_strlit("subChecks");
        reveal_strlit("description");
        reveal_strlit("error");
        reveal_strlit("kind");
    }

    /// Two different keys have different names.
    pub proof fn lemma_names_differ(self, other: Key)
        ensures
            self != other ==> self.name() != other.name(),
    {
        self.lemma_mark();
        other.lemma_mark();
    }
}

/// Why a document does not fit a schema.
#[derive(Clone, Copy, Debug, PartialEq, Eq, Structural)]
pub enum SchemaError {
    /// The document is not an object.
    NotAnObject,
    /// The object has no member of this name, and the schema requires one.
    Missing(Key),
    /// The member of this name holds a value that the schema does not allow
    /// there.
    Invalid(Key),
}

/// The members that pair each of `keys` with the value at the same place in
/// `values`.
pub open spec fn keyed(keys: Seq<Key>, values: Seq<JsonView>) -> Seq<(Seq<char>, JsonView)> {
    Seq::new(keys.len(), |i: int| (keys[i].name(), values[i]))
}

/// No key occurs twice in `keys`.
pub open spec fn distinct(keys: Seq<Key>) -> bool {
    forall|i: int, j: int| 0 <= i < j < keys.len() ==> keys[i] != keys[j]
}

/// An object written with distinct keys gives each key the value written
/// beside it.
pub proof fn lemma_member_of_keyed(keys: Seq<Key>, values: Seq<JsonView>, i: int)
    requires
        keys.len() == values.len(),
        distinct(keys),
        0 <= i < keys.len(),
    ensures
        JsonView::Object(keyed(keys, values)).member(keys[i].name()) == Some(values[i]),
    decreases keys.len(),
{
    let members = keyed(keys, values);
    if i == keys.len() - 1 {
    } else {
        keys.last().lemma_names_differ(keys[i]);
        assert(keyed(keys.drop_last(), values.drop_last()) =~= members.drop_last());
        lemma_member_of_keyed(keys.drop_last(), values.drop_last(), i);
    }
}

/// An object written with distinct keys gives every key the value written
/// beside it.
pub proof fn lemma_members_of_keyed(keys: Seq<Key>, values: Seq<JsonView>)
    requires
        keys.len() == values.len(),
        distinct(keys),
    ensures
        forall|i: int|
            0 <= i < keys.len() ==> JsonView::Object(keyed(keys, values)).member(
                (#[trigger] keys[i]).name(),
            ) == Some(values[i]),
{
    assert forall|i: int| 0 <= i < keys.len() implies JsonView::Object(keyed(keys, values)).member(
        (#[trigger] keys[i]).name(),
    ) == Some(values[i]) by {
        lemma_member_of_keyed(keys, values, i);
    }
}

/// The string that `doc` must hold under `key`.
pub open spec fn required_text(doc: JsonView, key: Key) -> Result<Seq<char>, SchemaError> {
    match doc.member(key.name()) {
        None => Err(SchemaError::Missing(key)),
        Some(JsonView::Text(s)) => Ok(s),
        Some(_) => Err(SchemaError::Invalid(key)),
    }
}

/// The string that `doc` may hold under `key`: a missing member and `null`
/// both stand for none.
pub open spec fn optional_text(doc: JsonView, key: Key) -> Result<Option<Seq<char>>, SchemaError> {
    match doc.member(key.name()) {
        None => Ok(None),
        Some(JsonView::Null) => Ok(None),
        Some(JsonView::Text(s)) => Ok(Some(s)),
        Some(_) => Err(SchemaError::Invalid(key)),
    }
}

/// The string that `doc` holds under `key`, or the empty string where the
/// member is missing.
pub open spec fn defaulted_text(doc: JsonView, key: Key) -> Result<Seq<char>, SchemaError> {
    match doc.member(key.name()) {
        None => Ok(Seq::empty()),
        Some(JsonView::Text(s)) => Ok(s),
        Some(_) => Err(SchemaError::Invalid(key)),
    }
}

/// The boolean that `doc` must hold under `key`.
pub open spec fn required_flag(doc: JsonView, key: Key) -> Result<bool, SchemaError> {
    match doc.member(key.name()) {
        None => Err(SchemaError::Missing(key)),
        Some(JsonView::Bool(b)) => Ok(b),
        Some(_) => Err(SchemaError::Invalid(key)),
    }
}

/// The value, of any shape, that `doc` may hold under `key`: a missing member
/// and `null` both stand for none.
pub open spec fn optional_value(doc: JsonView, key: Key) -> Option<JsonView> {
    match doc.member(key.name()) {
        None => None,
        Some(JsonView::Null) => None,
        Some(value) => Some(value),
    }
}

/// Reads the string that `doc` must hold under `key`.
pub fn read_required_text(doc: &Json, key: Key) -> (r: Result<String, SchemaError>)
    ensures
        match r {
            Ok(s) => required_text(doc@, key) == Ok::<Seq<char>, SchemaError>(s@),
            Err(e) => required_text(doc@, key) == Err::<Seq<char>, SchemaError>(e),
        },
{
    match doc.get(key.as_str()) {
        None => Err(SchemaError::Missing(key)),
        Some(value) => match value.as_text() {
            Some(s) => Ok(s.clone()),
            None => Err(SchemaError::Invalid(key)),
        },
    }
}

/// Reads the string that `doc` may hold under `key`.
pub fn read_optional_text(doc: &Json, key: Key) -> (r: Result<Option<String>, SchemaError>)
    ensures
        match r {
            Ok(s) => optional_text(doc@, key) == Ok::<Option<Seq<char>>, SchemaError>(
                s.deep_view(),
            ),
            Err(e) => optional_text(doc@, key) == Err::<Option<Seq<char>>, SchemaError>(e),
        },
{
    match doc.get(key.as_str()) {
        None => Ok(None),
        Some(value) => if value.is_null() {
            Ok(None)
        } else {
            match value.as_text() {
                Some(s) => Ok(Some(s.clone())),
                None => Err(SchemaError::Invalid(key)),
            }
        },
    }
}

/// Reads the string that `doc` holds under `key`, empty where the member is
/// missing.
pub fn read_defaulted_text(doc: &Json, key: Key) -> (r: Result<String, SchemaError>)
    ensures
        match r {
            Ok(s) => defaulted_text(doc@, key) == Ok::<Seq<char>, SchemaError>(s@),
            Err(e) => defaulted_text(doc@, key) == Err::<Seq<char>, SchemaError>(e),
        },
{
    match doc.get(key.as_str()) {
        None => Ok(String::new()),
        Some(value) => match value.as_text() {
            Some(s) => Ok(s.clone()),
            None => Err(SchemaError::Invalid(key)),
        },
    }
}

/// Reads the boolean that `doc` must hold under `key`.
pub fn read_required_flag(doc: &Json, key: Key) -> (r: Result<bool, SchemaError>)
    ensures
        r == required_flag(doc@, key),
{
    match doc.get(key.as_str()) {
        None => Err(SchemaError::Missing(key)),
        Some(value) => match value.as_bool() {
            Some(b) => Ok(b),
            None => Err(SchemaError::Invalid(key)),
        },
    }
}

/// Reads the value that `doc` may hold under `key`.
pub fn read_optional_value(doc: &Json, key: Key) -> (r: Option<Json>)
    ensures
        r.deep_view() == optional_value(doc@, key),
{
    match doc.get(key.as_str()) {
        None => None,
        Some(value) => if value.is_null() {
            None
        } else {
            Some(value.copy())
        },
    }
}

} // verus!
