//! JSON documents as plain trees.
//!
//! Every frame that crosses the bridge is one JSON document. The wire schemas
//! of this crate are written against [`Json`], a tree whose strings, lists and
//! objects are ordinary `String`s and `Vec`s, so that building and inspecting a
//! document is verified code. Turning text into a tree and a tree into text is
//! left to `serde_json`.
use vstd::prelude::*;
use vstd::string::StringExecFns;

verus! {

/// `serde_json::Number`, a JSON number. Nothing is known of what one holds.
#[verifier::external_type_specification]
#[verifier::external_body]
pub struct ExNumber(serde_json::Number);

/// `serde_json::Value`, a JSON document as `serde_json` holds it. It is
/// named only where a document passes between `serde_json` and a [`Json`].
#[verifier::external_type_specification]
#[verifier::external_body]
pub struct ExValue(serde_json::Value);

/// A JSON document.
///
/// Numbers are kept as `serde_json` read them: nothing in this crate looks
/// inside one, they are only carried from one document to the next. An object
/// is the list of its members in document order.
#[derive(Debug, PartialEq, Eq)]
pub enum Json {
    Null,
    Bool(bool),
    Number(serde_json::Number),
    Text(String),
    List(Vec<Json>),
    Object(Vec<(String, Json)>),
}

/// [`Json`] as the mathematical value that contracts speak of.
pub enum JsonView {
    Null,
    Bool(bool),
    Number(serde_json::Number),
    Text(Seq<char>),
    List(Seq<JsonView>),
    Object(Seq<(Seq<char>, JsonView)>),
}

impl View for Json {
    type V = JsonView;

    open spec fn view(&self) -> JsonView
        decreases self,
    {
        match self {
            Json::Null => JsonView::Null,
            Json::Bool(b) => JsonView::Bool(*b),
            Json::Number(n) => JsonView::Number(*n),
            Json::Text(s) => JsonView::Text(s@),
            Json::List(items) => JsonView::List(
                Seq::new(
                    items.len() as nat,
                    |i: int|
                        if 0 <= i < items.len() {
                            items[i]@
                        } else {
                            JsonView::Null
                        },
                ),
            ),
            Json::Object(members) => JsonView::Object(
                Seq::new(
                    members.len() as nat,
                    |i: int|
                        if 0 <= i < members.len() {
                            (members[i].0@, members[i].1@)
                        } else {
                            (Seq::empty(), JsonView::Null)
                        },
                ),
            ),
        }
    }
}

impl DeepView for Json {
    type V = JsonView;

    open spec fn deep_view(&self) -> JsonView {
        self@
    }
}

/// The value that `members` gives to `key`: that of the last member with this
/// name, as in a `serde_json` object, where a later member replaces an earlier
/// one of the same name.
pub open spec fn lookup(members: Seq<(Seq<char>, JsonView)>, key: Seq<char>) -> Option<JsonView>
    decreases members.len(),
{
    if members.len() == 0 {
        None
    } else if members.last().0 == key {
        Some(members.last().1)
    } else {
        lookup(members.drop_last(), key)
    }
}

impl JsonView {
    /// The member `key` of an object; `None` for a document that is no object
    /// or has no such member.
    pub open spec fn member(self, key: Seq<char>) -> Option<JsonView> {
        match self {
            JsonView::Object(members) => lookup(members, key),
            _ => None,
        }
    }

    /// The characters of a string document.
    pub open spec fn text(self) -> Option<Seq<char>> {
        match self {
            JsonView::Text(s) => Some(s),
            _ => None,
        }
    }

    /// The truth value of a boolean document.
    pub open spec fn flag(self) -> Option<bool> {
        match self {
            JsonView::Bool(b) => Some(b),
            _ => None,
        }
    }

    /// The elements of a list document.
    pub open spec fn items(self) -> Option<Seq<JsonView>> {
        match self {
            JsonView::List(items) => Some(items),
            _ => None,
        }
    }
}

/// What `serde_json::from_slice` makes of `bytes`: the document it reads, or
/// the description of the error it reports.
pub uninterp spec fn parsed(bytes: Seq<u8>) -> Result<JsonView, Seq<char>>;

/// The compact text that `serde_json` writes for `doc`.
pub uninterp spec fn rendered(doc: JsonView) -> Seq<char>;

/// The JSON number that `serde_json` holds for the integer `n`.
pub uninterp spec fn unsigned(n: u64) -> serde_json::Number;

/// `Clone::clone` of `serde_json::Number`, which the type derives: the copy
/// equals the original.
pub assume_specification[ <serde_json::Number as Clone>::clone ](n: &serde_json::Number) -> (r:
    serde_json::Number)
    ensures
        r == *n,
;

/// `serde_json::Number::from` for a `u64`: the number that stands for `n`.
#[verifier::external_body]
fn number_of(n: u64) -> (r: serde_json::Number)
    ensures
        r == unsigned(n),
{
    serde_json::Number::from(n)
}

/// Moves a `serde_json::Value` into a [`Json`] tree, variant for variant; the
/// members of an object keep the order in which `serde_json` hands them out.
#[verifier::external_body]
fn tree_of(value: serde_json::Value) -> Json {
    match value {
        serde_json::Value::Null => Json::Null,
        serde_json::Value::Bool(b) => Json::Bool(b),
        serde_json::Value::Number(n) => Json::Number(n),
        serde_json::Value::String(s) => Json::Text(s),
        serde_json::Value::Array(items) => Json::List(items.into_iter().map(tree_of).collect()),
        serde_json::Value::Object(members) => Json::Object(
            members.into_iter().map(|(k, v)| (k, tree_of(v))).collect(),
        ),
    }
}

/// Copies a [`Json`] tree into a `serde_json::Value`, variant for variant; the
/// members of an object are inserted in document order.
#[verifier::external_body]
fn value_of(doc: &Json) -> serde_json::Value {
    match doc {
        Json::Null => serde_json::Value::Null,
        Json::Bool(b) => serde_json::Value::Bool(*b),
        Json::Number(n) => serde_json::Value::Number(n.clone()),
        Json::Text(s) => serde_json::Value::String(s.clone()),
        Json::List(items) => serde_json::Value::Array(items.iter().map(value_of).collect()),
        Json::Object(members) => serde_json::Value::Object(
            members.iter().map(|(k, v)| (k.clone(), value_of(v))).collect(),
        ),
    }
}

/// `serde_json::from_slice` at `serde_json::Value`: reads one JSON document
/// from `bytes`. The result is a function of the bytes alone; this contract
/// gives it the name [`parsed`] and claims nothing else of it.
#[verifier::external_body]
pub(crate) fn parse(bytes: &[u8]) -> (r: Result<Json, String>)
    ensures
        match r {
            Ok(doc) => parsed(bytes@) == Ok::<JsonView, Seq<char>>(doc@),
            Err(why) => parsed(bytes@) == Err::<JsonView, Seq<char>>(why@),
        },
{
    match serde_json::from_slice::<serde_json::Value>(bytes) {
        Ok(value) => Ok(tree_of(value)),
        Err(err) => Err(err.to_string()),
    }
}

/// `ToString::to_string` of `serde_json::Value`, whose `Display` writes a value
/// in compact form. The result is a function of the document alone; this
/// contract gives it the name [`rendered`] and claims nothing else of it.
#[verifier::external_body]
pub(crate) fn render(doc: &Json) -> (text: String)
    ensures
        text@ == rendered(doc@),
{
    value_of(doc).to_string()
}

/// The view of a list is the list of its elements' views.
pub proof fn lemma_list_view(items: Vec<Json>)
    ensures
        Json::List(items)@ == JsonView::List(items.deep_view()),
{
    reveal_with_fuel(<Json as View>::view, 2);
    assert(Json::List(items)@->List_0 =~= items.deep_view());
}

/// The view of an object is the list of its members' names and views.
pub proof fn lemma_object_view(members: Vec<(String, Json)>)
    ensures
        Json::Object(members)@ == JsonView::Object(members.deep_view()),
{
    reveal_with_fuel(<Json as View>::view, 2);
    assert(Json::Object(members)@->Object_0 =~= members.deep_view());
}

impl Json {
    /// The string document that holds `s`.
    pub fn text(s: &str) -> (doc: Json)
        ensures
            doc@ == JsonView::Text(s@),
    {
        Json::Text(String::from_str(s))
    }

    /// The number document that holds `n`.
    pub fn unsigned(n: u64) -> (doc: Json)
        ensures
            doc@ == JsonView::Number(unsigned(n)),
    {
        Json::Number(number_of(n))
    }

    /// The string document that holds `s`, or `null` where there is none.
    pub fn optional_text(s: &Option<String>) -> (doc: Json)
        ensures
            doc@ == match s {
                Some(s) => JsonView::Text(s@),
                None => JsonView::Null,
            },
    {
        match s {
            Some(s) => Json::Text(s.clone()),
            None => Json::Null,
        }
    }

    /// The member `key` of this object.
    pub fn get(&self, key: &str) -> (found: Option<&Json>)
        ensures
            match found {
                Some(value) => self@.member(key@) == Some(value@),
                None => self@.member(key@) is None,
            },
    {
        match self {
            Json::Object(members) => {
                let wanted = String::from_str(key);
                let ghost all = members.deep_view();
                proof {
                    lemma_object_view(*members);
                }
                let mut i: usize = members.len();
                assert(all.take(i as int) =~= all);
                while i > 0
                    invariant
                        i <= members.len(),
                        wanted@ == key@,
                        all == members.deep_view(),
                        self@.member(key@) == lookup(all, key@),
                        lookup(all, key@) == lookup(all.take(i as int), key@),
                    decreases i,
                {
                    i -= 1;
                    proof {
                        let upto = all.take(i + 1);
                        assert(upto.last() == all[i as int]);
                        assert(upto.drop_last() == all.take(i as int));
                    }
                    if members[i].0 == wanted {
                        return Some(&members[i].1);
                    }
                }
                proof {
                    assert(all.take(0).len() == 0);
                }
                None
            },
            _ => None,
        }
    }

    /// The characters of this document, where it is a string.
    pub fn as_text(&self) -> (found: Option<&String>)
        ensures
            match found {
                Some(s) => self@.text() == Some(s@),
                None => self@.text() is None,
            },
    {
        match self {
            Json::Text(s) => Some(s),
            _ => None,
        }
    }

    /// The truth value of this document, where it is a boolean.
    pub fn as_bool(&self) -> (found: Option<bool>)
        ensures
            found == self@.flag(),
    {
        match self {
            Json::Bool(b) => Some(*b),
            _ => None,
        }
    }

    /// The elements of this document, where it is a list.
    pub fn as_list(&self) -> (found: Option<&Vec<Json>>)
        ensures
            match found {
                Some(items) => self@.items() == Some(items.deep_view()),
                None => self@.items() is None,
            },
    {
        match self {
            Json::List(items) => {
                proof {
                    lemma_list_view(*items);
                }
                Some(items)
            },
            _ => None,
        }
    }

    /// Whether this document is `null`.
    pub fn is_null(&self) -> (null: bool)
        ensures
            null == (self@ == JsonView::Null),
    {
        match self {
            Json::Null => true,
            _ => false,
        }
    }

    /// A copy of this document.
    pub fn copy(&self) -> (doc: Json)
        ensures
            doc@ == self@,
        decreases self,
    {
        match self {
            Json::Null => Json::Null,
            Json::Bool(b) => Json::Bool(*b),
            Json::Number(n) => Json::Number(n.clone()),
            Json::Text(s) => Json::Text(s.clone()),
            Json::List(items) => {
                let mut copies: Vec<Json> = Vec::new();
                let mut i: usize = 0;
                while i < items.len()
                    invariant
                        i <= items.len(),
                        copies.len() == i,
                        forall|k: int|
                            0 <= k < items.len() ==> decreases_to!(self => #[trigger] items[k]),
                        forall|j: int| 0 <= j < i ==> (#[trigger] copies[j])@ == items[j]@,
                    decreases items.len() - i,
                {
                    let item = items[i].copy();
                    copies.push(item);
                    i += 1;
                }
                proof {
                    lemma_list_view(copies);
                    lemma_list_view(*items);
                    assert(copies.deep_view() =~= items.deep_view());
                }
                Json::List(copies)
            },
            Json::Object(members) => {
                let mut copies: Vec<(String, Json)> = Vec::new();
                let mut i: usize = 0;
                while i < members.len()
                    invariant
                        i <= members.len(),
                        copies.len() == i,
                        forall|k: int|
                            0 <= k < members.len() ==> decreases_to!(
                                self => (#[trigger] members[k]).1
                            ),
                        forall|j: int|
                            0 <= j < i ==> (#[trigger] copies[j]).0@ == members[j].0@
                                && copies[j].1@ == members[j].1@,
                    decreases members.len() - i,
                {
                    let name = members[i].0.clone();
                    let value = members[i].1.copy();
                    copies.push((name, value));
                    i += 1;
                }
                proof {
                    lemma_object_view(copies);
                    lemma_object_view(*members);
                    assert(copies.deep_view() =~= members.deep_view());
                }
                Json::Object(copies)
            },
        }
    }
}

} // verus!
