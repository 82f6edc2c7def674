//! JSON documents as plain trees, read from and written to text by `serde_json`.

use vstd::prelude::*;

verus! {

/// `serde_json::Number`, carried as it is: nothing inside it is read here.
#[verifier::external_type_specification]
#[verifier::external_body]
pub struct ExNumber(serde_json::Number);

/// `serde_json::Value`, as it passes between `serde_json` and [`Json`].
#[verifier::external_type_specification]
#[verifier::external_body]
pub struct ExValue(serde_json::Value);

/// `Clone` of `serde_json::Number`, which `derive` wrote: the copy equals the
/// number copied.
pub assume_specification[ <serde_json::Number as Clone>::clone ](
    number: &serde_json::Number,
) -> (copy: serde_json::Number)
    ensures
        copy == *number,
;

/// `From<u64>` of `serde_json::Number`: the result is the number that
/// [`json_number`] names for the integer.
pub assume_specification[ <serde_json::Number as From<u64>>::from ](value: u64) -> (number:
    serde_json::Number)
    ensures
        number == json_number(value),
;

/// A JSON document. An object keeps its members as a list of pairs; a lookup
/// takes the first member with the wanted key.
#[derive(Debug, PartialEq, Eq)]
pub enum Json {
    Null,
    Bool(bool),
    Number(serde_json::Number),
    String(String),
    Array(Vec<Json>),
    Object(Vec<(String, Json)>),
}

/// The mathematical model of a [`Json`] document.
pub enum JsonView {
    Null,
    Bool(bool),
    Number(serde_json::Number),
    String(Seq<char>),
    Array(Seq<JsonView>),
    Object(Seq<(Seq<char>, JsonView)>),
}

impl View for Json {
    type V = JsonView;

    open spec fn view(&self) -> JsonView
        decreases self,
    {
        match self {
            Json::Null => JsonView::Null,
            Json::Bool(b) => JsonView::Bool(*b),
            Json::Number(n) => JsonView::Number(*n),
            Json::String(s) => JsonView::String(s@),
            Json::Array(items) => JsonView::Array(
                Seq::new(
                    items@.len(),
                    |i: int|
                        if 0 <= i < items@.len() {
                            items@[i].view()
                        } else {
                            JsonView::Null
                        },
                ),
            ),
            Json::Object(members) => {
                let values = Seq::new(
                    members@.len(),
                    |i: int|
                        if 0 <= i < members@.len() {
                            members@[i].1.view()
                        } else {
                            JsonView::Null
                        },
                );
                JsonView::Object(Seq::new(members@.len(), |i: int| (members@[i].0@, values[i])))
            },
        }
    }
}

impl DeepView for Json {
    type V = JsonView;

    open spec fn deep_view(&self) -> JsonView {
        self@
    }
}

/// The views of the items of an array.
pub open spec fn views(items: Seq<Json>) -> Seq<JsonView> {
    Seq::new(items.len(), |i: int| items[i]@)
}

/// The views of the members of an object.
pub open spec fn member_views(members: Seq<(String, Json)>) -> Seq<(Seq<char>, JsonView)> {
    Seq::new(members.len(), |i: int| (members[i].0@, members[i].1@))
}

/// The view of an array is the array of the views of its items, and likewise
/// for an object and its members.
pub proof fn lemma_view_of_collections(doc: Json)
    ensures
        doc matches Json::Array(items) ==> doc@ == JsonView::Array(views(items@)),
        doc matches Json::Object(members) ==> doc@ == JsonView::Object(member_views(members@)),
{
    match doc {
        Json::Array(items) => {
            assert(doc@->Array_0 =~= views(items@));
        },
        Json::Object(members) => {
            assert(doc@->Object_0 =~= member_views(members@));
        },
        _ => {},
    }
}

/// The value of the first member at or after `from` whose key is `key`.
pub open spec fn member_from(
    members: Seq<(Seq<char>, JsonView)>,
    key: Seq<char>,
    from: int,
) -> Option<JsonView>
    decreases members.len() - from,
{
    if from < 0 || from >= members.len() {
        None
    } else if members[from].0 == key {
        Some(members[from].1)
    } else {
        member_from(members, key, from + 1)
    }
}

/// Among members with distinct keys, a lookup by the key of a member finds
/// that member, wherever it stands.
pub proof fn lemma_lookup_finds_the_member(
    members: Seq<(Seq<char>, JsonView)>,
    at: int,
    from: int,
)
    requires
        distinct_keys(members),
        0 <= from <= at < members.len(),
    ensures
        member_from(members, members[at].0, from) == Some(members[at].1),
    decreases at - from,
{
    if from < at {
        lemma_lookup_finds_the_member(members, at, from + 1);
    }
}

impl JsonView {
    /// The value of the first member named `key`, where the document is an
    /// object that has one.
    pub open spec fn field(self, key: Seq<char>) -> Option<JsonView> {
        match self {
            JsonView::Object(members) => member_from(members, key, 0),
            _ => None,
        }
    }

    /// Whether no object in the document, at any depth, bears a key twice. A
    /// JSON map holds each key once, so only such a document can be written
    /// member for member; in such a document a lookup by key finds the one
    /// member of that key.
    pub open spec fn well_formed(self) -> bool
        decreases self,
    {
        match self {
            JsonView::Array(items) => all_well_formed(items),
            JsonView::Object(members) => distinct_keys(members) && members_well_formed(members),
            _ => true,
        }
    }

    /// The characters of the document, where it is a string.
    pub open spec fn text(self) -> Option<Seq<char>> {
        match self {
            JsonView::String(t) => Some(t),
            _ => None,
        }
    }

    /// The items of the document, where it is an array.
    pub open spec fn items(self) -> Option<Seq<JsonView>> {
        match self {
            JsonView::Array(items) => Some(items),
            _ => None,
        }
    }

    /// The characters of the string member named `key`.
    pub open spec fn text_field(self, key: Seq<char>) -> Option<Seq<char>> {
        match self.field(key) {
            Some(value) => value.text(),
            None => None,
        }
    }

    /// The items of the array member named `key`.
    pub open spec fn items_field(self, key: Seq<char>) -> Option<Seq<JsonView>> {
        match self.field(key) {
            Some(value) => value.items(),
            None => None,
        }
    }
}

/// Whether no two of the members bear the same key.
pub open spec fn distinct_keys(members: Seq<(Seq<char>, JsonView)>) -> bool {
    forall|i: int, j: int| 0 <= i < j < members.len() ==> members[i].0 != members[j].0
}

/// Whether every one of the documents is well formed.
pub open spec fn all_well_formed(docs: Seq<JsonView>) -> bool
    decreases docs,
{
    forall|i: int| 0 <= i < docs.len() ==> (#[trigger] docs[i]).well_formed()
}

/// Whether the value of every one of the members is well formed.
pub open spec fn members_well_formed(members: Seq<(Seq<char>, JsonView)>) -> bool
    decreases members,
{
    forall|i: int| 0 <= i < members.len() ==> (#[trigger] members[i]).1.well_formed()
}

/// A JSON object with the given members.
pub open spec fn object(members: Seq<(Seq<char>, JsonView)>) -> JsonView {
    JsonView::Object(members)
}

/// A JSON string with the given characters.
pub open spec fn string(text: Seq<char>) -> JsonView {
    JsonView::String(text)
}

/// The document that a `serde_json::Value` holds.
pub uninterp spec fn value_tree(value: serde_json::Value) -> JsonView;

/// The `serde_json::Value` that stands for a document.
pub uninterp spec fn json_value(doc: JsonView) -> serde_json::Value;

/// The compact text that `serde_json` writes for a `serde_json::Value`.
pub uninterp spec fn value_text(value: serde_json::Value) -> Seq<char>;

/// What `serde_json::from_str` makes of a text: the document it holds, or
/// `None` where the text is not one JSON document.
pub uninterp spec fn json_parse(text: Seq<char>) -> Option<JsonView>;

/// The JSON number that `serde_json` makes of an unsigned integer.
pub uninterp spec fn json_number(value: u64) -> serde_json::Number;

/// The compact text that `serde_json` writes for a document.
pub open spec fn json_text(doc: JsonView) -> Seq<char> {
    value_text(json_value(doc))
}

/// Reads a `serde_json::Value` into a [`Json`], one variant for each variant
/// and every part in its place. The result is the tree that [`value_tree`]
/// names for the value.
#[verifier::external_body]
fn from_value(value: &serde_json::Value) -> (doc: Json)
    ensures
        doc@ == value_tree(*value),
{
    match value {
        serde_json::Value::Null => Json::Null,
        serde_json::Value::Bool(b) => Json::Bool(*b),
        serde_json::Value::Number(n) => Json::Number(n.clone()),
        serde_json::Value::String(s) => Json::String(s.clone()),
        serde_json::Value::Array(items) => Json::Array(items.iter().map(from_value).collect()),
        serde_json::Value::Object(members) => Json::Object(
            members.iter().map(|(k, v)| (k.clone(), from_value(v))).collect(),
        ),
    }
}

/// Builds the `serde_json::Value` of a [`Json`], one variant for each variant
/// and every part in its place; the members of an object go into a
/// `serde_json::Map`. Only a document whose objects bear no key twice is
/// handed over, so the map holds every member. The result is the value that
/// [`json_value`] names for the document.
#[verifier::external_body]
fn to_value(doc: &Json) -> (value: serde_json::Value)
    requires
        doc@.well_formed(),
    ensures
        value == json_value(doc@),
{
    match doc {
        Json::Null => serde_json::Value::Null,
        Json::Bool(b) => serde_json::Value::Bool(*b),
        Json::Number(n) => serde_json::Value::Number(n.clone()),
        Json::String(s) => serde_json::Value::String(s.clone()),
        Json::Array(items) => serde_json::Value::Array(items.iter().map(to_value).collect()),
        Json::Object(members) => serde_json::Value::Object(
            members.iter().map(|(k, v)| (k.clone(), to_value(v))).collect(),
        ),
    }
}

/// `serde_json::from_str` at type `serde_json::Value`: the value read holds
/// the document that [`json_parse`] names for the text, and there is none
/// exactly where `json_parse` has none.
#[verifier::external_body]
fn parse_value(text: &str) -> (value: Option<serde_json::Value>)
    ensures
        match value {
            Some(v) => json_parse(text@) == Some(value_tree(v)),
            None => json_parse(text@).is_none(),
        },
{
    serde_json::from_str::<serde_json::Value>(text).ok()
}

/// The `Display` of `serde_json::Value`: the text written is the one that
/// [`value_text`] names for the value.
#[verifier::external_body]
fn write_value(value: &serde_json::Value) -> (text: String)
    ensures
        text@ == value_text(*value),
{
    value.to_string()
}

impl Clone for Json {
    fn clone(&self) -> (copy: Json)
        ensures
            copy@ == self@,
    {
        self.duplicate()
    }
}

impl Json {
    /// A deep copy of the document.
    pub fn duplicate(&self) -> (copy: Json)
        ensures
            copy@ == self@,
        decreases self,
    {
        match self {
            Json::Null => Json::Null,
            Json::Bool(b) => Json::Bool(*b),
            Json::Number(n) => Json::Number(n.clone()),
            Json::String(s) => Json::String(s.clone()),
            Json::Array(items) => {
                let mut copies: Vec<Json> = Vec::new();
                let mut i: usize = 0;
                while i < items.len()
                    invariant
                        self is Array,
                        self->Array_0 == *items,
                        i <= items.len(),
                        copies@.len() == i,
                        forall|k: int| 0 <= k < i ==> copies@[k]@ == items@[k]@,
                    decreases items.len() - i,
                {
                    assert(decreases_to!(*items => items[i as int]));
                    copies.push(items[i].duplicate());
                    i += 1;
                }
                assert(Json::Array(copies)@ == self@) by {
                    assert(Json::Array(copies)@->Array_0 =~= self@->Array_0);
                }
                Json::Array(copies)
            },
            Json::Object(members) => {
                let mut copies: Vec<(String, Json)> = Vec::new();
                let mut i: usize = 0;
                while i < members.len()
                    invariant
                        self is Object,
                        self->Object_0 == *members,
                        i <= members.len(),
                        copies@.len() == i,
                        forall|k: int|
                            0 <= k < i ==> copies@[k].0@ == members@[k].0@ && copies@[k].1@
                                == members@[k].1@,
                    decreases members.len() - i,
                {
                    assert(decreases_to!(*members => members[i as int]));
                    copies.push((members[i].0.clone(), members[i].1.duplicate()));
                    i += 1;
                }
                assert(Json::Object(copies)@ == self@) by {
                    assert(Json::Object(copies)@->Object_0 =~= self@->Object_0);
                }
                Json::Object(copies)
            },
        }
    }
}

impl Json {
    /// The value of the first member named `key`, where the document is an
    /// object that has one.
    pub fn get(&self, key: &str) -> (found: Option<&Json>)
        ensures
            match found {
                Some(value) => self@.field(key@) == Some(value@),
                None => self@.field(key@).is_none(),
            },
    {
        match self {
            Json::Object(members) => {
                proof {
                    lemma_view_of_collections(*self);
                }
                let wanted = key.to_owned();
                let mut i: usize = 0;
                while i < members.len()
                    invariant
                        i <= members.len(),
                        wanted@ == key@,
                        self@ == JsonView::Object(member_views(members@)),
                        member_from(member_views(members@), key@, 0) == member_from(
                            member_views(members@),
                            key@,
                            i as int,
                        ),
                    decreases members.len() - i,
                {
                    if members[i].0 == wanted {
                        return Some(&members[i].1);
                    }
                    i += 1;
                }
                None
            },
            _ => None,
        }
    }

    /// The text of the document, where it is a string.
    pub fn as_str(&self) -> (text: Option<&str>)
        ensures
            match text {
                Some(t) => self@.text() == Some(t@),
                None => self@.text().is_none(),
            },
    {
        match self {
            Json::String(t) => Some(t.as_str()),
            _ => None,
        }
    }

    /// The items of the document, where it is an array.
    pub fn as_array(&self) -> (items: Option<&Vec<Json>>)
        ensures
            match items {
                Some(v) => self@.items() == Some(views(v@)),
                None => self@.items().is_none(),
            },
    {
        match self {
            Json::Array(items) => {
                proof {
                    lemma_view_of_collections(*self);
                }
                Some(items)
            },
            _ => None,
        }
    }

    /// The text of the string member named `key`.
    pub fn get_str(&self, key: &str) -> (text: Option<&str>)
        ensures
            match text {
                Some(t) => self@.text_field(key@) == Some(t@),
                None => self@.text_field(key@).is_none(),
            },
    {
        match self.get(key) {
            Some(value) => value.as_str(),
            None => None,
        }
    }

    /// The items of the array member named `key`.
    pub fn get_array(&self, key: &str) -> (items: Option<&Vec<Json>>)
        ensures
            match items {
                Some(v) => self@.items_field(key@) == Some(views(v@)),
                None => self@.items_field(key@).is_none(),
            },
    {
        match self.get(key) {
            Some(value) => value.as_array(),
            None => None,
        }
    }

    /// The JSON string that holds `text`.
    pub fn string(text: &str) -> (doc: Json)
        ensures
            doc@ == string(text@),
    {
        Json::String(text.to_owned())
    }

    /// The JSON object with the given members, in order. It is well formed
    /// exactly where the keys given are distinct and the values given are
    /// well formed.
    pub fn object(members: Vec<(String, Json)>) -> (doc: Json)
        ensures
            doc@ == object(member_views(members@)),
            doc@.well_formed() == (distinct_keys(member_views(members@)) && members_well_formed(
                member_views(members@),
            )),
    {
        let doc = Json::Object(members);
        proof {
            lemma_view_of_collections(doc);
        }
        doc
    }

    /// The JSON array with the given items, in order. It is well formed
    /// exactly where the items given are.
    pub fn array(items: Vec<Json>) -> (doc: Json)
        ensures
            doc@ == JsonView::Array(views(items@)),
            doc@.well_formed() == all_well_formed(views(items@)),
    {
        let doc = Json::Array(items);
        proof {
            lemma_view_of_collections(doc);
        }
        doc
    }

    /// The JSON number that stands for `value`.
    pub fn number(value: u64) -> (doc: Json)
        ensures
            doc@ == JsonView::Number(json_number(value)),
    {
        Json::Number(serde_json::Number::from(value))
    }

    /// Reads one JSON document from `text`.
    pub fn parse(text: &str) -> (doc: Option<Json>)
        ensures
            doc.deep_view() == json_parse(text@),
    {
        match parse_value(text) {
            Some(value) => Some(from_value(&value)),
            None => None,
        }
    }

    /// Whether no object in the document, at any depth, bears a key twice.
    pub fn is_well_formed(&self) -> (ok: bool)
        ensures
            ok == self@.well_formed(),
        decreases self,
    {
        match self {
            Json::Array(items) => {
                proof {
                    lemma_view_of_collections(*self);
                }
                let mut i: usize = 0;
                while i < items.len()
                    invariant
                        self is Array,
                        self->Array_0 == *items,
                        self@ == JsonView::Array(views(items@)),
                        i <= items.len(),
                        forall|k: int| 0 <= k < i ==> (#[trigger] views(items@)[k]).well_formed(),
                    decreases items.len() - i,
                {
                    assert(decreases_to!(*items => items[i as int]));
                    if !items[i].is_well_formed() {
                        assert(!views(items@)[i as int].well_formed());
                        return false;
                    }
                    i += 1;
                }
                true
            },
            Json::Object(members) => {
                proof {
                    lemma_view_of_collections(*self);
                }
                let ghost shown = member_views(members@);
                let mut i: usize = 0;
                while i < members.len()
                    invariant
                        self is Object,
                        self->Object_0 == *members,
                        self@ == JsonView::Object(shown),
                        shown == member_views(members@),
                        i <= members.len(),
                        forall|k: int| 0 <= k < i ==> (#[trigger] shown[k]).1.well_formed(),
                        forall|a: int, b: int| 0 <= a < b < i ==> shown[a].0 != shown[b].0,
                    decreases members.len() - i,
                {
                    assert(decreases_to!(*members => members[i as int]));
                    if !members[i].1.is_well_formed() {
                        assert(!shown[i as int].1.well_formed());
                        return false;
                    }
                    let mut j: usize = 0;
                    while j < i
                        invariant
                            self@ == JsonView::Object(shown),
                            shown == member_views(members@),
                            j <= i < members.len(),
                            forall|a: int| 0 <= a < j ==> shown[a].0 != shown[i as int].0,
                        decreases i - j,
                    {
                        if members[j].0 == members[i].0 {
                            assert(shown[j as int].0 == shown[i as int].0);
                            assert(!distinct_keys(shown));
                            return false;
                        }
                        j += 1;
                    }
                    i += 1;
                }
                assert(distinct_keys(shown));
                true
            },
            _ => true,
        }
    }

    /// Writes a well-formed document as compact JSON text.
    pub(crate) fn write(&self) -> (text: String)
        requires
            self@.well_formed(),
        ensures
            text@ == json_text(self@),
    {
        let value = to_value(self);
        write_value(&value)
    }

    /// Writes the document as compact JSON text. A document in which an
    /// object bears a key twice has no text: a JSON map holds each key once,
    /// and writing such a document would drop a member.
    pub fn to_text(&self) -> (text: Option<String>)
        ensures
            match text {
                Some(written) => self@.well_formed() && written@ == json_text(self@),
                None => !self@.well_formed(),
            },
    {
        if self.is_well_formed() {
            Some(self.write())
        } else {
            None
        }
    }
}

} // verus!
