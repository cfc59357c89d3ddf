//! JSON values.

use crate::text::{one_line, same_text};
use serde_json::{Number, Value};
use vstd::prelude::*;

verus! {

broadcast use vstd::map::axiom_map_index_decreases_finite;

/// A JSON number as `serde_json` holds it. It is carried, never read.
#[verifier::external_type_specification]
#[verifier::external_body]
pub struct ExNumber(serde_json::Number);

/// A JSON document as `serde_json` holds it.
#[verifier::external_type_specification]
#[verifier::external_body]
pub struct ExValue(serde_json::Value);

/// What a JSON value is: an object is the map of its members, whatever order
/// they were written in.
pub enum JsonView {
    Null,
    Bool(bool),
    Numeral(Number),
    Text(Seq<char>),
    Array(Seq<JsonView>),
    Object(Map<Seq<char>, JsonView>),
}

/// A JSON value. Where an object names a member twice, the later one counts.
#[derive(Debug)]
pub enum Json {
    Null,
    Bool(bool),
    Numeral(Number),
    Text(String),
    Array(Vec<Json>),
    Object(Vec<(String, Json)>),
}

/// The values of a sequence of JSON values.
pub open spec fn array_view(items: Seq<Json>) -> Seq<JsonView>
    decreases items,
{
    if items.len() == 0 {
        Seq::empty()
    } else {
        array_view(items.drop_last()).push(items.last().view())
    }
}

/// The members of an object, the later of two that share a name.
pub open spec fn members_view(members: Seq<(String, Json)>) -> Map<Seq<char>, JsonView>
    decreases members,
{
    if members.len() == 0 {
        Map::empty()
    } else {
        members_view(members.drop_last()).insert(members.last().0@, members.last().1.view())
    }
}

impl Json {
    /// What this value is.
    pub open spec fn view(&self) -> JsonView
        decreases self,
    {
        match self {
            Json::Null => JsonView::Null,
            Json::Bool(b) => JsonView::Bool(*b),
            Json::Numeral(n) => JsonView::Numeral(*n),
            Json::Text(s) => JsonView::Text(s@),
            Json::Array(items) => JsonView::Array(array_view(items@)),
            Json::Object(members) => JsonView::Object(members_view(members@)),
        }
    }
}

/// What a `serde_json` document holds.
pub uninterp spec fn document_view(v: Value) -> JsonView;

/// What `serde_json::from_slice` reads from a text, if the text is JSON.
pub uninterp spec fn json_parse(body: Seq<u8>) -> Option<JsonView>;

/// The compact text that `serde_json` writes for a value.
pub uninterp spec fn json_text(v: JsonView) -> Seq<char>;

/// The number that `serde_json` makes of an integer.
pub uninterp spec fn integer_number(i: int) -> Number;

/// The outermost layer of a document: what lies under it is still a document.
enum Layer {
    Null,
    Bool(bool),
    Numeral(Number),
    Text(String),
    Array(Vec<Value>),
    Object(Vec<(String, Value)>),
}

/// The members of a document's object, the later of two that share a name.
spec fn fields_view(fields: Seq<(String, Value)>) -> Map<Seq<char>, JsonView>
    decreases fields.len(),
{
    if fields.len() == 0 {
        Map::empty()
    } else {
        fields_view(fields.drop_last()).insert(fields.last().0@, document_view(fields.last().1))
    }
}

/// No two fields share a name.
spec fn distinct_names(fields: Seq<(String, Value)>) -> bool {
    forall|i: int, j: int| 0 <= i < j < fields.len() ==> #[trigger] fields[i].0@ != #[trigger] fields[j].0@
}

/// What each of a sequence of documents holds.
spec fn documents_view(items: Seq<Value>) -> Seq<JsonView> {
    Seq::new(items.len(), |i: int| document_view(items[i]))
}

impl Layer {
    /// What the document with this outermost layer holds.
    spec fn view(&self) -> JsonView {
        match self {
            Layer::Null => JsonView::Null,
            Layer::Bool(b) => JsonView::Bool(*b),
            Layer::Numeral(n) => JsonView::Numeral(*n),
            Layer::Text(s) => JsonView::Text(s@),
            Layer::Array(items) => JsonView::Array(documents_view(items@)),
            Layer::Object(fields) => JsonView::Object(fields_view(fields@)),
        }
    }
}

/// `serde_json::from_slice` into a `Value`: the document that the text holds,
/// or nothing where the text is not JSON.
#[verifier::external_body]
fn read_document(body: &[u8]) -> (r: Option<Value>)
    ensures
        match r {
            Some(v) => json_parse(body@) == Some(document_view(v)),
            None => json_parse(body@) is None,
        },
{
    serde_json::from_slice::<Value>(body).ok()
}

/// `Display` of `serde_json::Value`: the compact text of the document. Members
/// come in the order of their names, as they do without the `preserve_order`
/// feature of the crate, so the text is settled by what the document holds.
/// Line ends in strings are escaped, so the text is one line.
#[verifier::external_body]
fn document_text(v: &Value) -> (r: String)
    ensures
        r@ == json_text(document_view(*v)),
        one_line(r@),
{
    v.to_string()
}

/// The variants of `serde_json::Value`, field by field; of an object, what
/// `serde_json::Map` iterates over: each member once.
#[verifier::external_body]
fn split_document(v: Value) -> (r: Layer)
    ensures
        r.view() == document_view(v),
        r matches Layer::Object(fields) ==> distinct_names(fields@),
{
    match v {
        Value::Null => Layer::Null,
        Value::Bool(b) => Layer::Bool(b),
        Value::Number(n) => Layer::Numeral(n),
        Value::String(s) => Layer::Text(s),
        Value::Array(items) => Layer::Array(items),
        Value::Object(fields) => Layer::Object(fields.into_iter().collect()),
    }
}

/// The variants of `serde_json::Value`, built field by field; an object is
/// what `serde_json::Map` collects: of two members that share a name it keeps
/// the later.
#[verifier::external_body]
fn join_document(layer: Layer) -> (r: Value)
    ensures
        document_view(r) == layer.view(),
{
    match layer {
        Layer::Null => Value::Null,
        Layer::Bool(b) => Value::Bool(b),
        Layer::Numeral(n) => Value::Number(n),
        Layer::Text(s) => Value::String(s),
        Layer::Array(items) => Value::Array(items),
        Layer::Object(fields) => Value::Object(fields.into_iter().collect()),
    }
}

/// `From<i64>` of `serde_json::Number`: the number for an integer.
#[verifier::external_body]
fn number_from(i: i64) -> (r: Number)
    ensures
        r == integer_number(i as int),
{
    Number::from(i)
}

/// `Clone` of `serde_json::Number`: the same number again.
pub assume_specification[ <serde_json::Number as Clone>::clone ](n: &serde_json::Number) -> (r: serde_json::Number)
    ensures
        r == *n,
;

/// Where no two fields share a name, each field is the member of that name.
proof fn lemma_fields_at(fields: Seq<(String, Value)>, k: int)
    requires
        0 <= k < fields.len(),
        distinct_names(fields),
    ensures
        fields_view(fields).dom().finite(),
        fields_view(fields).contains_key(fields[k].0@),
        fields_view(fields)[fields[k].0@] == document_view(fields[k].1),
    decreases fields.len(),
{
    let front = fields.drop_last();
    assert forall|i: int, j: int| 0 <= i < j < front.len() implies #[trigger] front[i].0@
        != #[trigger] front[j].0@ by {
        assert(fields[i].0@ != fields[j].0@);
    }
    if front.len() == 0 {
        assert(fields_view(front) == Map::<Seq<char>, JsonView>::empty());
    } else {
        lemma_fields_at(front, if k < front.len() { k } else { 0 });
    }
    if k < front.len() {
        assert(fields[k].0@ != fields[front.len() as int].0@);
    }
}

/// The value that a `serde_json` document holds.
pub fn from_document(v: Value) -> (r: Json)
    ensures
        r.view() == document_view(v),
    decreases document_view(v),
{
    match split_document(v) {
        Layer::Null => Json::Null,
        Layer::Bool(b) => Json::Bool(b),
        Layer::Numeral(n) => Json::Numeral(n),
        Layer::Text(s) => Json::Text(s),
        Layer::Array(items) => {
            let ghost all = items@;
            let mut out: Vec<Json> = Vec::new();
            for item in it: items
                invariant
                    it.seq() == all,
                    document_view(v) == JsonView::Array(documents_view(all)),
                    array_view(out@) == documents_view(all.take(it.index() as int)),
            {
                let ghost k = it.index() as int;
                let ghost before = out@;
                assert(documents_view(all)[k] == document_view(item));
                assert(decreases_to!(document_view(v) => document_view(v)->Array_0));
                assert(decreases_to!(documents_view(all) => documents_view(all)[k]));
                out.push(from_document(item));
                assert(out@.drop_last() =~= before);
                assert(documents_view(all.take(k + 1)) =~= documents_view(all.take(k)).push(
                    document_view(item),
                ));
            }
            assert(all.take(all.len() as int) =~= all);
            Json::Array(out)
        },
        Layer::Object(fields) => {
            let ghost all = fields@;
            let mut out: Vec<(String, Json)> = Vec::new();
            for field in it: fields
                invariant
                    it.seq() == all,
                    document_view(v) == JsonView::Object(fields_view(all)),
                    members_view(out@) == fields_view(all.take(it.index() as int)),
                    distinct_names(all),
            {
                let ghost k = it.index() as int;
                let ghost before = out@;
                proof {
                    lemma_fields_at(all, k);
                    assert(decreases_to!(document_view(v) => document_view(v)->Object_0));
                    assert(decreases_to!(fields_view(all) => fields_view(all)[field.0@]));
                }
                out.push((field.0, from_document(field.1)));
                assert(out@.drop_last() =~= before);
                assert(all.take(k + 1).drop_last() =~= all.take(k));
            }
            assert(all.take(all.len() as int) =~= all);
            Json::Object(out)
        },
    }
}

/// The `serde_json` document that holds a value.
pub fn to_document(json: &Json) -> (r: Value)
    ensures
        document_view(r) == json@,
    decreases json,
{
    let layer = match json {
        Json::Null => Layer::Null,
        Json::Bool(b) => Layer::Bool(*b),
        Json::Numeral(n) => Layer::Numeral(n.clone()),
        Json::Text(s) => Layer::Text(s.clone()),
        Json::Array(items) => {
            let mut out: Vec<Value> = Vec::new();
            let mut i: usize = 0;
            while i < items.len()
                invariant
                    i <= items@.len(),
                    *json == Json::Array(*items),
                    documents_view(out@) == array_view(items@.take(i as int)),
                decreases items.len() - i,
            {
                let ghost before = out@;
                assert(decreases_to!(*json => json->Array_0));
                assert(decreases_to!(items@ => items@[i as int]));
                let item = to_document(&items[i]);
                out.push(item);
                i += 1;
                assert(items@.take(i as int).drop_last() =~= items@.take(i - 1));
                assert(documents_view(out@) =~= documents_view(before).push(document_view(item)));
            }
            assert(items@.take(items@.len() as int) =~= items@);
            Layer::Array(out)
        },
        Json::Object(members) => {
            let mut out: Vec<(String, Value)> = Vec::new();
            let mut i: usize = 0;
            while i < members.len()
                invariant
                    i <= members@.len(),
                    *json == Json::Object(*members),
                    fields_view(out@) == members_view(members@.take(i as int)),
                decreases members.len() - i,
            {
                let ghost before = out@;
                assert(decreases_to!(*json => json->Object_0));
                assert(decreases_to!(members@ => members@[i as int]));
                assert(decreases_to!(members@[i as int] => members@[i as int].1));
                let item = to_document(&members[i].1);
                out.push((members[i].0.clone(), item));
                i += 1;
                assert(members@.take(i as int).drop_last() =~= members@.take(i - 1));
                assert(out@.drop_last() =~= before);
            }
            assert(members@.take(members@.len() as int) =~= members@);
            Layer::Object(out)
        },
    };
    join_document(layer)
}

impl Clone for Json {
    fn clone(&self) -> (r: Self)
        ensures
            r@ == self@,
        decreases self,
    {
        match self {
            Json::Null => Json::Null,
            Json::Bool(b) => Json::Bool(*b),
            Json::Numeral(n) => Json::Numeral(n.clone()),
            Json::Text(s) => Json::Text(s.clone()),
            Json::Array(items) => {
                let mut out: Vec<Json> = Vec::new();
                let mut i: usize = 0;
                while i < items.len()
                    invariant
                        i <= items@.len(),
                        *self == Json::Array(*items),
                        array_view(out@) == array_view(items@.take(i as int)),
                    decreases items.len() - i,
                {
                    let ghost before = out@;
                    assert(decreases_to!(*self => self->Array_0));
                    assert(decreases_to!(items@ => items@[i as int]));
                    out.push(items[i].clone());
                    i += 1;
                    assert(items@.take(i as int).drop_last() =~= items@.take(i - 1));
                    assert(out@.drop_last() =~= before);
                }
                assert(items@.take(items@.len() as int) =~= items@);
                Json::Array(out)
            },
            Json::Object(members) => {
                let mut out: Vec<(String, Json)> = Vec::new();
                let mut i: usize = 0;
                while i < members.len()
                    invariant
                        i <= members@.len(),
                        *self == Json::Object(*members),
                        members_view(out@) == members_view(members@.take(i as int)),
                    decreases members.len() - i,
                {
                    let ghost before = out@;
                    assert(decreases_to!(*self => self->Object_0));
                    assert(decreases_to!(members@ => members@[i as int]));
                    assert(decreases_to!(members@[i as int] => members@[i as int].1));
                    out.push((members[i].0.clone(), members[i].1.clone()));
                    i += 1;
                    assert(members@.take(i as int).drop_last() =~= members@.take(i - 1));
                    assert(out@.drop_last() =~= before);
                }
                assert(members@.take(members@.len() as int) =~= members@);
                Json::Object(out)
            },
        }
    }
}

/// The member of an object under a name; nothing of any other value.
pub open spec fn member(v: JsonView, name: Seq<char>) -> Option<JsonView> {
    match v {
        JsonView::Object(members) => if members.contains_key(name) {
            Some(members[name])
        } else {
            None
        },
        _ => None,
    }
}

/// The text of a JSON string; nothing of any other value.
pub open spec fn as_text(v: JsonView) -> Option<Seq<char>> {
    match v {
        JsonView::Text(s) => Some(s),
        _ => None,
    }
}

/// The text of the member under a name, where that member is a string.
pub open spec fn text_member(v: JsonView, name: Seq<char>) -> Option<Seq<char>> {
    match member(v, name) {
        Some(m) => as_text(m),
        None => None,
    }
}

impl Json {
    /// Reads a JSON text; nothing where it is not JSON.
    pub fn parse(body: &[u8]) -> (r: Option<Json>)
        ensures
            match r {
                Some(json) => json_parse(body@) == Some(json@),
                None => json_parse(body@) is None,
            },
    {
        match read_document(body) {
            Some(v) => Some(from_document(v)),
            None => None,
        }
    }

    /// The compact text of this value.
    pub fn to_text(&self) -> (r: String)
        ensures
            r@ == json_text(self@),
            one_line(r@),
    {
        document_text(&to_document(self))
    }

    /// The number for an integer.
    pub fn integer(i: i64) -> (r: Json)
        ensures
            r@ == JsonView::Numeral(integer_number(i as int)),
    {
        Json::Numeral(number_from(i))
    }

    /// The JSON string with this text.
    pub fn text(s: &str) -> (r: Json)
        ensures
            r@ == JsonView::Text(s@),
    {
        Json::Text(s.to_owned())
    }

    /// The object without members.
    pub fn empty_object() -> (r: Json)
        ensures
            r@ == JsonView::Object(Map::empty()),
    {
        Json::Object(Vec::new())
    }

    /// This object with one member more, which replaces one of that name.
    pub fn with(self, name: &str, value: Json) -> (r: Json)
        requires
            self@ is Object,
        ensures
            r@ == JsonView::Object(self@->Object_0.insert(name@, value@)),
    {
        match self {
            Json::Object(members) => {
                let mut members = members;
                let ghost before = members@;
                members.push((name.to_owned(), value));
                assert(members@.drop_last() =~= before);
                Json::Object(members)
            },
            other => other,
        }
    }

    /// The member under a name, where this is an object that has it.
    pub fn get(&self, name: &str) -> (r: Option<&Json>)
        ensures
            match r {
                Some(json) => member(self@, name@) == Some(json@),
                None => member(self@, name@) is None,
            },
    {
        match self {
            Json::Object(members) => {
                let mut i: usize = members.len();
                assert(members@.take(i as int) =~= members@);
                while i > 0
                    invariant
                        i <= members@.len(),
                        *self == Json::Object(*members),
                        member(self@, name@) == member(
                            JsonView::Object(members_view(members@.take(i as int))),
                            name@,
                        ),
                    decreases i,
                {
                    assert(members@.take(i as int).drop_last() =~= members@.take(i - 1));
                    if same_text(members[i - 1].0.as_str(), name) {
                        return Some(&members[i - 1].1);
                    }
                    i -= 1;
                }
                None
            },
            _ => None,
        }
    }

    /// The text of this value, where it is a string.
    pub fn as_str(&self) -> (r: Option<&str>)
        ensures
            match r {
                Some(s) => as_text(self@) == Some(s@),
                None => as_text(self@) is None,
            },
    {
        match self {
            Json::Text(s) => Some(s.as_str()),
            _ => None,
        }
    }

    /// The text of the member under a name, where that member is a string.
    pub fn get_str(&self, name: &str) -> (r: Option<&str>)
        ensures
            match r {
                Some(s) => text_member(self@, name@) == Some(s@),
                None => text_member(self@, name@) is None,
            },
    {
        match self.get(name) {
            Some(json) => json.as_str(),
            None => None,
        }
    }
}

/// An object holds under a name what was put there last, and under every other
/// name what it held before; nothing is under a name that was taken out, in the
/// empty object or in any other value.
pub proof fn objects_hold_what_was_put_in(
    members: Map<Seq<char>, JsonView>,
    name: Seq<char>,
    value: JsonView,
    other: Seq<char>,
    plain: JsonView,
)
    requires
        other != name,
        !(plain is Object),
    ensures
        member(JsonView::Object(members.insert(name, value)), name) == Some(value),
        member(JsonView::Object(members.insert(name, value)), other) == member(
            JsonView::Object(members),
            other,
        ),
        member(JsonView::Object(members.remove(name)), name) is None,
        member(JsonView::Object(Map::empty()), name) is None,
        member(plain, name) is None,
{
}

/// The text of a member is that of a JSON string, and of nothing else.
pub proof fn texts_are_those_of_strings(v: JsonView, name: Seq<char>, s: Seq<char>)
    ensures
        as_text(v) == Some(s) <==> v == JsonView::Text(s),
        text_member(v, name) == Some(s) <==> member(v, name) == Some(JsonView::Text(s)),
{
}

/// What a value is: its own kind with the same content, item by item.
pub proof fn values_are_what_they_hold(b: bool, n: Number, s: String, items: Vec<Json>, i: int)
    requires
        0 <= i < items@.len(),
    ensures
        Json::Null@ == JsonView::Null,
        Json::Bool(b)@ == JsonView::Bool(b),
        Json::Numeral(n)@ == JsonView::Numeral(n),
        Json::Text(s)@ == JsonView::Text(s@),
        Json::Array(items)@ is Array,
        Json::Array(items)@->Array_0.len() == items@.len(),
        Json::Array(items)@->Array_0[i] == items@[i]@,
{
    lemma_array_items(items@, i);
}

proof fn lemma_array_items(items: Seq<Json>, i: int)
    requires
        0 <= i < items.len(),
    ensures
        array_view(items).len() == items.len(),
        array_view(items)[i] == items[i]@,
    decreases items.len(),
{
    if items.len() > 1 {
        lemma_array_items(items.drop_last(), if i < items.len() - 1 { i } else { 0 });
    } else {
        assert(array_view(items.drop_last()) == Seq::<JsonView>::empty());
    }
}

/// A value reads the last of the members that share a name, and no member that
/// was not written.
pub proof fn the_last_member_of_a_name_counts(members: Vec<(String, Json)>, i: int, name: Seq<char>)
    requires
        0 <= i < members@.len(),
        members@[i].0@ == name,
        forall|j: int| i < j < members@.len() ==> #[trigger] members@[j].0@ != name,
    ensures
        member(Json::Object(members)@, name) == Some(members@[i].1@),
{
    lemma_last_member(members@, i, name);
}

proof fn lemma_last_member(members: Seq<(String, Json)>, i: int, name: Seq<char>)
    requires
        0 <= i < members.len(),
        members[i].0@ == name,
        forall|j: int| i < j < members.len() ==> #[trigger] members[j].0@ != name,
    ensures
        members_view(members).contains_key(name),
        members_view(members)[name] == members[i].1@,
    decreases members.len(),
{
    if i < members.len() - 1 {
        assert(members[members.len() - 1].0@ != name);
        lemma_last_member(members.drop_last(), i, name);
    }
}

/// A name that no member has is not read.
pub proof fn unwritten_members_are_not_read(members: Vec<(String, Json)>, name: Seq<char>)
    requires
        forall|j: int| 0 <= j < members@.len() ==> #[trigger] members@[j].0@ != name,
    ensures
        Json::Object(members)@ is Object,
        member(Json::Object(members)@, name) is None,
{
    lemma_no_member(members@, name);
}

proof fn lemma_no_member(members: Seq<(String, Json)>, name: Seq<char>)
    requires
        forall|j: int| 0 <= j < members.len() ==> #[trigger] members[j].0@ != name,
    ensures
        !members_view(members).contains_key(name),
    decreases members.len(),
{
    if members.len() > 0 {
        assert(members[members.len() - 1].0@ != name);
        lemma_no_member(members.drop_last(), name);
    }
}

/// An object without members under other names than these.
pub open spec fn only_members(v: JsonView, names: Set<Seq<char>>) -> bool {
    v is Object && forall|name: Seq<char>| #[trigger]
        member(v, name) is Some ==> names.contains(name)
}

/// A value that is handed over as a document and taken back is the same value.
pub proof fn documents_give_values_back(json: &Json, document: Value, back: Json)
    requires
        call_ensures(to_document, (json,), document),
        call_ensures(from_document, (document,), back),
    ensures
        back@ == json@,
{
}

/// To put a member into an object is seen under its name and under no other.
pub proof fn a_member_is_found_under_its_name(
    object: Json,
    name: &str,
    value: Json,
    r: Json,
    other: Seq<char>,
)
    requires
        object@ is Object,
        call_ensures(Json::with, (object, name, value), r),
    ensures
        member(r@, name@) == Some(value@),
        other != name@ ==> member(r@, other) == member(object@, other),
{
}

} // verus!
