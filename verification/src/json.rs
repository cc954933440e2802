//! JSON values as the library holds them, and the calls into `serde_json`
//! that read and write their text.

use vstd::prelude::*;
use serde_json::{Number, Value};
use crate::errors::IpcError;
use crate::text::{
    first_value, lemma_first_value_at, lemma_first_value_none, opt_pairs, opt_text, str_eq,
    text_pairs,
};

verus! {

/// A JSON number: a non-negative integer, a negative integer, or any other
/// number kept as its JSON text.
#[derive(Debug, PartialEq)]
pub enum JsonNumber {
    PosInt(u64),
    NegInt(i64),
    Float(String),
}

/// A JSON value. The members of an object keep their order.
#[derive(Debug, PartialEq)]
pub enum Json {
    Null,
    Bool(bool),
    Number(JsonNumber),
    Str(String),
    Array(Vec<Json>),
    Object(Vec<(String, Json)>),
}

/// The mathematical value of a `JsonNumber`.
pub enum NumberView {
    PosInt(u64),
    NegInt(i64),
    Float(Seq<char>),
}

/// The mathematical value of a `Json`.
pub enum JsonView {
    Null,
    Bool(bool),
    Number(NumberView),
    Str(Seq<char>),
    Array(Seq<JsonView>),
    Object(Seq<(Seq<char>, JsonView)>),
}

impl View for JsonNumber {
    type V = NumberView;

    open spec fn view(&self) -> NumberView {
        match self {
            JsonNumber::PosInt(n) => NumberView::PosInt(*n),
            JsonNumber::NegInt(n) => NumberView::NegInt(*n),
            JsonNumber::Float(text) => NumberView::Float(text@),
        }
    }
}

/// The mathematical value of `j`: texts by their characters, arrays and
/// objects by the values of their items, in order.
pub open spec fn json_view(j: Json) -> JsonView
    decreases j,
{
    match j {
        Json::Null => JsonView::Null,
        Json::Bool(b) => JsonView::Bool(b),
        Json::Number(n) => JsonView::Number(n@),
        Json::Str(s) => JsonView::Str(s@),
        Json::Array(items) => JsonView::Array(
            Seq::new(
                items@.len(),
                |i: int|
                    if 0 <= i < items.len() {
                        json_view(items[i])
                    } else {
                        JsonView::Null
                    },
            ),
        ),
        Json::Object(members) => JsonView::Object(
            Seq::new(
                members@.len(),
                |i: int|
                    if 0 <= i < members.len() {
                        (members[i].0@, json_view(members[i].1))
                    } else {
                        (Seq::<char>::empty(), JsonView::Null)
                    },
            ),
        ),
    }
}

impl View for Json {
    type V = JsonView;

    open spec fn view(&self) -> JsonView {
        json_view(*self)
    }
}

impl JsonView {
    /// The member `key` of an object; nothing for any other value.
    pub open spec fn member(self, key: Seq<char>) -> Option<JsonView> {
        match self {
            JsonView::Object(members) => first_value(members, key),
            _ => None,
        }
    }

    /// The text of a text value; nothing for any other value.
    pub open spec fn as_str(self) -> Option<Seq<char>> {
        match self {
            JsonView::Str(s) => Some(s),
            _ => None,
        }
    }

    /// The truth value of a boolean; nothing for any other value.
    pub open spec fn as_bool(self) -> Option<bool> {
        match self {
            JsonView::Bool(b) => Some(b),
            _ => None,
        }
    }

    /// The number as an unsigned integer, where it is a non-negative integer.
    pub open spec fn as_u64(self) -> Option<u64> {
        match self {
            JsonView::Number(NumberView::PosInt(n)) => Some(n),
            _ => None,
        }
    }
}

/// The names and values of a list of members.
pub open spec fn members_view(members: Seq<(String, Json)>) -> Seq<(Seq<char>, JsonView)> {
    Seq::new(members.len(), |i: int| (members[i].0@, members[i].1@))
}

/// The value behind an optional reference.
pub open spec fn opt_ref_view(v: Option<&Json>) -> Option<JsonView> {
    match v {
        Some(j) => Some(j@),
        None => None,
    }
}

/// The JSON form of an optional text: the text, or `null`.
pub open spec fn json_opt_text(o: Option<Seq<char>>) -> JsonView {
    match o {
        Some(s) => JsonView::Str(s),
        None => JsonView::Null,
    }
}

/// The JSON form of an optional value: the value, or `null`.
pub open spec fn json_opt(o: Option<JsonView>) -> JsonView {
    match o {
        Some(j) => j,
        None => JsonView::Null,
    }
}

/// The JSON form of a list of text pairs: an object of texts.
pub open spec fn json_pairs(pairs: Seq<(Seq<char>, Seq<char>)>) -> JsonView {
    JsonView::Object(Seq::new(pairs.len(), |i: int| (pairs[i].0, JsonView::Str(pairs[i].1))))
}

/// The JSON form of an optional list of text pairs: an object, or `null`.
pub open spec fn json_opt_pairs(o: Option<Seq<(Seq<char>, Seq<char>)>>) -> JsonView {
    match o {
        Some(pairs) => json_pairs(pairs),
        None => JsonView::Null,
    }
}

/// The JSON form of an integer.
pub open spec fn json_int(n: int) -> JsonView {
    if n >= 0 {
        JsonView::Number(NumberView::PosInt(n as u64))
    } else {
        JsonView::Number(NumberView::NegInt(n as i64))
    }
}

/// What an optional text field holds: nothing where the field is absent
/// or `null`, its text where it is a text; anything else is a fault.
pub open spec fn text_field(v: Option<JsonView>) -> Option<Option<Seq<char>>> {
    match v {
        None => Some(None),
        Some(JsonView::Null) => Some(None),
        Some(JsonView::Str(s)) => Some(Some(s)),
        Some(_) => None,
    }
}

/// What an optional field of any type holds: nothing where the field is
/// absent or `null`.
pub open spec fn value_field(v: Option<JsonView>) -> Option<JsonView> {
    match v {
        None => None,
        Some(JsonView::Null) => None,
        Some(j) => Some(j),
    }
}

/// Every member is a text.
pub open spec fn all_texts(members: Seq<(Seq<char>, JsonView)>) -> bool {
    forall|i: int| 0 <= i < members.len() ==> (#[trigger] members[i]).1 is Str
}

/// What an optional field of text pairs holds: nothing where the field is
/// absent or `null`, its pairs where it is an object of texts; anything
/// else is a fault.
pub open spec fn pairs_field(v: Option<JsonView>) -> Option<Option<Seq<(Seq<char>, Seq<char>)>>> {
    match v {
        None => Some(None),
        Some(JsonView::Null) => Some(None),
        Some(JsonView::Object(members)) => if all_texts(members) {
            Some(Some(Seq::new(members.len(), |i: int| (members[i].0, members[i].1->Str_0))))
        } else {
            None
        },
        Some(_) => None,
    }
}

/// The member of `v` named `key`, where `v` is given and is an object.
pub open spec fn opt_member(v: Option<JsonView>, key: Seq<char>) -> Option<JsonView> {
    match v {
        Some(j) => j.member(key),
        None => None,
    }
}

impl Json {
    /// The text of a text value.
    pub fn as_str(&self) -> (r: Option<&str>)
        ensures
            match r {
                Some(s) => self@.as_str() == Some(s@),
                None => self@.as_str() is None,
            },
    {
        match self {
            Json::Str(s) => Some(s.as_str()),
            _ => None,
        }
    }

    /// The truth value of a boolean.
    pub fn as_bool(&self) -> (r: Option<bool>)
        ensures
            r == self@.as_bool(),
    {
        match self {
            Json::Bool(b) => Some(*b),
            _ => None,
        }
    }

    /// The number, where the value is a non-negative integer.
    pub fn as_u64(&self) -> (r: Option<u64>)
        ensures
            r == self@.as_u64(),
    {
        match self {
            Json::Number(JsonNumber::PosInt(n)) => Some(*n),
            _ => None,
        }
    }

    /// Whether the value is `null`.
    pub fn is_null(&self) -> (r: bool)
        ensures
            r == (self@ is Null),
    {
        match self {
            Json::Null => true,
            _ => false,
        }
    }

    /// The member `key` of an object: the first one of that name.
    #[verifier::loop_isolation(false)]
    pub fn get(&self, key: &str) -> (r: Option<&Json>)
        ensures
            match r {
                Some(v) => self@.member(key@) == Some(v@),
                None => self@.member(key@) is None,
            },
    {
        match self {
            Json::Object(members) => {
                let ghost all = self@->Object_0;
                let mut i: usize = 0;
                while i < members.len()
                    invariant
                        i <= members.len(),
                        all.len() == members@.len(),
                        forall|j: int|
                            0 <= j < members@.len() ==> #[trigger] all[j] == (
                                members@[j].0@,
                                members@[j].1@,
                            ),
                        forall|j: int| 0 <= j < i ==> (#[trigger] all[j]).0 != key@,
                    decreases members.len() - i,
                {
                    if str_eq(members[i].0.as_str(), key) {
                        proof {
                            lemma_first_value_at(all, key@, i as int);
                            assert(all[i as int] == (members@[i as int].0@, members@[i as int].1@));
                        }
                        return Some(&members[i].1);
                    }
                    i += 1;
                }
                proof {
                    lemma_first_value_none(all, key@);
                }
                None
            },
            _ => None,
        }
    }

    /// An object with the given members, in their order.
    pub fn object(members: Vec<(String, Json)>) -> (j: Json)
        ensures
            j@ == JsonView::Object(members_view(members@)),
    {
        let j = Json::Object(members);
        assert(j@->Object_0 =~= members_view(members@));
        j
    }

    /// A text value.
    pub fn string(text: &str) -> (j: Json)
        ensures
            j@ == JsonView::Str(text@),
    {
        Json::Str(text.to_owned())
    }

    /// A non-negative integer value.
    pub fn uint(n: u64) -> (j: Json)
        ensures
            j@ == JsonView::Number(NumberView::PosInt(n)),
    {
        Json::Number(JsonNumber::PosInt(n))
    }

    /// A value equal to this one.
    #[verifier::loop_isolation(false)]
    pub fn duplicate(&self) -> (j: Json)
        ensures
            j@ == self@,
        decreases self,
    {
        match self {
            Json::Null => Json::Null,
            Json::Bool(b) => Json::Bool(*b),
            Json::Number(JsonNumber::PosInt(n)) => Json::Number(JsonNumber::PosInt(*n)),
            Json::Number(JsonNumber::NegInt(n)) => Json::Number(JsonNumber::NegInt(*n)),
            Json::Number(JsonNumber::Float(text)) => Json::Number(JsonNumber::Float(text.clone())),
            Json::Str(s) => Json::Str(s.clone()),
            Json::Array(items) => {
                let mut copy: Vec<Json> = Vec::new();
                let mut i: usize = 0;
                while i < items.len()
                    invariant
                        i <= items.len(),
                        copy@.len() == i,
                        forall|j: int| 0 <= j < i ==> (#[trigger] copy@[j])@ == items@[j]@,
                    decreases items.len() - i,
                {
                    proof {
                        assert(decreases_to!(self => items[i as int]));
                    }
                    let item = items[i].duplicate();
                    copy.push(item);
                    i += 1;
                }
                let j = Json::Array(copy);
                assert(j@->Array_0 =~= self@->Array_0);
                j
            },
            Json::Object(members) => {
                let mut copy: Vec<(String, Json)> = Vec::new();
                let mut i: usize = 0;
                while i < members.len()
                    invariant
                        i <= members.len(),
                        copy@.len() == i,
                        forall|j: int|
                            0 <= j < i ==> (#[trigger] copy@[j]).0@ == members@[j].0@ && copy@[j].1@
                                == members@[j].1@,
                    decreases members.len() - i,
                {
                    proof {
                        assert(decreases_to!(self => members[i as int].1));
                    }
                    let value = members[i].1.duplicate();
                    copy.push((members[i].0.clone(), value));
                    i += 1;
                }
                let j = Json::Object(copy);
                assert(j@->Object_0 =~= self@->Object_0);
                j
            },
        }
    }
}


/// `serde_json::Value`, as `serde_json` reads and writes it.
#[verifier::external_type_specification]
#[verifier::external_body]
pub struct ExOutsideJson(serde_json::Value);

/// `serde_json::Number`, the number inside a `serde_json::Value`.
#[verifier::external_type_specification]
#[verifier::external_body]
pub struct ExOutsideNumber(serde_json::Number);

/// `serde_json::Error`, the failure of reading or writing JSON text.
#[verifier::external_type_specification]
#[verifier::external_body]
pub struct ExOutsideJsonError(serde_json::Error);

/// What `serde_json::from_str` makes of a text: the value it reads, or
/// nothing where the text is not one JSON value.
pub uninterp spec fn json_parse(text: Seq<char>) -> Option<JsonView>;

/// A text without a line feed.
pub open spec fn one_line(text: Seq<char>) -> bool {
    forall|i: int| 0 <= i < text.len() ==> #[trigger] text[i] != '\n'
}

/// What `serde_json::to_string` writes for a value, or nothing where the
/// value cannot be written.
pub uninterp spec fn json_render(value: JsonView) -> Option<Seq<char>>;

/// What `serde_json::Value::pointer` finds in a value under a JSON pointer.
pub uninterp spec fn json_pointer(value: JsonView, pointer: Seq<char>) -> Option<JsonView>;

/// Turns a `serde_json::Number` into a `JsonNumber`: `PosInt` or `NegInt`
/// where `as_u64` or `as_i64` gives it, else the text that its `Display`
/// writes.
#[verifier::external_body]
fn number_from_outside(n: &Number) -> JsonNumber {
    match (n.as_u64(), n.as_i64()) {
        (Some(u), _) => JsonNumber::PosInt(u),
        (_, Some(i)) => JsonNumber::NegInt(i),
        _ => JsonNumber::Float(n.to_string()),
    }
}

/// Turns a `JsonNumber` into a `serde_json::Number`. The text of a `Float`
/// is read by `serde_json::from_str`, whose error comes back.
#[verifier::external_body]
fn number_to_outside(n: &JsonNumber) -> Result<Number, serde_json::Error> {
    match n {
        JsonNumber::PosInt(u) => Ok(Number::from(*u)),
        JsonNumber::NegInt(i) => Ok(Number::from(*i)),
        JsonNumber::Float(t) => serde_json::from_str(t),
    }
}

/// Turns a `serde_json::Value` into a `Json`, variant by variant.
#[verifier::external_body]
fn json_from_outside(v: &Value) -> Json {
    match v {
        Value::Null => Json::Null,
        Value::Bool(b) => Json::Bool(*b),
        Value::Number(n) => Json::Number(number_from_outside(n)),
        Value::String(s) => Json::Str(s.clone()),
        Value::Array(a) => Json::Array(a.iter().map(json_from_outside).collect()),
        Value::Object(m) => Json::Object(
            m.iter().map(|(k, v)| (k.clone(), json_from_outside(v))).collect(),
        ),
    }
}

/// Turns a `Json` into a `serde_json::Value`, variant by variant; fails
/// where a number inside it does.
#[verifier::external_body]
fn json_to_outside(j: &Json) -> Result<Value, serde_json::Error> {
    Ok(match j {
        Json::Null => Value::Null,
        Json::Bool(b) => Value::Bool(*b),
        Json::Number(n) => Value::Number(number_to_outside(n)?),
        Json::Str(s) => Value::String(s.clone()),
        Json::Array(a) => Value::Array(a.iter().map(json_to_outside).collect::<Result<_, _>>()?),
        Json::Object(m) => Value::Object(
            m.iter().map(|(k, v)| Ok((k.clone(), json_to_outside(v)?)))
                .collect::<Result<_, serde_json::Error>>()?,
        ),
    })
}

/// `serde_json::from_str`: reads one JSON value from `text`. The contract
/// only names the outcome; it depends on nothing but the text.
#[verifier::external_body]
fn parse_outside(text: &str) -> (r: Result<Json, serde_json::Error>)
    ensures
        match r {
            Ok(j) => json_parse(text@) == Some(j@),
            Err(_) => json_parse(text@) is None,
        },
{
    serde_json::from_str::<Value>(text).map(|v| json_from_outside(&v))
}

/// `serde_json::to_string`: writes `j` as compact JSON text. The contract
/// names the outcome, which depends on nothing but the value, and adds
/// that the text holds no line feed: the compact form has no white space
/// between its parts, and a line feed inside a text is written as the two
/// characters `\n`.
#[verifier::external_body]
fn render_outside(j: &Json) -> (r: Result<String, serde_json::Error>)
    ensures
        match r {
            Ok(s) => json_render(j@) == Some(s@) && one_line(s@),
            Err(_) => json_render(j@) is None,
        },
{
    serde_json::to_string(&json_to_outside(j)?)
}

/// `serde_json::Value::pointer`: the value under a JSON pointer (RFC 6901).
/// The contract only names the outcome; it depends on nothing but the
/// value and the pointer.
#[verifier::external_body]
fn pointer_outside(j: &Json, pointer: &str) -> (r: Option<Json>)
    ensures
        match r {
            Some(v) => json_pointer(j@, pointer@) == Some(v@),
            None => json_pointer(j@, pointer@) is None,
        },
{
    json_to_outside(j).ok()?.pointer(pointer).map(json_from_outside)
}

/// The message of a `serde_json::Error`, as its `Display` writes it.
#[verifier::external_body]
fn outside_error_text(e: &serde_json::Error) -> String {
    e.to_string()
}

impl Json {
    /// Reads one JSON value from `text`; fails with `IpcError::Json` where
    /// the text is not one JSON value.
    pub fn parse(text: &str) -> (r: Result<Json, IpcError>)
        ensures
            match r {
                Ok(j) => json_parse(text@) == Some(j@),
                Err(e) => json_parse(text@) is None && e is Json,
            },
    {
        match parse_outside(text) {
            Ok(j) => Ok(j),
            Err(e) => Err(IpcError::Json(outside_error_text(&e))),
        }
    }

    /// Writes the value as one line of compact JSON text; fails with
    /// `IpcError::Json` where the value cannot be written.
    pub fn render(&self) -> (r: Result<String, IpcError>)
        ensures
            match r {
                Ok(s) => json_render(self@) == Some(s@) && one_line(s@),
                Err(e) => json_render(self@) is None && e is Json,
            },
    {
        match render_outside(self) {
            Ok(s) => Ok(s),
            Err(e) => Err(IpcError::Json(outside_error_text(&e))),
        }
    }

    /// The value that a JSON pointer names inside this one.
    pub fn pointer(&self, pointer: &str) -> (r: Option<Json>)
        ensures
            match r {
                Some(v) => json_pointer(self@, pointer@) == Some(v@),
                None => json_pointer(self@, pointer@) is None,
            },
    {
        pointer_outside(self, pointer)
    }
}

/// The JSON form of an optional text.
pub fn json_of_opt_text(o: &Option<String>) -> (j: Json)
    ensures
        j@ == json_opt_text(opt_text(*o)),
{
    match o {
        Some(s) => Json::Str(s.clone()),
        None => Json::Null,
    }
}

/// The JSON form of an optional value: a copy of it, or `null`.
pub fn json_of_opt(o: &Option<Json>) -> (j: Json)
    ensures
        j@ == json_opt(
            match *o {
                Some(v) => Some(v@),
                None => None,
            },
        ),
{
    match o {
        Some(v) => v.duplicate(),
        None => Json::Null,
    }
}

/// The JSON form of a list of text pairs.
pub fn json_of_pairs(pairs: &Vec<(String, String)>) -> (j: Json)
    ensures
        j@ == json_pairs(text_pairs(pairs@)),
{
    let mut members: Vec<(String, Json)> = Vec::new();
    let mut i: usize = 0;
    while i < pairs.len()
        invariant
            i <= pairs.len(),
            members@.len() == i,
            forall|k: int|
                0 <= k < i ==> (#[trigger] members@[k]).0@ == pairs@[k].0@ && members@[k].1@
                    == JsonView::Str(pairs@[k].1@),
        decreases pairs.len() - i,
    {
        members.push((pairs[i].0.clone(), Json::Str(pairs[i].1.clone())));
        i += 1;
    }
    let j = Json::object(members);
    assert(j@->Object_0 =~= json_pairs(text_pairs(pairs@))->Object_0);
    j
}

/// The JSON form of an optional list of text pairs.
pub fn json_of_opt_pairs(o: &Option<Vec<(String, String)>>) -> (j: Json)
    ensures
        j@ == json_opt_pairs(opt_pairs(*o)),
{
    match o {
        Some(pairs) => json_of_pairs(pairs),
        None => Json::Null,
    }
}

/// The JSON form of an integer.
pub fn json_of_i64(n: i64) -> (j: Json)
    ensures
        j@ == json_int(n as int),
{
    if n >= 0 {
        Json::Number(JsonNumber::PosInt(n as u64))
    } else {
        Json::Number(JsonNumber::NegInt(n))
    }
}

/// Reads an optional text field.
pub fn read_text_field(v: Option<&Json>) -> (r: Option<Option<String>>)
    ensures
        match r {
            Some(t) => text_field(opt_ref_view(v)) == Some(opt_text(t)),
            None => text_field(opt_ref_view(v)) is None,
        },
{
    match v {
        None => Some(None),
        Some(Json::Null) => Some(None),
        Some(Json::Str(s)) => Some(Some(s.clone())),
        Some(_) => None,
    }
}

/// Reads an optional field of any type.
pub fn read_value_field(v: Option<&Json>) -> (r: Option<Json>)
    ensures
        value_field(opt_ref_view(v)) == (match r {
            Some(j) => Some(j@),
            None => None,
        }),
{
    match v {
        None => None,
        Some(Json::Null) => None,
        Some(j) => Some(j.duplicate()),
    }
}

/// Reads an optional field of text pairs.
#[verifier::loop_isolation(false)]
pub fn read_pairs_field(v: Option<&Json>) -> (r: Option<Option<Vec<(String, String)>>>)
    ensures
        match r {
            Some(p) => pairs_field(opt_ref_view(v)) == Some(opt_pairs(p)),
            None => pairs_field(opt_ref_view(v)) is None,
        },
{
    match v {
        None => Some(None),
        Some(Json::Null) => Some(None),
        Some(Json::Object(members)) => {
            let ghost views = v->Some_0@->Object_0;
            let mut pairs: Vec<(String, String)> = Vec::new();
            let mut i: usize = 0;
            while i < members.len()
                invariant
                    i <= members.len(),
                    pairs@.len() == i,
                    forall|k: int|
                        0 <= k < i ==> (#[trigger] views[k]).1 is Str && pairs@[k].0@ == views[k].0
                            && pairs@[k].1@ == views[k].1->Str_0,
                decreases members.len() - i,
            {
                match members[i].1.as_str() {
                    Some(s) => {
                        pairs.push((members[i].0.clone(), s.to_owned()));
                    },
                    None => {
                        assert(!(views[i as int].1 is Str));
                        return None;
                    },
                }
                i += 1;
            }
            assert(text_pairs(pairs@) =~= Seq::new(
                views.len(),
                |i: int| (views[i].0, views[i].1->Str_0),
            ));
            Some(Some(pairs))
        },
        Some(_) => None,
    }
}

} // verus!
