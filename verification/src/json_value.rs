//! JSON values as the parser gives them, and how they are laid out.

use crate::json::{Json, JsonView};
use crate::{json, primitives, text};
use vstd::prelude::*;

verus! {

/// A JSON value of `serde_json`.
#[verifier::external_type_specification]
#[verifier::external_body]
pub struct ExValue(serde_json::Value);

/// What a JSON value holds.
pub uninterp spec fn value_holds(value: serde_json::Value) -> JsonView;

/// The outermost layer of a JSON value. A number is given as the signed and as the
/// unsigned whole number that it is, where it is one, and as it is written.
pub enum Opened<'a> {
    Null,
    Bool(bool),
    Number { signed: Option<i64>, unsigned: Option<u64>, written: String },
    Text(&'a String),
    List(&'a Vec<serde_json::Value>),
    Members(Vec<(&'a String, &'a serde_json::Value)>),
}

/// What a number holds: a whole number where it is one, else what is written.
pub open spec fn number_holds(
    signed: Option<i64>,
    unsigned: Option<u64>,
    written: Seq<char>,
) -> JsonView {
    match (signed, unsigned) {
        (Some(n), _) => JsonView::Int(n as int),
        (None, Some(n)) => JsonView::Int(n as int),
        (None, None) => JsonView::Real(written),
    }
}

impl<'a> Opened<'a> {
    /// What a value with this outermost layer holds.
    pub open spec fn holds(self) -> JsonView {
        match self {
            Opened::Null => JsonView::Null,
            Opened::Bool(b) => JsonView::Bool(b),
            Opened::Number { signed, unsigned, written } => number_holds(
                signed,
                unsigned,
                written@,
            ),
            Opened::Text(t) => JsonView::Str(t@),
            Opened::List(items) => JsonView::Arr(
                items@.map_values(|v: serde_json::Value| value_holds(v)),
            ),
            Opened::Members(members) => JsonView::Obj(
                members@.map_values(
                    |m: (&String, &serde_json::Value)| (m.0@, value_holds(*m.1)),
                ),
            ),
        }
    }
}

/// Tells the variants of `serde_json::Value` apart. A number is read by
/// `serde_json::Number::as_i64` and `as_u64` and written by its `to_string`; the
/// members of an object come in the order in which `serde_json::Map::iter` walks them,
/// which is a function of the value.
#[verifier::external_body]
pub(crate) fn open_value<'a>(value: &'a serde_json::Value) -> (r: Opened<'a>)
    ensures
        r.holds() == value_holds(*value),
{
    match value {
        serde_json::Value::Null => Opened::Null,
        serde_json::Value::Bool(b) => Opened::Bool(*b),
        serde_json::Value::Number(n) => {
            Opened::Number { signed: n.as_i64(), unsigned: n.as_u64(), written: n.to_string() }
        },
        serde_json::Value::String(t) => Opened::Text(t),
        serde_json::Value::Array(items) => Opened::List(items),
        serde_json::Value::Object(members) => Opened::Members(members.iter().collect()),
    }
}

/// Reads a JSON value.
pub fn read_value(value: &serde_json::Value) -> (r: Json)
    ensures
        r@ == value_holds(*value),
    decreases value_holds(*value),
{
    let ghost held = value_holds(*value);
    match open_value(value) {
        Opened::Null => Json::Null,
        Opened::Bool(b) => Json::Bool(b),
        Opened::Number { signed, unsigned, written } => match signed {
            Some(n) => Json::Int(n as i128),
            None => match unsigned {
                Some(n) => Json::Int(n as i128),
                None => Json::Real(written),
            },
        },
        Opened::Text(t) => Json::Str(t.clone()),
        Opened::List(items) => {
            let mut out: Vec<Json> = Vec::new();
            let mut i: usize = 0;
            while i < items.len()
                invariant
                    i <= items@.len(),
                    held == value_holds(*value),
                    held == JsonView::Arr(
                        items@.map_values(|v: serde_json::Value| value_holds(v)),
                    ),
                    json::json_views(out@) == held->Arr_0.take(i as int),
                decreases items@.len() - i,
            {
                let ghost before = out@;
                assert(held->Arr_0[i as int] == value_holds(items@[i as int]));
                assert(decreases_to!(held => held->Arr_0));
                assert(decreases_to!(held->Arr_0 => held->Arr_0[i as int]));
                out.push(read_value(&items[i]));
                assert(json::json_views(out@) =~= json::json_views(before).push(
                    held->Arr_0[i as int],
                ));
                assert(held->Arr_0.take(i + 1) =~= held->Arr_0.take(i as int).push(
                    held->Arr_0[i as int],
                ));
                i += 1;
            }
            assert(held->Arr_0.take(items@.len() as int) =~= held->Arr_0);
            Json::array(out)
        },
        Opened::Members(members) => {
            let mut out: Vec<(String, Json)> = Vec::new();
            let mut i: usize = 0;
            while i < members.len()
                invariant
                    i <= members@.len(),
                    held == value_holds(*value),
                    held == JsonView::Obj(
                        members@.map_values(
                            |m: (&String, &serde_json::Value)| (m.0@, value_holds(*m.1)),
                        ),
                    ),
                    json::member_views(out@) == held->Obj_0.take(i as int),
                decreases members@.len() - i,
            {
                let ghost before = out@;
                assert(held->Obj_0[i as int] == (
                    members@[i as int].0@,
                    value_holds(*members@[i as int].1),
                ));
                assert(decreases_to!(held => held->Obj_0));
                assert(decreases_to!(held->Obj_0 => held->Obj_0[i as int]));
                assert(decreases_to!(held->Obj_0[i as int] => held->Obj_0[i as int].1));
                out.push((members[i].0.clone(), read_value(members[i].1)));
                assert(json::member_views(out@) =~= json::member_views(before).push(
                    held->Obj_0[i as int],
                ));
                assert(held->Obj_0.take(i + 1) =~= held->Obj_0.take(i as int).push(
                    held->Obj_0[i as int],
                ));
                i += 1;
            }
            assert(held->Obj_0.take(members@.len() as int) =~= held->Obj_0);
            Json::members_of(out)
        },
    }
}

/// What a text holds that is read as JSON; missing where it is none.
pub uninterp spec fn parsed_json(text: Seq<char>) -> Option<JsonView>;

/// What a value holds, where there is one.
pub open spec fn opt_holds(value: Option<serde_json::Value>) -> Option<JsonView> {
    match value {
        Some(v) => Some(value_holds(v)),
        None => None,
    }
}

/// Calls `serde_json::from_str` for a `serde_json::Value`: what the value holds is a
/// function of the text, and so is whether there is one.
#[verifier::external_body]
fn parse_value(text: &str) -> (r: Option<serde_json::Value>)
    ensures
        opt_holds(r) == parsed_json(text@),
{
    serde_json::from_str(text).ok()
}

/// The text that bytes are taken for.
pub uninterp spec fn lossy_chars(bytes: Seq<u8>) -> Seq<char>;

/// Calls `String::from_utf8_lossy`: the text is a function of the bytes. Bytes that are
/// the UTF-8 encoding of a text give that text.
#[verifier::external_body]
pub(crate) fn lossy_text(bytes: &[u8]) -> (r: String)
    ensures
        r@ == lossy_chars(bytes@),
        vstd::utf8::valid_utf8(bytes@) ==> vstd::utf8::encode_utf8(r@) == bytes@,
{
    String::from_utf8_lossy(bytes).to_string()
}

/// What a JSON value holds, where there is one.
pub open spec fn opt_content(json: Option<Json>) -> Option<JsonView> {
    match json {
        Some(j) => Some(j@),
        None => None,
    }
}

/// Reads a text as JSON.
pub fn read_text(text: &str) -> (r: Option<Json>)
    ensures
        opt_content(r) == parsed_json(text@),
{
    match parse_value(text) {
        Some(value) => Some(read_value(&value)),
        None => None,
    }
}

/// What bytes hold that are read as JSON; missing where they are none, or no UTF-8.
pub open spec fn bytes_hold(bytes: Seq<u8>) -> Option<JsonView> {
    if vstd::utf8::valid_utf8(bytes) {
        parsed_json(vstd::utf8::decode_utf8(bytes))
    } else {
        None
    }
}

/// Reads bytes as JSON. Bytes that are no UTF-8 are none.
pub fn read_bytes(bytes: &[u8]) -> (r: Option<Json>)
    ensures
        opt_content(r) == bytes_hold(bytes@),
{
    match primitives::utf8_text(bytes) {
        Some(text) => {
            proof {
                vstd::utf8::encode_utf8_valid_utf8(text@);
                vstd::utf8::encode_utf8_decode_utf8(text@);
            }
            read_text(text.as_str())
        },
        None => None,
    }
}

/// Reads bytes as JSON. Bytes that are no UTF-8 are read with a stand-in for what is
/// none; others as they are.
pub fn read_body(body: &Vec<u8>) -> (r: Option<Json>)
    ensures
        opt_content(r) == parsed_json(lossy_chars(body@)),
        vstd::utf8::valid_utf8(body@) ==> opt_content(r) == bytes_hold(body@),
{
    let text = lossy_text(body.as_slice());
    proof {
        vstd::utf8::encode_utf8_decode_utf8(text@);
    }
    read_text(text.as_str())
}

/// What a JSON value holds, laid out over several lines.
pub uninterp spec fn pretty_json(held: JsonView) -> Seq<char>;

/// Calls `serde_json::to_string_pretty`, which fails on no JSON value: the layout is a
/// function of what the value holds.
#[verifier::external_body]
fn lay_out_value(value: &serde_json::Value) -> (r: Option<String>)
    ensures
        text::opt_view(r) == Some(pretty_json(value_holds(*value))),
{
    serde_json::to_string_pretty(value).ok()
}

/// What a JSON value holds, written without blanks and line ends.
pub uninterp spec fn compact_json(held: JsonView) -> Seq<char>;

/// Calls `to_string` of a `serde_json::Value`: the text is a function of what the value
/// holds.
#[verifier::external_body]
pub(crate) fn compact_value(value: &serde_json::Value) -> (r: String)
    ensures
        r@ == compact_json(value_holds(*value)),
{
    value.to_string()
}

/// The details of an event: what they hold, and how that is laid out.
pub struct Details {
    held: Json,
    layout: String,
}

impl View for Details {
    type V = JsonView;

    closed spec fn view(&self) -> JsonView {
        self.held@
    }
}

impl Details {
    #[verifier::type_invariant]
    spec fn alike(self) -> bool {
        self.layout@ == pretty_json(self.held@)
    }

    /// The details that a JSON value holds.
    pub fn of(value: &serde_json::Value) -> (r: Details)
        ensures
            r@ == value_holds(*value),
    {
        let layout = match lay_out_value(value) {
            Some(t) => t,
            None => String::new(),
        };
        Details { held: read_value(value), layout }
    }

    /// What the details hold.
    pub fn held(&self) -> (r: &Json)
        ensures
            r@ == self@,
    {
        &self.held
    }

    /// The details, laid out over several lines.
    pub fn layout(&self) -> (r: &str)
        ensures
            r@ == pretty_json(self@),
    {
        proof {
            use_type_invariant(self);
        }
        self.layout.as_str()
    }
}

/// A value holds what its layers hold: every item of a list, and every member of an object
/// under its name; a number is whole where it can be.
pub proof fn law_values_hold_their_layers<'a>(
    b: bool,
    t: &'a String,
    items: &'a Vec<serde_json::Value>,
    members: Vec<(&'a String, &'a serde_json::Value)>,
    n: i64,
    m: u64,
    unsigned: Option<u64>,
    written: Seq<char>,
    i: int,
)
    ensures
        Opened::Null.holds() == JsonView::Null,
        Opened::Bool(b).holds() == JsonView::Bool(b),
        Opened::Text(t).holds() == JsonView::Str(t@),
        Opened::List(items).holds() matches JsonView::Arr(held) && held.len() == items@.len() && (0
            <= i < items@.len() ==> held[i] == value_holds(items@[i])),
        Opened::Members(members).holds() matches JsonView::Obj(held) && held.len()
            == members@.len() && (0 <= i < members@.len() ==> held[i] == (
            members@[i].0@,
            value_holds(*members@[i].1),
        )),
        number_holds(Some(n), unsigned, written) == JsonView::Int(n as int),
        number_holds(None, Some(m), written) == JsonView::Int(m as int),
        number_holds(None, None, written) == JsonView::Real(written),
{
}

/// Bytes hold the JSON that their text holds, and nothing where they encode no text.
pub proof fn law_bytes_hold_what_their_text_holds(s: Seq<char>, bytes: Seq<u8>)
    ensures
        bytes_hold(vstd::utf8::encode_utf8(s)) == parsed_json(s),
        !vstd::utf8::valid_utf8(bytes) ==> bytes_hold(bytes) is None,
{
    vstd::utf8::encode_utf8_valid_utf8(s);
    vstd::utf8::encode_utf8_decode_utf8(s);
}

} // verus!
