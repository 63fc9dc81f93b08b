//! JSON values as plain data, and their mathematical model.
//!
//! Texts are read and written by the `rustc-serialize` crate. What it
//! reads is moved into a `JsonValue`, which the rest of the library
//! works on; what is to be written is moved out of one.

use crate::screen::screen;
use crate::screen::verdict_of;
use crate::screen::Verdict;
use rustc_serialize::json::Json;
use rustc_serialize::json::ParserError;
use std::collections::BTreeMap;
use vstd::prelude::*;
use vstd::utf8::encode_utf8;

verus! {

/// `Json` of the JSON crate: a parsed value, opaque here.
#[verifier::external_type_specification]
#[verifier::external_body]
pub struct ExJson(rustc_serialize::json::Json);

/// `ParserError` of the JSON crate: why a text was rejected, opaque here.
#[verifier::external_type_specification]
#[verifier::external_body]
pub struct ExParserError(rustc_serialize::json::ParserError);

/// A JSON value, held as plain data.
#[derive(Debug, PartialEq)]
pub enum JsonValue {
    Null,
    Boolean(bool),
    I64(i64),
    U64(u64),
    /// A number written with a fraction or an exponent, kept as its bits.
    Fraction(u64),
    String(String),
    Array(Vec<JsonValue>),
    /// An object's members in the order they were given. Where a key
    /// occurs twice, the later member is the one that counts.
    Object(Vec<(String, JsonValue)>),
}

/// What a JSON value is: the model that contracts speak of.
pub enum JsonModel {
    Null,
    Boolean(bool),
    I64(i64),
    U64(u64),
    Fraction(u64),
    String(Seq<char>),
    Array(Seq<JsonModel>),
    Object(Map<Seq<char>, JsonModel>),
}

/// The map that a list of members stands for: a later member replaces
/// an earlier one with the same key.
pub open spec fn members(pairs: Seq<(Seq<char>, JsonModel)>) -> Map<Seq<char>, JsonModel>
    decreases pairs.len(),
{
    if pairs.len() == 0 {
        Map::empty()
    } else {
        members(pairs.drop_last()).insert(pairs.last().0, pairs.last().1)
    }
}

/// The model of a value.
pub open spec fn model_of(v: JsonValue) -> JsonModel
    decreases v,
{
    match v {
        JsonValue::Null => JsonModel::Null,
        JsonValue::Boolean(b) => JsonModel::Boolean(b),
        JsonValue::I64(n) => JsonModel::I64(n),
        JsonValue::U64(n) => JsonModel::U64(n),
        JsonValue::Fraction(bits) => JsonModel::Fraction(bits),
        JsonValue::String(s) => JsonModel::String(s@),
        JsonValue::Array(items) => JsonModel::Array(item_models(items@)),
        JsonValue::Object(pairs) => JsonModel::Object(members(pair_models(pairs@))),
    }
}

/// The models of a list of values.
pub open spec fn item_models(items: Seq<JsonValue>) -> Seq<JsonModel>
    decreases items,
{
    Seq::new(
        items.len(),
        |i: int|
            if 0 <= i < items.len() {
                model_of(items[i])
            } else {
                JsonModel::Null
            },
    )
}

/// The models of a list of members.
pub open spec fn pair_models(pairs: Seq<(String, JsonValue)>) -> Seq<(Seq<char>, JsonModel)>
    decreases pairs,
{
    Seq::new(
        pairs.len(),
        |i: int|
            if 0 <= i < pairs.len() {
                (pairs[i].0@, model_of(pairs[i].1))
            } else {
                (Seq::empty(), JsonModel::Null)
            },
    )
}

impl View for JsonValue {
    type V = JsonModel;

    open spec fn view(&self) -> JsonModel {
        model_of(*self)
    }
}

/// A list's models, item by item.
pub proof fn lemma_item_models(items: Seq<JsonValue>)
    ensures
        item_models(items).len() == items.len(),
        forall|i: int| 0 <= i < items.len() ==> #[trigger] item_models(items)[i] == items[i]@,
{
}

/// The last member with a given key is the one that the map holds.
pub proof fn lemma_members_last(pairs: Seq<(Seq<char>, JsonModel)>, key: Seq<char>, k: int)
    requires
        0 <= k < pairs.len(),
        pairs[k].0 == key,
        forall|j: int| k < j < pairs.len() ==> (#[trigger] pairs[j]).0 != key,
    ensures
        members(pairs).dom().contains(key),
        members(pairs)[key] == pairs[k].1,
    decreases pairs.len(),
{
    if k < pairs.len() - 1 {
        let rest = pairs.drop_last();
        assert forall|j: int| k < j < rest.len() implies (#[trigger] rest[j]).0 != key by {
            assert(rest[j] == pairs[j]);
        }
        lemma_members_last(rest, key, k);
    }
}

/// A key that no member has is not in the map.
pub proof fn lemma_members_absent(pairs: Seq<(Seq<char>, JsonModel)>, key: Seq<char>)
    requires
        forall|j: int| 0 <= j < pairs.len() ==> (#[trigger] pairs[j]).0 != key,
    ensures
        !members(pairs).dom().contains(key),
    decreases pairs.len(),
{
    if pairs.len() > 0 {
        let rest = pairs.drop_last();
        assert forall|j: int| 0 <= j < rest.len() implies (#[trigger] rest[j]).0 != key by {
            assert(rest[j] == pairs[j]);
        }
        lemma_members_absent(rest, key);
    }
}

/// Looks a key up among an object's members: the last member with that
/// key, if there is one.
pub fn find_member<'a>(pairs: &'a Vec<(String, JsonValue)>, key: &String) -> (found: Option<
    &'a JsonValue,
>)
    ensures
        found is Some <==> members(pair_models(pairs@)).dom().contains(key@),
        found matches Some(v) ==> v@ == members(pair_models(pairs@))[key@],
{
    let mut i: usize = pairs.len();
    while i > 0
        invariant
            i <= pairs.len(),
            forall|j: int| i <= j < pairs.len() ==> (#[trigger] pairs[j]).0@ != key@,
        decreases i,
    {
        i -= 1;
        if pairs[i].0 == *key {
            proof {
                lemma_members_last(pair_models(pairs@), key@, i as int);
            }
            return Some(&pairs[i].1);
        }
    }
    proof {
        lemma_members_absent(pair_models(pairs@), key@);
    }
    None
}

/// The tree that a value of the JSON crate holds.
pub uninterp spec fn json_tree(j: Json) -> JsonModel;

/// The tree that the JSON crate reads from a text; `None` where it
/// rejects the text.
pub uninterp spec fn parsed_text(text: Seq<char>) -> Option<JsonModel>;

/// The compact text that the JSON crate writes for a tree.
pub uninterp spec fn compact_text(tree: JsonModel) -> Seq<char>;

/// `Json::from_str`: parses a text. Whether it succeeds, and the tree it
/// gives, depend on the text alone. Only a text that passed the
/// screening is handed over: on others the parser may run over its own
/// counters or lose track of where it is.
#[verifier::external_body]
fn parse_json(text: &str) -> (r: Result<Json, ParserError>)
    requires
        verdict_of(encode_utf8(text@)) is Pass,
    ensures
        r is Ok <==> parsed_text(text@) is Some,
        r matches Ok(j) ==> parsed_text(text@) == Some(json_tree(j)),
{
    Json::from_str(text)
}

/// Moves a `Json` of the JSON crate into a `JsonValue`, variant by
/// variant; an object's members come in the order of their keys.
#[verifier::external_body]
fn lift(j: Json) -> (v: JsonValue)
    ensures
        v@ == json_tree(j),
{
    match j {
        Json::Null => JsonValue::Null,
        Json::Boolean(b) => JsonValue::Boolean(b),
        Json::I64(n) => JsonValue::I64(n),
        Json::U64(n) => JsonValue::U64(n),
        Json::F64(x) => JsonValue::Fraction(x.to_bits()),
        Json::String(s) => JsonValue::String(s),
        Json::Array(items) => JsonValue::Array(items.into_iter().map(lift).collect()),
        Json::Object(map) => {
            JsonValue::Object(map.into_iter().map(|(k, x)| (k, lift(x))).collect())
        },
    }
}

/// Why a text gives no JSON value.
#[derive(Clone, Copy, Debug, PartialEq, Eq, Structural)]
pub enum ParseError {
    /// The text is beyond the limits within which texts are read.
    OverLimit,
    /// The text is not well-formed JSON.
    Syntax,
}

/// The value that a text holds, or why it holds none.
pub open spec fn text_tree(text: Seq<char>) -> Result<JsonModel, ParseError> {
    match verdict_of(encode_utf8(text)) {
        Verdict::OverLimit => Err(ParseError::OverLimit),
        Verdict::Malformed => Err(ParseError::Syntax),
        Verdict::Pass => match parsed_text(text) {
            Some(tree) => Ok(tree),
            None => Err(ParseError::Syntax),
        },
    }
}

/// Reads a JSON text.
pub fn parse(text: &str) -> (r: Result<JsonValue, ParseError>)
    ensures
        r matches Ok(v) ==> text_tree(text@) == Ok::<JsonModel, ParseError>(v@),
        r matches Err(fault) ==> text_tree(text@) == Err::<JsonModel, ParseError>(fault),
{
    match screen(text) {
        Verdict::OverLimit => {
            return Err(ParseError::OverLimit);
        },
        Verdict::Malformed => {
            return Err(ParseError::Syntax);
        },
        Verdict::Pass => {},
    }
    match parse_json(text) {
        Ok(j) => Ok(lift(j)),
        Err(_) => Err(ParseError::Syntax),
    }
}

/// Whether a value can be written: whether no number with a fraction or
/// an exponent is anywhere in it. Such a number is held by its bits
/// only, and no text is made from those.
pub open spec fn writable(v: JsonValue) -> bool
    decreases v,
{
    match v {
        JsonValue::Fraction(_) => false,
        JsonValue::Array(items) => items_writable(items@),
        JsonValue::Object(pairs) => members_writable(pairs@),
        _ => true,
    }
}

/// Whether each value of a list can be written.
pub open spec fn items_writable(items: Seq<JsonValue>) -> bool
    decreases items,
{
    forall|i: int| 0 <= i < items.len() ==> writable(#[trigger] items[i])
}

/// Whether the value of each member of a list can be written.
pub open spec fn members_writable(pairs: Seq<(String, JsonValue)>) -> bool
    decreases pairs,
{
    forall|i: int| 0 <= i < pairs.len() ==> writable((#[trigger] pairs[i]).1)
}

/// Builds the `Json` of the JSON crate for a `JsonValue`, variant by
/// variant, or `None` where the value cannot be written. The crate keeps
/// an object's members in a map by key, so a later member replaces an
/// earlier one with the same key.
#[verifier::external_body]
fn lower(v: &JsonValue) -> (j: Option<Json>)
    ensures
        j is Some <==> writable(*v),
        j matches Some(x) ==> json_tree(x) == v@,
{
    Some(match v {
        JsonValue::Null => Json::Null,
        JsonValue::Boolean(b) => Json::Boolean(*b),
        JsonValue::I64(n) => Json::I64(*n),
        JsonValue::U64(n) => Json::U64(*n),
        JsonValue::Fraction(_) => return None,
        JsonValue::String(s) => Json::String(s.clone()),
        JsonValue::Array(items) => Json::Array(items.iter().map(lower).collect::<Option<_>>()?),
        JsonValue::Object(pairs) => {
            let mut map = BTreeMap::new();
            for pair in pairs { map.insert(pair.0.clone(), lower(&pair.1)?); }
            Json::Object(map)
        },
    })
}

/// `Json`'s `to_string`: the compact text of a value, which depends on
/// the tree alone.
#[verifier::external_body]
fn render_json(j: &Json) -> (text: String)
    ensures
        text@ == compact_text(json_tree(*j)),
{
    j.to_string()
}

/// Writes a JSON value as compact text, or `None` where the value
/// cannot be written.
pub fn render(v: &JsonValue) -> (r: Option<String>)
    ensures
        r is Some <==> writable(*v),
        r matches Some(text) ==> text@ == compact_text(v@),
{
    match lower(v) {
        Some(j) => Some(render_json(&j)),
        None => None,
    }
}

} // verus!
