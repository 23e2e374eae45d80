//! The text boundary: parsing JSON text into a value tree and rendering a
//! value tree as pretty JSON, compact JSON or YAML text.
//!
//! The outside calls stand behind trusted items whose results are named:
//! parsing and each rendering are functions of the text or of the value
//! tree alone. Everything between the two boundaries - decoding, the
//! documentation policy, encoding - is the verified codec, composed here
//! by `transcode`.

use vstd::prelude::*;

use crate::decode::{decode_service, err_service, ok_service, rel_service, DecodeError};
use crate::encode::{enc_service, encode_service};
use crate::json::{JsonVal, JsonValue};
use crate::model::{DocPolicy, Service};

verus! {

#[verifier::external_type_specification]
#[verifier::external_body]
pub struct ExValue(serde_json::Value);

/// What parsing a text yields: `None` where the text is not well-formed
/// JSON. Parsing is a function of the text alone.
pub uninterp spec fn parsed_json_of(s: Seq<char>) -> Option<JsonVal>;

/// The pretty JSON rendering of a value tree: multi-line, indented. A
/// function of the tree alone.
pub uninterp spec fn pretty_text_of(v: JsonVal) -> Seq<char>;

/// The compact JSON rendering of a value tree: no insignificant
/// whitespace. A function of the tree alone.
pub uninterp spec fn compact_text_of(v: JsonVal) -> Seq<char>;

/// The YAML rendering of a value tree: block-style mappings. A function of
/// the tree alone.
pub uninterp spec fn yaml_text_of(v: JsonVal) -> Seq<char>;

/// Converting arm of parsing. Relies on serde_json::Number::as_i64: a
/// number that does not fit `i64` becomes `NonIntNumber`, which no schema
/// field accepts.
#[verifier::external_body]
fn value_to_json(v: serde_json::Value) -> JsonValue {
    match v {
        serde_json::Value::Null => JsonValue::Null,
        serde_json::Value::Bool(b) => JsonValue::Bool(b),
        serde_json::Value::Number(n) => match n.as_i64() {
            Some(i) => JsonValue::Int(i),
            None => JsonValue::NonIntNumber,
        },
        serde_json::Value::String(s) => JsonValue::Str(s),
        serde_json::Value::Array(a) => JsonValue::Arr(a.into_iter().map(value_to_json).collect()),
        serde_json::Value::Object(m) => JsonValue::Obj(
            m.into_iter().map(|(k, x)| (k, value_to_json(x))).collect(),
        ),
    }
}

/// Converting arm of rendering. A `NonIntNumber`, which the encoder never
/// produces, renders as null.
#[verifier::external_body]
fn json_to_value(v: &JsonValue) -> serde_json::Value {
    match v {
        JsonValue::Null => serde_json::Value::Null,
        JsonValue::Bool(b) => serde_json::Value::Bool(*b),
        JsonValue::Int(i) => serde_json::Value::Number(serde_json::Number::from(*i)),
        JsonValue::NonIntNumber => serde_json::Value::Null,
        JsonValue::Str(s) => serde_json::Value::String(s.clone()),
        JsonValue::Arr(a) => serde_json::Value::Array(a.iter().map(json_to_value).collect()),
        JsonValue::Obj(es) => serde_json::Value::Object(
            es.iter().map(|(k, x)| (k.clone(), json_to_value(x))).collect(),
        ),
    }
}

/// Relies on serde_json::from_str::<serde_json::Value>: the outcome
/// depends on the text alone; well-formed JSON parses, anything else is
/// refused with the parser's message.
#[verifier::external_body]
fn parse_json(s: &str) -> (r: Result<JsonValue, String>)
    ensures
        r matches Ok(v) ==> parsed_json_of(s@) == Some(v@),
        r is Err ==> parsed_json_of(s@) is None,
{
    match serde_json::from_str::<serde_json::Value>(s) {
        Ok(v) => Ok(value_to_json(v)),
        Err(e) => Err(e.to_string()),
    }
}

/// Relies on serde_json::to_string_pretty: the text depends on the value
/// tree alone. Serializing a value tree cannot fail; were it ever to, the
/// rendering is the empty text.
#[verifier::external_body]
fn render_pretty(v: &JsonValue) -> (r: String)
    ensures
        r@ == pretty_text_of(v@),
{
    match serde_json::to_string_pretty(&json_to_value(v)) {
        Ok(s) => s,
        Err(_) => String::new(),
    }
}

/// Relies on serde_json::to_string: the text depends on the value tree
/// alone. Serializing a value tree cannot fail; were it ever to, the
/// rendering is the empty text.
#[verifier::external_body]
fn render_compact(v: &JsonValue) -> (r: String)
    ensures
        r@ == compact_text_of(v@),
{
    match serde_json::to_string(&json_to_value(v)) {
        Ok(s) => s,
        Err(_) => String::new(),
    }
}

/// Relies on serde_yaml::to_string: the text depends on the value tree
/// alone. Serializing a value tree of string-keyed mappings cannot fail;
/// were it ever to, the rendering is the empty text.
#[verifier::external_body]
fn render_yaml(v: &JsonValue) -> (r: String)
    ensures
        r@ == yaml_text_of(v@),
{
    match serde_yaml::to_string(&json_to_value(v)) {
        Ok(s) => s,
        Err(_) => String::new(),
    }
}

/// The three output renderings.
#[derive(Clone, Copy, PartialEq, Eq, Debug)]
pub enum Format {
    PrettyJson,
    CompactJson,
    Yaml,
}

/// The text a format renders a value tree as.
pub open spec fn rendered(v: JsonVal, fmt: Format) -> Seq<char> {
    match fmt {
        Format::PrettyJson => pretty_text_of(v),
        Format::CompactJson => compact_text_of(v),
        Format::Yaml => yaml_text_of(v),
    }
}

/// Why a document could not be transcoded.
#[derive(Debug, Clone, PartialEq, Eq)]
pub enum TranscodeError {
    /// The input text is not well-formed JSON; carries the parser's words.
    Syntax(String),
    /// The document does not conform to the service-model schema.
    Decode(DecodeError),
}

/// Reads one service-model document from JSON text and re-emits it in the
/// chosen format, including or suppressing documentation per the policy.
///
/// Succeeds exactly on well-formed JSON that decodes as a `Service`; the
/// output is the chosen rendering of the re-encoded tree.
pub fn transcode(text: &str, fmt: Format, pol: DocPolicy) -> (r: Result<String, TranscodeError>)
    ensures
        r is Ok <==> (parsed_json_of(text@) matches Some(v) && ok_service(v)),
        r matches Ok(out) ==> (parsed_json_of(text@) matches Some(v) && exists|x: Service|
            #[trigger] rel_service(v, x) && out@ == rendered(enc_service(x, pol), fmt)),
        (r matches Err(TranscodeError::Syntax(_))) <==> parsed_json_of(text@) is None,
        r matches Err(TranscodeError::Decode(e)) ==> (parsed_json_of(text@) matches Some(v)
            && !ok_service(v) && e@ == err_service(v)),
{
    let jv = match parse_json(text) {
        Ok(v) => v,
        Err(msg) => {
            return Err(TranscodeError::Syntax(msg));
        },
    };
    let svc = match decode_service(&jv) {
        Ok(s) => s,
        Err(e) => {
            return Err(TranscodeError::Decode(e));
        },
    };
    let enc = encode_service(&svc, pol);
    let out = match fmt {
        Format::PrettyJson => render_pretty(&enc),
        Format::CompactJson => render_compact(&enc),
        Format::Yaml => render_yaml(&enc),
    };
    proof {
        assert(rel_service(jv@, svc) && out@ == rendered(enc_service(svc, pol), fmt));
    }
    Ok(out)
}

} // verus!
