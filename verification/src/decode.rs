//! Strict decoding of JSON value trees into entity trees.
//!
//! Decoding fails fast on the first problem found, in a fixed order for
//! each object: a value that is not an object, then the first field name
//! outside the entity's schema in document order, then each schema field
//! in declaration order (a required field that is absent, a value of the
//! wrong type, or a fault inside a nested entity). Error paths are built
//! from field names and map keys, relative to the value handed in.
//!
//! Optional fields decode to an absent value both when the field is
//! missing and when it is JSON `null`; required fields must be present
//! with a value of the right type.
//!
//! Duplicate keys: a map object (`operations`, `shapes`, `members`) that
//! binds one key twice is rejected with a duplicate-key error, so a
//! decoded tree never holds two entries of one name. In an entity object a
//! repeated schema field reads its first occurrence; a JSON parser yields
//! each key once, so such input only arises from value trees built by
//! hand.

use vstd::prelude::*;

use crate::json::{
    entries_view, first_unknown, lemma_first_unknown_at, lemma_first_unknown_none,
    lemma_lookup_at, lemma_lookup_none, list_view, lookup, JsonVal, JsonValue,
};
use crate::model::{
    ov_str, ov_strs, Documentation, DocumentationUrl, EndpointDiscovery, Error, HttpOperation,
    Message, Metadata, Operation, Service, Shape, ShapeRef, XmlNamespace,
};

verus! {

/// Why a document was rejected. The path holds the field names and map
/// keys leading from the decoded root to the offending entity; `field`
/// names the offending field within it.
#[derive(Debug, Clone, PartialEq, Eq)]
pub enum DecodeError {
    /// A value that had to be an object is something else.
    NotObject { path: Vec<String> },
    /// An object carries a field outside its entity's schema.
    UnknownField { path: Vec<String>, field: String },
    /// A required field is absent.
    MissingField { path: Vec<String>, field: String },
    /// A field's value does not match its declared type.
    BadValue { path: Vec<String>, field: String },
    /// A map object binds one key twice.
    DuplicateKey { path: Vec<String>, field: String },
}

/// The mathematical form of a decode error.
#[verifier::ext_equal]
pub enum ErrV {
    NotObject { path: Seq<Seq<char>> },
    UnknownField { path: Seq<Seq<char>>, field: Seq<char> },
    MissingField { path: Seq<Seq<char>>, field: Seq<char> },
    BadValue { path: Seq<Seq<char>>, field: Seq<char> },
    DuplicateKey { path: Seq<Seq<char>>, field: Seq<char> },
}

/// View of an error path.
pub open spec fn path_view(p: Seq<String>) -> Seq<Seq<char>> {
    Seq::new(p.len(), |i: int| p[i]@)
}

impl View for DecodeError {
    type V = ErrV;

    open spec fn view(&self) -> ErrV {
        match self {
            DecodeError::NotObject { path } => ErrV::NotObject { path: path_view(path@) },
            DecodeError::UnknownField { path, field } => ErrV::UnknownField {
                path: path_view(path@),
                field: field@,
            },
            DecodeError::MissingField { path, field } => ErrV::MissingField {
                path: path_view(path@),
                field: field@,
            },
            DecodeError::BadValue { path, field } => ErrV::BadValue {
                path: path_view(path@),
                field: field@,
            },
            DecodeError::DuplicateKey { path, field } => ErrV::DuplicateKey {
                path: path_view(path@),
                field: field@,
            },
        }
    }
}

/// An error of a nested entity, seen from its parent: one path segment
/// deeper.
pub open spec fn err_prepend(e: ErrV, seg: Seq<char>) -> ErrV {
    match e {
        ErrV::NotObject { path } => ErrV::NotObject { path: seq![seg] + path },
        ErrV::UnknownField { path, field } => ErrV::UnknownField {
            path: seq![seg] + path,
            field,
        },
        ErrV::MissingField { path, field } => ErrV::MissingField {
            path: seq![seg] + path,
            field,
        },
        ErrV::BadValue { path, field } => ErrV::BadValue { path: seq![seg] + path, field },
        ErrV::DuplicateKey { path, field } => ErrV::DuplicateKey {
            path: seq![seg] + path,
            field,
        },
    }
}

fn prepend(e: DecodeError, seg: &str) -> (r: DecodeError)
    ensures
        r@ == err_prepend(e@, seg@),
{
    match e {
        DecodeError::NotObject { mut path } => {
            let ghost p0 = path@;
            path.insert(0, seg.to_owned());
            proof {
                assert(path_view(path@) =~= seq![seg@] + path_view(p0));
            }
            DecodeError::NotObject { path }
        },
        DecodeError::UnknownField { mut path, field } => {
            let ghost p0 = path@;
            path.insert(0, seg.to_owned());
            proof {
                assert(path_view(path@) =~= seq![seg@] + path_view(p0));
            }
            DecodeError::UnknownField { path, field }
        },
        DecodeError::MissingField { mut path, field } => {
            let ghost p0 = path@;
            path.insert(0, seg.to_owned());
            proof {
                assert(path_view(path@) =~= seq![seg@] + path_view(p0));
            }
            DecodeError::MissingField { path, field }
        },
        DecodeError::BadValue { mut path, field } => {
            let ghost p0 = path@;
            path.insert(0, seg.to_owned());
            proof {
                assert(path_view(path@) =~= seq![seg@] + path_view(p0));
            }
            DecodeError::BadValue { path, field }
        },
        DecodeError::DuplicateKey { mut path, field } => {
            let ghost p0 = path@;
            path.insert(0, seg.to_owned());
            proof {
                assert(path_view(path@) =~= seq![seg@] + path_view(p0));
            }
            DecodeError::DuplicateKey { path, field }
        },
    }
}

/// Character-for-character string equality.
fn str_eq(a: &str, b: &str) -> (r: bool)
    ensures
        r == (a@ == b@),
{
    let x = a.to_owned();
    let y = b.to_owned();
    x == y
}

/// Whether a key is already bound in an entry list under construction.
fn contains_key<T>(m: &Vec<(String, T)>, k: &str) -> (r: bool)
    ensures
        r == exists|j: int| 0 <= j < m@.len() && (#[trigger] m@[j]).0@ == k@,
{
    let mut i: usize = 0;
    while i < m.len()
        invariant
            i <= m.len(),
            forall|j: int| 0 <= j < i ==> (#[trigger] m@[j]).0@ != k@,
        decreases m.len() - i,
    {
        if str_eq(m[i].0.as_str(), k) {
            return true;
        }
        i += 1;
    }
    false
}

/// The entry list of an object value.
fn get_obj<'a>(v: &'a JsonValue) -> (r: Result<&'a Vec<(String, JsonValue)>, DecodeError>)
    ensures
        r is Ok <==> v@ is Obj,
        r matches Ok(es) ==> entries_view(es@) == v@->Obj_0,
        r matches Err(e) ==> e@ == (ErrV::NotObject { path: Seq::empty() }),
{
    match v {
        JsonValue::Obj(es) => {
            proof {
                assert(v@->Obj_0 =~= entries_view(es@));
                assert(path_view(Seq::<String>::empty()) =~= Seq::<Seq<char>>::empty());
            }
            Ok(es)
        },
        _ => {
            proof {
                assert(path_view(Seq::<String>::empty()) =~= Seq::<Seq<char>>::empty());
            }
            Err(DecodeError::NotObject { path: Vec::new() })
        },
    }
}

/// The element list of an array value, if it is one.
fn as_arr<'a>(v: &'a JsonValue) -> (r: Option<&'a Vec<JsonValue>>)
    ensures
        r is Some <==> v@ is Arr,
        r matches Some(items) ==> list_view(items@) == v@->Arr_0,
{
    match v {
        JsonValue::Arr(items) => {
            proof {
                assert(v@->Arr_0 =~= list_view(items@));
            }
            Some(items)
        },
        _ => None,
    }
}

/// The value of the first entry named `name`, if any.
fn get_field<'a>(es: &'a Vec<(String, JsonValue)>, name: &str) -> (r: Option<&'a JsonValue>)
    ensures
        match r {
            None => lookup(entries_view(es@), name@) is None,
            Some(x) => lookup(entries_view(es@), name@) == Some(x@),
        },
{
    let mut i: usize = 0;
    while i < es.len()
        invariant
            i <= es.len(),
            forall|j: int| 0 <= j < i ==> (#[trigger] entries_view(es@)[j]).0 != name@,
        decreases es.len() - i,
    {
        if str_eq(es[i].0.as_str(), name) {
            proof {
                lemma_lookup_at(entries_view(es@), name@, i as int);
            }
            return Some(&es[i].1);
        }
        i += 1;
    }
    proof {
        lemma_lookup_none(entries_view(es@), name@);
    }
    None
}

fn err_bad(name: &str) -> (r: DecodeError)
    ensures
        r@ == (ErrV::BadValue { path: Seq::empty(), field: name@ }),
{
    proof {
        assert(path_view(Seq::<String>::empty()) =~= Seq::<Seq<char>>::empty());
    }
    DecodeError::BadValue { path: Vec::new(), field: name.to_owned() }
}

fn err_missing(name: &str) -> (r: DecodeError)
    ensures
        r@ == (ErrV::MissingField { path: Seq::empty(), field: name@ }),
{
    proof {
        assert(path_view(Seq::<String>::empty()) =~= Seq::<Seq<char>>::empty());
    }
    DecodeError::MissingField { path: Vec::new(), field: name.to_owned() }
}

// ---- per-field-kind acceptance, value and error ----

/// An optional string field: absent, null, or a string.
pub open spec fn ok_opt_str(es: Seq<(Seq<char>, JsonVal)>, n: Seq<char>) -> bool {
    match lookup(es, n) {
        None => true,
        Some(v) => v is Null || v is Str,
    }
}

pub open spec fn got_opt_str(es: Seq<(Seq<char>, JsonVal)>, n: Seq<char>) -> Option<Seq<char>> {
    match lookup(es, n) {
        Some(JsonVal::Str(s)) => Some(s),
        _ => None,
    }
}

pub open spec fn ok_opt_bool(es: Seq<(Seq<char>, JsonVal)>, n: Seq<char>) -> bool {
    match lookup(es, n) {
        None => true,
        Some(v) => v is Null || v is Bool,
    }
}

pub open spec fn got_opt_bool(es: Seq<(Seq<char>, JsonVal)>, n: Seq<char>) -> Option<bool> {
    match lookup(es, n) {
        Some(JsonVal::Bool(b)) => Some(b),
        _ => None,
    }
}

/// An optional integer field must fit the schema's 32-bit range.
pub open spec fn ok_opt_int(es: Seq<(Seq<char>, JsonVal)>, n: Seq<char>) -> bool {
    match lookup(es, n) {
        None => true,
        Some(JsonVal::Null) => true,
        Some(JsonVal::Int(i)) => i32::MIN as i64 <= i <= i32::MAX as i64,
        _ => false,
    }
}

pub open spec fn got_opt_int(es: Seq<(Seq<char>, JsonVal)>, n: Seq<char>) -> Option<i32> {
    match lookup(es, n) {
        Some(JsonVal::Int(i)) => Some(i as i32),
        _ => None,
    }
}

/// A required string field must be present with a string value.
pub open spec fn ok_req_str(es: Seq<(Seq<char>, JsonVal)>, n: Seq<char>) -> bool {
    lookup(es, n) matches Some(JsonVal::Str(_))
}

/// The error of a failed required field: absence and a wrong value are
/// reported differently.
pub open spec fn err_req(es: Seq<(Seq<char>, JsonVal)>, n: Seq<char>) -> ErrV {
    if lookup(es, n) is None {
        ErrV::MissingField { path: Seq::empty(), field: n }
    } else {
        ErrV::BadValue { path: Seq::empty(), field: n }
    }
}

pub open spec fn ok_req_int(es: Seq<(Seq<char>, JsonVal)>, n: Seq<char>) -> bool {
    match lookup(es, n) {
        Some(JsonVal::Int(i)) => i32::MIN as i64 <= i <= i32::MAX as i64,
        _ => false,
    }
}

pub open spec fn got_req_int(es: Seq<(Seq<char>, JsonVal)>, n: Seq<char>) -> i32 {
    match lookup(es, n) {
        Some(JsonVal::Int(i)) => i as i32,
        _ => 0,
    }
}

/// An optional list-of-strings field.
pub open spec fn ok_opt_strs(es: Seq<(Seq<char>, JsonVal)>, n: Seq<char>) -> bool {
    match lookup(es, n) {
        None => true,
        Some(JsonVal::Null) => true,
        Some(JsonVal::Arr(a)) => forall|i: int| 0 <= i < a.len() ==> (#[trigger] a[i]) is Str,
        _ => false,
    }
}

pub open spec fn got_opt_strs(es: Seq<(Seq<char>, JsonVal)>, n: Seq<char>) -> Option<
    Seq<Seq<char>>,
> {
    match lookup(es, n) {
        Some(JsonVal::Arr(a)) => Some(a.map_values(|v: JsonVal| v->Str_0)),
        _ => None,
    }
}

/// Whether a nested-entity field is present (absent and null count as not
/// present).
pub open spec fn child_present(es: Seq<(Seq<char>, JsonVal)>, n: Seq<char>) -> bool {
    match lookup(es, n) {
        None => false,
        Some(JsonVal::Null) => false,
        Some(_) => true,
    }
}

/// The present nested value (null when absent; then never read).
pub open spec fn child_val(es: Seq<(Seq<char>, JsonVal)>, n: Seq<char>) -> JsonVal {
    match lookup(es, n) {
        Some(v) => v,
        None => JsonVal::Null,
    }
}

// ---- typed getters ----

fn get_opt_string(es: &Vec<(String, JsonValue)>, name: &str) -> (r: Result<
    Option<String>,
    DecodeError,
>)
    ensures
        r is Ok <==> ok_opt_str(entries_view(es@), name@),
        r matches Ok(x) ==> ov_str(x) == got_opt_str(entries_view(es@), name@),
        r matches Err(e) ==> e@ == (ErrV::BadValue { path: Seq::empty(), field: name@ }),
{
    match get_field(es, name) {
        None => Ok(None),
        Some(v) => match v {
            JsonValue::Null => Ok(None),
            JsonValue::Str(s) => Ok(Some(s.clone())),
            _ => Err(err_bad(name)),
        },
    }
}

fn get_opt_bool(es: &Vec<(String, JsonValue)>, name: &str) -> (r: Result<
    Option<bool>,
    DecodeError,
>)
    ensures
        r is Ok <==> ok_opt_bool(entries_view(es@), name@),
        r matches Ok(x) ==> x == got_opt_bool(entries_view(es@), name@),
        r matches Err(e) ==> e@ == (ErrV::BadValue { path: Seq::empty(), field: name@ }),
{
    match get_field(es, name) {
        None => Ok(None),
        Some(v) => match v {
            JsonValue::Null => Ok(None),
            JsonValue::Bool(b) => Ok(Some(*b)),
            _ => Err(err_bad(name)),
        },
    }
}

fn get_opt_i32(es: &Vec<(String, JsonValue)>, name: &str) -> (r: Result<Option<i32>, DecodeError>)
    ensures
        r is Ok <==> ok_opt_int(entries_view(es@), name@),
        r matches Ok(x) ==> x == got_opt_int(entries_view(es@), name@),
        r matches Err(e) ==> e@ == (ErrV::BadValue { path: Seq::empty(), field: name@ }),
{
    match get_field(es, name) {
        None => Ok(None),
        Some(v) => match v {
            JsonValue::Null => Ok(None),
            JsonValue::Int(i) => {
                if *i >= i32::MIN as i64 && *i <= i32::MAX as i64 {
                    Ok(Some(*i as i32))
                } else {
                    Err(err_bad(name))
                }
            },
            _ => Err(err_bad(name)),
        },
    }
}

fn get_req_string(es: &Vec<(String, JsonValue)>, name: &str) -> (r: Result<String, DecodeError>)
    ensures
        r is Ok <==> ok_req_str(entries_view(es@), name@),
        r matches Ok(s) ==> Some(s@) == got_opt_str(entries_view(es@), name@),
        r matches Err(e) ==> e@ == err_req(entries_view(es@), name@),
{
    match get_field(es, name) {
        None => Err(err_missing(name)),
        Some(v) => match v {
            JsonValue::Str(s) => Ok(s.clone()),
            _ => Err(err_bad(name)),
        },
    }
}

fn get_req_i32(es: &Vec<(String, JsonValue)>, name: &str) -> (r: Result<i32, DecodeError>)
    ensures
        r is Ok <==> ok_req_int(entries_view(es@), name@),
        r matches Ok(i) ==> i == got_req_int(entries_view(es@), name@),
        r matches Err(e) ==> e@ == err_req(entries_view(es@), name@),
{
    match get_field(es, name) {
        None => Err(err_missing(name)),
        Some(v) => match v {
            JsonValue::Int(i) => {
                if *i >= i32::MIN as i64 && *i <= i32::MAX as i64 {
                    Ok(*i as i32)
                } else {
                    Err(err_bad(name))
                }
            },
            _ => Err(err_bad(name)),
        },
    }
}

#[verifier::loop_isolation(false)]
fn get_opt_strings(es: &Vec<(String, JsonValue)>, name: &str) -> (r: Result<
    Option<Vec<String>>,
    DecodeError,
>)
    ensures
        r is Ok <==> ok_opt_strs(entries_view(es@), name@),
        r matches Ok(x) ==> ov_strs(x) == got_opt_strs(entries_view(es@), name@),
        r matches Err(e) ==> e@ == (ErrV::BadValue { path: Seq::empty(), field: name@ }),
{
    match get_field(es, name) {
        None => Ok(None),
        Some(v) => match v {
            JsonValue::Null => Ok(None),
            JsonValue::Arr(items) => {
                proof {
                    assert(v@->Arr_0 =~= list_view(items@));
                }
                let mut out: Vec<String> = Vec::new();
                let mut i: usize = 0;
                while i < items.len()
                    invariant
                        i <= items.len(),
                        out@.len() == i,
                        forall|j: int| 0 <= j < i ==> (#[trigger] list_view(items@)[j]) is Str,
                        forall|j: int|
                            0 <= j < i ==> (#[trigger] out@[j])@ == list_view(items@)[j]->Str_0,
                    decreases items.len() - i,
                {
                    match &items[i] {
                        JsonValue::Str(s) => {
                            out.push(s.clone());
                        },
                        _ => {
                            proof {
                                let a = v@->Arr_0;
                                assert(a[i as int] == list_view(items@)[i as int]);
                                assert(!(a[i as int] is Str));
                                assert(!ok_opt_strs(entries_view(es@), name@));
                            }
                            return Err(err_bad(name));
                        },
                    }
                    i += 1;
                }
                proof {
                    assert(ov_strs(Some(out)) matches Some(g) && got_opt_strs(
                        entries_view(es@),
                        name@,
                    ) matches Some(h) && g =~= h);
                }
                Ok(Some(out))
            },
            _ => Err(err_bad(name)),
        },
    }
}

// ---- XmlNamespace ----

pub open spec fn is_xmlns_field(n: Seq<char>) -> bool {
    n == "prefix"@ || n == "uri"@
}

pub open spec fn xmlns_allowed() -> spec_fn(Seq<char>) -> bool {
    |n: Seq<char>| is_xmlns_field(n)
}

fn is_xmlns_name(k: &str) -> (r: bool)
    ensures
        r == is_xmlns_field(k@),
{
    str_eq(k, "prefix") || str_eq(k, "uri")
}

#[verifier::loop_isolation(false)]
fn check_unknown_xmlns(es: &Vec<(String, JsonValue)>) -> (r: Result<(), DecodeError>)
    ensures
        r is Ok <==> first_unknown(entries_view(es@), xmlns_allowed()) is None,
        r matches Err(e) ==> first_unknown(entries_view(es@), xmlns_allowed()) matches Some(k)
            && e@ == (ErrV::UnknownField { path: Seq::empty(), field: k }),
{
    let mut i: usize = 0;
    while i < es.len()
        invariant
            i <= es.len(),
            forall|j: int| 0 <= j < i ==> is_xmlns_field((#[trigger] entries_view(es@)[j]).0),
        decreases es.len() - i,
    {
        if !is_xmlns_name(es[i].0.as_str()) {
            proof {
                lemma_first_unknown_at(entries_view(es@), xmlns_allowed(), i as int);
                assert(path_view(Seq::<String>::empty()) =~= Seq::<Seq<char>>::empty());
            }
            return Err(DecodeError::UnknownField { path: Vec::new(), field: es[i].0.clone() });
        }
        i += 1;
    }
    proof {
        lemma_first_unknown_none(entries_view(es@), xmlns_allowed());
    }
    Ok(())
}

pub open spec fn ok_xml_namespace(v: JsonVal) -> bool {
    &&& v is Obj
    &&& first_unknown(v->Obj_0, xmlns_allowed()) is None
    &&& ok_opt_str(v->Obj_0, "prefix"@)
    &&& ok_req_str(v->Obj_0, "uri"@)
}

pub open spec fn rel_xml_namespace(v: JsonVal, x: XmlNamespace) -> bool {
    &&& ov_str(x.prefix) == got_opt_str(v->Obj_0, "prefix"@)
    &&& Some(x.uri@) == got_opt_str(v->Obj_0, "uri"@)
}

pub open spec fn err_xml_namespace(v: JsonVal) -> ErrV {
    if !(v is Obj) {
        ErrV::NotObject { path: Seq::empty() }
    } else {
        let es = v->Obj_0;
        if first_unknown(es, xmlns_allowed()) is Some {
            ErrV::UnknownField {
                path: Seq::empty(),
                field: first_unknown(es, xmlns_allowed())->Some_0,
            }
        } else if !ok_opt_str(es, "prefix"@) {
            ErrV::BadValue { path: Seq::empty(), field: "prefix"@ }
        } else {
            err_req(es, "uri"@)
        }
    }
}

pub fn decode_xml_namespace(v: &JsonValue) -> (r: Result<XmlNamespace, DecodeError>)
    ensures
        r is Ok <==> ok_xml_namespace(v@),
        r matches Ok(x) ==> rel_xml_namespace(v@, x),
        r matches Err(e) ==> e@ == err_xml_namespace(v@),
{
    let es = match get_obj(v) {
        Ok(es) => es,
        Err(e) => {
            return Err(e);
        },
    };
    match check_unknown_xmlns(es) {
        Ok(()) => {},
        Err(e) => {
            return Err(e);
        },
    }
    let prefix = match get_opt_string(es, "prefix") {
        Ok(x) => x,
        Err(e) => {
            return Err(e);
        },
    };
    let uri = match get_req_string(es, "uri") {
        Ok(x) => x,
        Err(e) => {
            return Err(e);
        },
    };
    Ok(XmlNamespace { prefix, uri })
}

// ---- Error ----

pub open spec fn is_error_field(n: Seq<char>) -> bool {
    n == "code"@ || n == "httpStatusCode"@ || n == "senderFault"@
}

pub open spec fn error_allowed() -> spec_fn(Seq<char>) -> bool {
    |n: Seq<char>| is_error_field(n)
}

fn is_error_name(k: &str) -> (r: bool)
    ensures
        r == is_error_field(k@),
{
    str_eq(k, "code") || str_eq(k, "httpStatusCode") || str_eq(k, "senderFault")
}

#[verifier::loop_isolation(false)]
fn check_unknown_error(es: &Vec<(String, JsonValue)>) -> (r: Result<(), DecodeError>)
    ensures
        r is Ok <==> first_unknown(entries_view(es@), error_allowed()) is None,
        r matches Err(e) ==> first_unknown(entries_view(es@), error_allowed()) matches Some(k)
            && e@ == (ErrV::UnknownField { path: Seq::empty(), field: k }),
{
    let mut i: usize = 0;
    while i < es.len()
        invariant
            i <= es.len(),
            forall|j: int| 0 <= j < i ==> is_error_field((#[trigger] entries_view(es@)[j]).0),
        decreases es.len() - i,
    {
        if !is_error_name(es[i].0.as_str()) {
            proof {
                lemma_first_unknown_at(entries_view(es@), error_allowed(), i as int);
                assert(path_view(Seq::<String>::empty()) =~= Seq::<Seq<char>>::empty());
            }
            return Err(DecodeError::UnknownField { path: Vec::new(), field: es[i].0.clone() });
        }
        i += 1;
    }
    proof {
        lemma_first_unknown_none(entries_view(es@), error_allowed());
    }
    Ok(())
}

pub open spec fn ok_error(v: JsonVal) -> bool {
    &&& v is Obj
    &&& first_unknown(v->Obj_0, error_allowed()) is None
    &&& ok_opt_str(v->Obj_0, "code"@)
    &&& ok_req_int(v->Obj_0, "httpStatusCode"@)
    &&& ok_opt_bool(v->Obj_0, "senderFault"@)
}

pub open spec fn rel_error(v: JsonVal, x: Error) -> bool {
    &&& ov_str(x.code) == got_opt_str(v->Obj_0, "code"@)
    &&& x.http_status_code == got_req_int(v->Obj_0, "httpStatusCode"@)
    &&& x.sender_fault == got_opt_bool(v->Obj_0, "senderFault"@)
}

pub open spec fn err_error(v: JsonVal) -> ErrV {
    if !(v is Obj) {
        ErrV::NotObject { path: Seq::empty() }
    } else {
        let es = v->Obj_0;
        if first_unknown(es, error_allowed()) is Some {
            ErrV::UnknownField {
                path: Seq::empty(),
                field: first_unknown(es, error_allowed())->Some_0,
            }
        } else if !ok_opt_str(es, "code"@) {
            ErrV::BadValue { path: Seq::empty(), field: "code"@ }
        } else if !ok_req_int(es, "httpStatusCode"@) {
            err_req(es, "httpStatusCode"@)
        } else {
            ErrV::BadValue { path: Seq::empty(), field: "senderFault"@ }
        }
    }
}

pub fn decode_error(v: &JsonValue) -> (r: Result<Error, DecodeError>)
    ensures
        r is Ok <==> ok_error(v@),
        r matches Ok(x) ==> rel_error(v@, x),
        r matches Err(e) ==> e@ == err_error(v@),
{
    let es = match get_obj(v) {
        Ok(es) => es,
        Err(e) => {
            return Err(e);
        },
    };
    match check_unknown_error(es) {
        Ok(()) => {},
        Err(e) => {
            return Err(e);
        },
    }
    let code = match get_opt_string(es, "code") {
        Ok(x) => x,
        Err(e) => {
            return Err(e);
        },
    };
    let http_status_code = match get_req_i32(es, "httpStatusCode") {
        Ok(x) => x,
        Err(e) => {
            return Err(e);
        },
    };
    let sender_fault = match get_opt_bool(es, "senderFault") {
        Ok(x) => x,
        Err(e) => {
            return Err(e);
        },
    };
    Ok(Error { code, http_status_code, sender_fault })
}

// ---- HttpOperation ----

pub open spec fn is_http_field(n: Seq<char>) -> bool {
    n == "method"@ || n == "requestUri"@ || n == "responseCode"@
}

pub open spec fn http_allowed() -> spec_fn(Seq<char>) -> bool {
    |n: Seq<char>| is_http_field(n)
}

fn is_http_name(k: &str) -> (r: bool)
    ensures
        r == is_http_field(k@),
{
    str_eq(k, "method") || str_eq(k, "requestUri") || str_eq(k, "responseCode")
}

#[verifier::loop_isolation(false)]
fn check_unknown_http(es: &Vec<(String, JsonValue)>) -> (r: Result<(), DecodeError>)
    ensures
        r is Ok <==> first_unknown(entries_view(es@), http_allowed()) is None,
        r matches Err(e) ==> first_unknown(entries_view(es@), http_allowed()) matches Some(k)
            && e@ == (ErrV::UnknownField { path: Seq::empty(), field: k }),
{
    let mut i: usize = 0;
    while i < es.len()
        invariant
            i <= es.len(),
            forall|j: int| 0 <= j < i ==> is_http_field((#[trigger] entries_view(es@)[j]).0),
        decreases es.len() - i,
    {
        if !is_http_name(es[i].0.as_str()) {
            proof {
                lemma_first_unknown_at(entries_view(es@), http_allowed(), i as int);
                assert(path_view(Seq::<String>::empty()) =~= Seq::<Seq<char>>::empty());
            }
            return Err(DecodeError::UnknownField { path: Vec::new(), field: es[i].0.clone() });
        }
        i += 1;
    }
    proof {
        lemma_first_unknown_none(entries_view(es@), http_allowed());
    }
    Ok(())
}

pub open spec fn ok_http_operation(v: JsonVal) -> bool {
    &&& v is Obj
    &&& first_unknown(v->Obj_0, http_allowed()) is None
    &&& ok_req_str(v->Obj_0, "method"@)
    &&& ok_req_str(v->Obj_0, "requestUri"@)
    &&& ok_opt_int(v->Obj_0, "responseCode"@)
}

pub open spec fn rel_http_operation(v: JsonVal, x: HttpOperation) -> bool {
    &&& Some(x.method@) == got_opt_str(v->Obj_0, "method"@)
    &&& Some(x.request_uri@) == got_opt_str(v->Obj_0, "requestUri"@)
    &&& x.response_code == got_opt_int(v->Obj_0, "responseCode"@)
}

pub open spec fn err_http_operation(v: JsonVal) -> ErrV {
    if !(v is Obj) {
        ErrV::NotObject { path: Seq::empty() }
    } else {
        let es = v->Obj_0;
        if first_unknown(es, http_allowed()) is Some {
            ErrV::UnknownField {
                path: Seq::empty(),
                field: first_unknown(es, http_allowed())->Some_0,
            }
        } else if !ok_req_str(es, "method"@) {
            err_req(es, "method"@)
        } else if !ok_req_str(es, "requestUri"@) {
            err_req(es, "requestUri"@)
        } else {
            ErrV::BadValue { path: Seq::empty(), field: "responseCode"@ }
        }
    }
}

pub fn decode_http_operation(v: &JsonValue) -> (r: Result<HttpOperation, DecodeError>)
    ensures
        r is Ok <==> ok_http_operation(v@),
        r matches Ok(x) ==> rel_http_operation(v@, x),
        r matches Err(e) ==> e@ == err_http_operation(v@),
{
    let es = match get_obj(v) {
        Ok(es) => es,
        Err(e) => {
            return Err(e);
        },
    };
    match check_unknown_http(es) {
        Ok(()) => {},
        Err(e) => {
            return Err(e);
        },
    }
    let method = match get_req_string(es, "method") {
        Ok(x) => x,
        Err(e) => {
            return Err(e);
        },
    };
    let request_uri = match get_req_string(es, "requestUri") {
        Ok(x) => x,
        Err(e) => {
            return Err(e);
        },
    };
    let response_code = match get_opt_i32(es, "responseCode") {
        Ok(x) => x,
        Err(e) => {
            return Err(e);
        },
    };
    Ok(HttpOperation { method, request_uri, response_code })
}

// ---- EndpointDiscovery ----

pub open spec fn ed_allowed() -> spec_fn(Seq<char>) -> bool {
    |n: Seq<char>| false
}

#[verifier::loop_isolation(false)]
fn check_unknown_ed(es: &Vec<(String, JsonValue)>) -> (r: Result<(), DecodeError>)
    ensures
        r is Ok <==> first_unknown(entries_view(es@), ed_allowed()) is None,
        r matches Err(e) ==> first_unknown(entries_view(es@), ed_allowed()) matches Some(k) && e@
            == (ErrV::UnknownField { path: Seq::empty(), field: k }),
{
    if es.len() > 0 {
        proof {
            lemma_first_unknown_at(entries_view(es@), ed_allowed(), 0);
            assert(path_view(Seq::<String>::empty()) =~= Seq::<Seq<char>>::empty());
        }
        return Err(DecodeError::UnknownField { path: Vec::new(), field: es[0].0.clone() });
    }
    proof {
        lemma_first_unknown_none(entries_view(es@), ed_allowed());
    }
    Ok(())
}

pub open spec fn ok_endpoint_discovery(v: JsonVal) -> bool {
    &&& v is Obj
    &&& first_unknown(v->Obj_0, ed_allowed()) is None
}

pub open spec fn err_endpoint_discovery(v: JsonVal) -> ErrV {
    if !(v is Obj) {
        ErrV::NotObject { path: Seq::empty() }
    } else {
        ErrV::UnknownField {
            path: Seq::empty(),
            field: first_unknown(v->Obj_0, ed_allowed())->Some_0,
        }
    }
}

pub fn decode_endpoint_discovery(v: &JsonValue) -> (r: Result<EndpointDiscovery, DecodeError>)
    ensures
        r is Ok <==> ok_endpoint_discovery(v@),
        r matches Err(e) ==> e@ == err_endpoint_discovery(v@),
{
    let es = match get_obj(v) {
        Ok(es) => es,
        Err(e) => {
            return Err(e);
        },
    };
    match check_unknown_ed(es) {
        Ok(()) => {},
        Err(e) => {
            return Err(e);
        },
    }
    Ok(EndpointDiscovery {  })
}


pub open spec fn rel_endpoint_discovery(v: JsonVal, x: EndpointDiscovery) -> bool {
    true
}


pub open spec fn list_ok_refs(a: Seq<JsonVal>) -> bool {
    forall|i: int| 0 <= i < a.len() ==> ok_shape_ref(#[trigger] a[i])
}

pub open spec fn list_err_refs(a: Seq<JsonVal>) -> ErrV
    decreases a.len(),
{
    if a.len() == 0 {
        ErrV::NotObject { path: Seq::empty() }
    } else if !ok_shape_ref(a[0]) {
        err_shape_ref(a[0])
    } else {
        list_err_refs(a.skip(1))
    }
}

pub open spec fn list_rel_refs(a: Seq<JsonVal>, l: Seq<ShapeRef>) -> bool {
    &&& l.len() == a.len()
    &&& forall|i: int| 0 <= i < a.len() ==> rel_shape_ref(#[trigger] a[i], l[i])
}

proof fn lemma_list_err_refs(a: Seq<JsonVal>, i: int)
    requires
        0 <= i < a.len(),
        !ok_shape_ref(a[i]),
        forall|j: int| 0 <= j < i ==> ok_shape_ref(#[trigger] a[j]),
    ensures
        list_err_refs(a) == err_shape_ref(a[i]),
    decreases i,
{
    if i > 0 {
        lemma_list_err_refs(a.skip(1), i - 1);
    }
}

#[verifier::loop_isolation(false)]
fn decode_ref_list(items: &Vec<JsonValue>) -> (r: Result<Vec<ShapeRef>, DecodeError>)
    ensures
        r is Ok <==> list_ok_refs(list_view(items@)),
        r matches Ok(l) ==> list_rel_refs(list_view(items@), l@),
        r matches Err(e) ==> e@ == list_err_refs(list_view(items@)),
{
    let mut out: Vec<ShapeRef> = Vec::new();
    let mut i: usize = 0;
    while i < items.len()
        invariant
            i <= items.len(),
            out@.len() == i,
            forall|j: int| 0 <= j < i ==> ok_shape_ref(#[trigger] list_view(items@)[j]),
            forall|j: int| 0 <= j < i ==> rel_shape_ref(list_view(items@)[j], #[trigger] out@[j]),
        decreases items.len() - i,
    {
        match decode_shape_ref(&items[i]) {
            Ok(x) => {
                out.push(x);
            },
            Err(e) => {
                proof {
                    lemma_list_err_refs(list_view(items@), i as int);
                }
                return Err(e);
            },
        }
        i += 1;
    }
    Ok(out)
}


/// Walks a map object's entries in order: the first key bound twice or
/// the first failing value decides the error.
pub open spec fn map_scan_shape_ref(es: Seq<(Seq<char>, JsonVal)>, seen: Set<Seq<char>>) -> Option<ErrV>
    decreases es.len(),
{
    if es.len() == 0 {
        None
    } else if seen.contains(es[0].0) {
        Some(ErrV::DuplicateKey { path: Seq::empty(), field: es[0].0 })
    } else if !ok_shape_ref(es[0].1) {
        Some(err_prepend(err_shape_ref(es[0].1), es[0].0))
    } else {
        map_scan_shape_ref(es.skip(1), seen.insert(es[0].0))
    }
}


pub open spec fn map_ok_shape_ref(es: Seq<(Seq<char>, JsonVal)>) -> bool {
    map_scan_shape_ref(es, Set::empty()) is None
}

pub open spec fn map_err_shape_ref(es: Seq<(Seq<char>, JsonVal)>) -> ErrV {
    map_scan_shape_ref(es, Set::empty())->Some_0
}

pub open spec fn map_rel_shape_ref(es: Seq<(Seq<char>, JsonVal)>, m: Seq<(String, ShapeRef)>) -> bool {
    &&& m.len() == es.len()
    &&& forall|i: int|
        0 <= i < es.len() ==> (#[trigger] m[i]).0@ == es[i].0 && rel_shape_ref(es[i].1, m[i].1)
}

#[verifier::loop_isolation(false)]
fn decode_shape_ref_map(pairs: &Vec<(String, JsonValue)>) -> (r: Result<
    Vec<(String, ShapeRef)>,
    DecodeError,
>)
    ensures
        r is Ok <==> map_ok_shape_ref(entries_view(pairs@)),
        r matches Ok(m) ==> map_rel_shape_ref(entries_view(pairs@), m@),
        r matches Err(e) ==> e@ == map_err_shape_ref(entries_view(pairs@)),
{
    let ghost full = entries_view(pairs@);
    proof {
        assert(full.skip(0) =~= full);
    }
    let mut out: Vec<(String, ShapeRef)> = Vec::new();
    let ghost mut seen: Set<Seq<char>> = Set::empty();
    let mut i: usize = 0;
    while i < pairs.len()
        invariant
            i <= pairs.len(),
            out@.len() == i,
            map_scan_shape_ref(full, Set::empty()) == map_scan_shape_ref(full.skip(i as int), seen),
            forall|n: Seq<char>|
                #[trigger] seen.contains(n) ==> exists|j: int| 0 <= j < i && full[j].0 == n,
            forall|j: int| 0 <= j < i ==> seen.contains((#[trigger] full[j]).0),
            forall|j: int|
                0 <= j < i ==> (#[trigger] out@[j]).0@ == full[j].0 && rel_shape_ref(full[j].1, out@[j].1),
        decreases pairs.len() - i,
    {
        let key = pairs[i].0.clone();
        proof {
            assert(full.skip(i as int)[0] == full[i as int]);
            assert(full[i as int] == (pairs@[i as int].0@, pairs@[i as int].1@));
        }
        if contains_key(&out, key.as_str()) {
            proof {
                assert(seen.contains(full[i as int].0));
                assert(path_view(Seq::<String>::empty()) =~= Seq::<Seq<char>>::empty());
            }
            return Err(DecodeError::DuplicateKey { path: Vec::new(), field: key });
        }
        proof {
            if seen.contains(full[i as int].0) {
                let j = choose|j: int| 0 <= j < i && full[j].0 == full[i as int].0;
                assert(out@[j].0@ == full[j].0);
                assert(false);
            }
        }
        match decode_shape_ref(&pairs[i].1) {
            Ok(x) => {
                out.push((key, x));
                proof {
                    assert(full.skip(i as int).skip(1) =~= full.skip(i as int + 1));
                    seen = seen.insert(full[i as int].0);
                }
            },
            Err(e) => {
                return Err(prepend(e, key.as_str()));
            },
        }
        i += 1;
    }
    proof {
        assert(full.skip(pairs@.len() as int) =~= Seq::<(Seq<char>, JsonVal)>::empty());
    }
    Ok(out)
}

/// Walks a map object's entries in order: the first key bound twice or
/// the first failing value decides the error.
pub open spec fn map_scan_operation(es: Seq<(Seq<char>, JsonVal)>, seen: Set<Seq<char>>) -> Option<ErrV>
    decreases es.len(),
{
    if es.len() == 0 {
        None
    } else if seen.contains(es[0].0) {
        Some(ErrV::DuplicateKey { path: Seq::empty(), field: es[0].0 })
    } else if !ok_operation(es[0].1) {
        Some(err_prepend(err_operation(es[0].1), es[0].0))
    } else {
        map_scan_operation(es.skip(1), seen.insert(es[0].0))
    }
}

pub open spec fn map_ok_operation(es: Seq<(Seq<char>, JsonVal)>) -> bool {
    map_scan_operation(es, Set::empty()) is None
}

pub open spec fn map_err_operation(es: Seq<(Seq<char>, JsonVal)>) -> ErrV {
    map_scan_operation(es, Set::empty())->Some_0
}

pub open spec fn map_rel_operation(es: Seq<(Seq<char>, JsonVal)>, m: Seq<(String, Operation)>) -> bool {
    &&& m.len() == es.len()
    &&& forall|i: int|
        0 <= i < es.len() ==> (#[trigger] m[i]).0@ == es[i].0 && rel_operation(es[i].1, m[i].1)
}

#[verifier::loop_isolation(false)]
fn decode_operation_map(pairs: &Vec<(String, JsonValue)>) -> (r: Result<
    Vec<(String, Operation)>,
    DecodeError,
>)
    ensures
        r is Ok <==> map_ok_operation(entries_view(pairs@)),
        r matches Ok(m) ==> map_rel_operation(entries_view(pairs@), m@),
        r matches Err(e) ==> e@ == map_err_operation(entries_view(pairs@)),
{
    let ghost full = entries_view(pairs@);
    proof {
        assert(full.skip(0) =~= full);
    }
    let mut out: Vec<(String, Operation)> = Vec::new();
    let ghost mut seen: Set<Seq<char>> = Set::empty();
    let mut i: usize = 0;
    while i < pairs.len()
        invariant
            i <= pairs.len(),
            out@.len() == i,
            map_scan_operation(full, Set::empty()) == map_scan_operation(full.skip(i as int), seen),
            forall|n: Seq<char>|
                #[trigger] seen.contains(n) ==> exists|j: int| 0 <= j < i && full[j].0 == n,
            forall|j: int| 0 <= j < i ==> seen.contains((#[trigger] full[j]).0),
            forall|j: int|
                0 <= j < i ==> (#[trigger] out@[j]).0@ == full[j].0 && rel_operation(full[j].1, out@[j].1),
        decreases pairs.len() - i,
    {
        let key = pairs[i].0.clone();
        proof {
            assert(full.skip(i as int)[0] == full[i as int]);
            assert(full[i as int] == (pairs@[i as int].0@, pairs@[i as int].1@));
        }
        if contains_key(&out, key.as_str()) {
            proof {
                assert(seen.contains(full[i as int].0));
                assert(path_view(Seq::<String>::empty()) =~= Seq::<Seq<char>>::empty());
            }
            return Err(DecodeError::DuplicateKey { path: Vec::new(), field: key });
        }
        proof {
            if seen.contains(full[i as int].0) {
                let j = choose|j: int| 0 <= j < i && full[j].0 == full[i as int].0;
                assert(out@[j].0@ == full[j].0);
                assert(false);
            }
        }
        match decode_operation(&pairs[i].1) {
            Ok(x) => {
                out.push((key, x));
                proof {
                    assert(full.skip(i as int).skip(1) =~= full.skip(i as int + 1));
                    seen = seen.insert(full[i as int].0);
                }
            },
            Err(e) => {
                return Err(prepend(e, key.as_str()));
            },
        }
        i += 1;
    }
    proof {
        assert(full.skip(pairs@.len() as int) =~= Seq::<(Seq<char>, JsonVal)>::empty());
    }
    Ok(out)
}

/// Walks a map object's entries in order: the first key bound twice or
/// the first failing value decides the error.
pub open spec fn map_scan_shape(es: Seq<(Seq<char>, JsonVal)>, seen: Set<Seq<char>>) -> Option<ErrV>
    decreases es.len(),
{
    if es.len() == 0 {
        None
    } else if seen.contains(es[0].0) {
        Some(ErrV::DuplicateKey { path: Seq::empty(), field: es[0].0 })
    } else if !ok_shape(es[0].1) {
        Some(err_prepend(err_shape(es[0].1), es[0].0))
    } else {
        map_scan_shape(es.skip(1), seen.insert(es[0].0))
    }
}

pub open spec fn map_ok_shape(es: Seq<(Seq<char>, JsonVal)>) -> bool {
    map_scan_shape(es, Set::empty()) is None
}

pub open spec fn map_err_shape(es: Seq<(Seq<char>, JsonVal)>) -> ErrV {
    map_scan_shape(es, Set::empty())->Some_0
}

pub open spec fn map_rel_shape(es: Seq<(Seq<char>, JsonVal)>, m: Seq<(String, Shape)>) -> bool {
    &&& m.len() == es.len()
    &&& forall|i: int|
        0 <= i < es.len() ==> (#[trigger] m[i]).0@ == es[i].0 && rel_shape(es[i].1, m[i].1)
}

#[verifier::loop_isolation(false)]
fn decode_shape_map(pairs: &Vec<(String, JsonValue)>) -> (r: Result<
    Vec<(String, Shape)>,
    DecodeError,
>)
    ensures
        r is Ok <==> map_ok_shape(entries_view(pairs@)),
        r matches Ok(m) ==> map_rel_shape(entries_view(pairs@), m@),
        r matches Err(e) ==> e@ == map_err_shape(entries_view(pairs@)),
{
    let ghost full = entries_view(pairs@);
    proof {
        assert(full.skip(0) =~= full);
    }
    let mut out: Vec<(String, Shape)> = Vec::new();
    let ghost mut seen: Set<Seq<char>> = Set::empty();
    let mut i: usize = 0;
    while i < pairs.len()
        invariant
            i <= pairs.len(),
            out@.len() == i,
            map_scan_shape(full, Set::empty()) == map_scan_shape(full.skip(i as int), seen),
            forall|n: Seq<char>|
                #[trigger] seen.contains(n) ==> exists|j: int| 0 <= j < i && full[j].0 == n,
            forall|j: int| 0 <= j < i ==> seen.contains((#[trigger] full[j]).0),
            forall|j: int|
                0 <= j < i ==> (#[trigger] out@[j]).0@ == full[j].0 && rel_shape(full[j].1, out@[j].1),
        decreases pairs.len() - i,
    {
        let key = pairs[i].0.clone();
        proof {
            assert(full.skip(i as int)[0] == full[i as int]);
            assert(full[i as int] == (pairs@[i as int].0@, pairs@[i as int].1@));
        }
        if contains_key(&out, key.as_str()) {
            proof {
                assert(seen.contains(full[i as int].0));
                assert(path_view(Seq::<String>::empty()) =~= Seq::<Seq<char>>::empty());
            }
            return Err(DecodeError::DuplicateKey { path: Vec::new(), field: key });
        }
        proof {
            if seen.contains(full[i as int].0) {
                let j = choose|j: int| 0 <= j < i && full[j].0 == full[i as int].0;
                assert(out@[j].0@ == full[j].0);
                assert(false);
            }
        }
        match decode_shape(&pairs[i].1) {
            Ok(x) => {
                out.push((key, x));
                proof {
                    assert(full.skip(i as int).skip(1) =~= full.skip(i as int + 1));
                    seen = seen.insert(full[i as int].0);
                }
            },
            Err(e) => {
                return Err(prepend(e, key.as_str()));
            },
        }
        i += 1;
    }
    proof {
        assert(full.skip(pairs@.len() as int) =~= Seq::<(Seq<char>, JsonVal)>::empty());
    }
    Ok(out)
}


// ---- Metadata ----

pub open spec fn is_metadata_field(n: Seq<char>) -> bool {
    n == "apiVersion"@ || n == "jsonVersion"@ || n == "endpointPrefix"@ || n == "globalEndpoint"@ || n == "protocol"@ || n == "serviceAbbreviation"@ || n == "serviceFullName"@ || n == "serviceId"@ || n == "checksumFormat"@ || n == "timestampFormat"@ || n == "signatureVersion"@ || n == "signingName"@ || n == "targetPrefix"@ || n == "xmlNamespace"@ || n == "uid"@
}

pub open spec fn metadata_allowed() -> spec_fn(Seq<char>) -> bool {
    |n: Seq<char>| is_metadata_field(n)
}


fn is_metadata_name(k: &str) -> (r: bool)
    ensures
        r == is_metadata_field(k@),
{
    str_eq(k, "apiVersion") || str_eq(k, "jsonVersion") || str_eq(k, "endpointPrefix") || str_eq(k, "globalEndpoint") || str_eq(k, "protocol") || str_eq(k, "serviceAbbreviation") || str_eq(k, "serviceFullName") || str_eq(k, "serviceId") || str_eq(k, "checksumFormat") || str_eq(k, "timestampFormat") || str_eq(k, "signatureVersion") || str_eq(k, "signingName") || str_eq(k, "targetPrefix") || str_eq(k, "xmlNamespace") || str_eq(k, "uid")
}

#[verifier::loop_isolation(false)]
fn check_unknown_metadata(es: &Vec<(String, JsonValue)>) -> (r: Result<(), DecodeError>)
    ensures
        r is Ok <==> first_unknown(entries_view(es@), metadata_allowed()) is None,
        r matches Err(e) ==> first_unknown(entries_view(es@), metadata_allowed()) matches Some(k)
            && e@ == (ErrV::UnknownField { path: Seq::empty(), field: k }),
{
    let mut i: usize = 0;
    while i < es.len()
        invariant
            i <= es.len(),
            forall|j: int| 0 <= j < i ==> is_metadata_field((#[trigger] entries_view(es@)[j]).0),
        decreases es.len() - i,
    {
        if !is_metadata_name(es[i].0.as_str()) {
            proof {
                lemma_first_unknown_at(entries_view(es@), metadata_allowed(), i as int);
                assert(path_view(Seq::<String>::empty()) =~= Seq::<Seq<char>>::empty());
            }
            return Err(DecodeError::UnknownField { path: Vec::new(), field: es[i].0.clone() });
        }
        i += 1;
    }
    proof {
        lemma_first_unknown_none(entries_view(es@), metadata_allowed());
    }
    Ok(())
}


pub open spec fn ok_metadata(v: JsonVal) -> bool {
    let es = v->Obj_0;
    &&& v is Obj
    &&& first_unknown(v->Obj_0, metadata_allowed()) is None
    &&& ok_opt_str(es, "apiVersion"@)
    &&& ok_opt_str(es, "jsonVersion"@)
    &&& ok_opt_str(es, "endpointPrefix"@)
    &&& ok_opt_str(es, "globalEndpoint"@)
    &&& ok_opt_str(es, "protocol"@)
    &&& ok_opt_str(es, "serviceAbbreviation"@)
    &&& ok_opt_str(es, "serviceFullName"@)
    &&& ok_opt_str(es, "serviceId"@)
    &&& ok_opt_str(es, "checksumFormat"@)
    &&& ok_opt_str(es, "timestampFormat"@)
    &&& ok_opt_str(es, "signatureVersion"@)
    &&& ok_opt_str(es, "signingName"@)
    &&& ok_opt_str(es, "targetPrefix"@)
    &&& ok_opt_str(es, "xmlNamespace"@)
    &&& ok_opt_str(es, "uid"@)
}


pub open spec fn rel_metadata(v: JsonVal, x: Metadata) -> bool {
    let es = v->Obj_0;
    &&& ov_str(x.api_version) == got_opt_str(es, "apiVersion"@)
    &&& ov_str(x.json_version) == got_opt_str(es, "jsonVersion"@)
    &&& ov_str(x.endpoint_prefix) == got_opt_str(es, "endpointPrefix"@)
    &&& ov_str(x.global_endpoint) == got_opt_str(es, "globalEndpoint"@)
    &&& ov_str(x.protocol) == got_opt_str(es, "protocol"@)
    &&& ov_str(x.service_abbreviation) == got_opt_str(es, "serviceAbbreviation"@)
    &&& ov_str(x.service_full_name) == got_opt_str(es, "serviceFullName"@)
    &&& ov_str(x.service_id) == got_opt_str(es, "serviceId"@)
    &&& ov_str(x.checksum_format) == got_opt_str(es, "checksumFormat"@)
    &&& ov_str(x.timestamp_format) == got_opt_str(es, "timestampFormat"@)
    &&& ov_str(x.signature_version) == got_opt_str(es, "signatureVersion"@)
    &&& ov_str(x.signing_name) == got_opt_str(es, "signingName"@)
    &&& ov_str(x.target_prefix) == got_opt_str(es, "targetPrefix"@)
    &&& ov_str(x.xml_namespace) == got_opt_str(es, "xmlNamespace"@)
    &&& ov_str(x.uid) == got_opt_str(es, "uid"@)
}


pub open spec fn err_metadata(v: JsonVal) -> ErrV {
    if !(v is Obj) {
        ErrV::NotObject { path: Seq::empty() }
    } else {
        let es = v->Obj_0;
        if first_unknown(es, metadata_allowed()) is Some {
            ErrV::UnknownField {
                path: Seq::empty(),
                field: first_unknown(es, metadata_allowed())->Some_0,
            }
        } else if !ok_opt_str(es, "apiVersion"@) {
            ErrV::BadValue { path: Seq::empty(), field: "apiVersion"@ }
        } else if !ok_opt_str(es, "jsonVersion"@) {
            ErrV::BadValue { path: Seq::empty(), field: "jsonVersion"@ }
        } else if !ok_opt_str(es, "endpointPrefix"@) {
            ErrV::BadValue { path: Seq::empty(), field: "endpointPrefix"@ }
        } else if !ok_opt_str(es, "globalEndpoint"@) {
            ErrV::BadValue { path: Seq::empty(), field: "globalEndpoint"@ }
        } else if !ok_opt_str(es, "protocol"@) {
            ErrV::BadValue { path: Seq::empty(), field: "protocol"@ }
        } else if !ok_opt_str(es, "serviceAbbreviation"@) {
            ErrV::BadValue { path: Seq::empty(), field: "serviceAbbreviation"@ }
        } else if !ok_opt_str(es, "serviceFullName"@) {
            ErrV::BadValue { path: Seq::empty(), field: "serviceFullName"@ }
        } else if !ok_opt_str(es, "serviceId"@) {
            ErrV::BadValue { path: Seq::empty(), field: "serviceId"@ }
        } else if !ok_opt_str(es, "checksumFormat"@) {
            ErrV::BadValue { path: Seq::empty(), field: "checksumFormat"@ }
        } else if !ok_opt_str(es, "timestampFormat"@) {
            ErrV::BadValue { path: Seq::empty(), field: "timestampFormat"@ }
        } else if !ok_opt_str(es, "signatureVersion"@) {
            ErrV::BadValue { path: Seq::empty(), field: "signatureVersion"@ }
        } else if !ok_opt_str(es, "signingName"@) {
            ErrV::BadValue { path: Seq::empty(), field: "signingName"@ }
        } else if !ok_opt_str(es, "targetPrefix"@) {
            ErrV::BadValue { path: Seq::empty(), field: "targetPrefix"@ }
        } else if !ok_opt_str(es, "xmlNamespace"@) {
            ErrV::BadValue { path: Seq::empty(), field: "xmlNamespace"@ }
        } else {
            ErrV::BadValue { path: Seq::empty(), field: "uid"@ }
        }
    }
}


#[verifier::rlimit(60)]
pub fn decode_metadata(v: &JsonValue) -> (r: Result<Metadata, DecodeError>)
    ensures
        r is Ok <==> ok_metadata(v@),
        r matches Ok(x) ==> rel_metadata(v@, x),
        r matches Err(e) ==> e@ == err_metadata(v@),
{
    let es = match get_obj(v) {
        Ok(es) => es,
        Err(e) => {
            return Err(e);
        },
    };
    match check_unknown_metadata(es) {
        Ok(()) => {},
        Err(e) => {
            return Err(e);
        },
    }
    let api_version = match get_opt_string(es, "apiVersion") {
        Ok(x) => x,
        Err(e) => {
            return Err(e);
        },
    };
    let json_version = match get_opt_string(es, "jsonVersion") {
        Ok(x) => x,
        Err(e) => {
            return Err(e);
        },
    };
    let endpoint_prefix = match get_opt_string(es, "endpointPrefix") {
        Ok(x) => x,
        Err(e) => {
            return Err(e);
        },
    };
    let global_endpoint = match get_opt_string(es, "globalEndpoint") {
        Ok(x) => x,
        Err(e) => {
            return Err(e);
        },
    };
    let protocol = match get_opt_string(es, "protocol") {
        Ok(x) => x,
        Err(e) => {
            return Err(e);
        },
    };
    let service_abbreviation = match get_opt_string(es, "serviceAbbreviation") {
        Ok(x) => x,
        Err(e) => {
            return Err(e);
        },
    };
    let service_full_name = match get_opt_string(es, "serviceFullName") {
        Ok(x) => x,
        Err(e) => {
            return Err(e);
        },
    };
    let service_id = match get_opt_string(es, "serviceId") {
        Ok(x) => x,
        Err(e) => {
            return Err(e);
        },
    };
    let checksum_format = match get_opt_string(es, "checksumFormat") {
        Ok(x) => x,
        Err(e) => {
            return Err(e);
        },
    };
    let timestamp_format = match get_opt_string(es, "timestampFormat") {
        Ok(x) => x,
        Err(e) => {
            return Err(e);
        },
    };
    let signature_version = match get_opt_string(es, "signatureVersion") {
        Ok(x) => x,
        Err(e) => {
            return Err(e);
        },
    };
    let signing_name = match get_opt_string(es, "signingName") {
        Ok(x) => x,
        Err(e) => {
            return Err(e);
        },
    };
    let target_prefix = match get_opt_string(es, "targetPrefix") {
        Ok(x) => x,
        Err(e) => {
            return Err(e);
        },
    };
    let xml_namespace = match get_opt_string(es, "xmlNamespace") {
        Ok(x) => x,
        Err(e) => {
            return Err(e);
        },
    };
    let uid = match get_opt_string(es, "uid") {
        Ok(x) => x,
        Err(e) => {
            return Err(e);
        },
    };
    Ok(Metadata { api_version, json_version, endpoint_prefix, global_endpoint, protocol, service_abbreviation, service_full_name, service_id, checksum_format, timestamp_format, signature_version, signing_name, target_prefix, xml_namespace, uid })
}


// ---- Message ----

pub open spec fn is_message_field(n: Seq<char>) -> bool {
    n == "shape"@ || n == "locationName"@ || n == "xmlNamespace"@ || n == "resultWrapper"@ || n == "documentation"@
}

pub open spec fn message_allowed() -> spec_fn(Seq<char>) -> bool {
    |n: Seq<char>| is_message_field(n)
}


fn is_message_name(k: &str) -> (r: bool)
    ensures
        r == is_message_field(k@),
{
    str_eq(k, "shape") || str_eq(k, "locationName") || str_eq(k, "xmlNamespace") || str_eq(k, "resultWrapper") || str_eq(k, "documentation")
}

#[verifier::loop_isolation(false)]
fn check_unknown_message(es: &Vec<(String, JsonValue)>) -> (r: Result<(), DecodeError>)
    ensures
        r is Ok <==> first_unknown(entries_view(es@), message_allowed()) is None,
        r matches Err(e) ==> first_unknown(entries_view(es@), message_allowed()) matches Some(k)
            && e@ == (ErrV::UnknownField { path: Seq::empty(), field: k }),
{
    let mut i: usize = 0;
    while i < es.len()
        invariant
            i <= es.len(),
            forall|j: int| 0 <= j < i ==> is_message_field((#[trigger] entries_view(es@)[j]).0),
        decreases es.len() - i,
    {
        if !is_message_name(es[i].0.as_str()) {
            proof {
                lemma_first_unknown_at(entries_view(es@), message_allowed(), i as int);
                assert(path_view(Seq::<String>::empty()) =~= Seq::<Seq<char>>::empty());
            }
            return Err(DecodeError::UnknownField { path: Vec::new(), field: es[i].0.clone() });
        }
        i += 1;
    }
    proof {
        lemma_first_unknown_none(entries_view(es@), message_allowed());
    }
    Ok(())
}


pub open spec fn ok_message(v: JsonVal) -> bool {
    let es = v->Obj_0;
    &&& v is Obj
    &&& first_unknown(v->Obj_0, message_allowed()) is None
    &&& ok_req_str(es, "shape"@)
    &&& ok_opt_str(es, "locationName"@)
    &&& (child_present(es, "xmlNamespace"@) ==> ok_xml_namespace(child_val(es, "xmlNamespace"@)))
    &&& ok_opt_str(es, "resultWrapper"@)
    &&& ok_opt_str(es, "documentation"@)
}


pub open spec fn rel_message(v: JsonVal, x: Message) -> bool {
    let es = v->Obj_0;
    &&& Some(x.shape@) == got_opt_str(es, "shape"@)
    &&& ov_str(x.location_name) == got_opt_str(es, "locationName"@)
    &&& match x.xml_namespace {
        None => !child_present(es, "xmlNamespace"@),
        Some(c) => child_present(es, "xmlNamespace"@) && rel_xml_namespace(child_val(es, "xmlNamespace"@), c),
    }
    &&& ov_str(x.result_wrapper) == got_opt_str(es, "resultWrapper"@)
    &&& ov_str(x.documentation.documentation) == got_opt_str(es, "documentation"@)
}


pub open spec fn err_message(v: JsonVal) -> ErrV {
    if !(v is Obj) {
        ErrV::NotObject { path: Seq::empty() }
    } else {
        let es = v->Obj_0;
        if first_unknown(es, message_allowed()) is Some {
            ErrV::UnknownField {
                path: Seq::empty(),
                field: first_unknown(es, message_allowed())->Some_0,
            }
        } else if !ok_req_str(es, "shape"@) {
            err_req(es, "shape"@)
        } else if !ok_opt_str(es, "locationName"@) {
            ErrV::BadValue { path: Seq::empty(), field: "locationName"@ }
        } else if child_present(es, "xmlNamespace"@) && !ok_xml_namespace(child_val(es, "xmlNamespace"@)) {
            err_prepend(err_xml_namespace(child_val(es, "xmlNamespace"@)), "xmlNamespace"@)
        } else if !ok_opt_str(es, "resultWrapper"@) {
            ErrV::BadValue { path: Seq::empty(), field: "resultWrapper"@ }
        } else {
            ErrV::BadValue { path: Seq::empty(), field: "documentation"@ }
        }
    }
}


#[verifier::rlimit(60)]
pub fn decode_message(v: &JsonValue) -> (r: Result<Message, DecodeError>)
    ensures
        r is Ok <==> ok_message(v@),
        r matches Ok(x) ==> rel_message(v@, x),
        r matches Err(e) ==> e@ == err_message(v@),
{
    let es = match get_obj(v) {
        Ok(es) => es,
        Err(e) => {
            return Err(e);
        },
    };
    match check_unknown_message(es) {
        Ok(()) => {},
        Err(e) => {
            return Err(e);
        },
    }
    let shape = match get_req_string(es, "shape") {
        Ok(x) => x,
        Err(e) => {
            return Err(e);
        },
    };
    let location_name = match get_opt_string(es, "locationName") {
        Ok(x) => x,
        Err(e) => {
            return Err(e);
        },
    };
    let xml_namespace = match get_field(es, "xmlNamespace") {
        None => None,
        Some(val) => match val {
            JsonValue::Null => None,
            _ => match decode_xml_namespace(val) {
                Ok(x) => Some(x),
                Err(e) => {
                    return Err(prepend(e, "xmlNamespace"));
                },
            },
        },
    };
    let result_wrapper = match get_opt_string(es, "resultWrapper") {
        Ok(x) => x,
        Err(e) => {
            return Err(e);
        },
    };
    let documentation = match get_opt_string(es, "documentation") {
        Ok(x) => Documentation { documentation: x },
        Err(e) => {
            return Err(e);
        },
    };
    Ok(Message { shape, location_name, xml_namespace, result_wrapper, documentation })
}


// ---- ShapeRef ----

pub open spec fn is_shape_ref_field(n: Seq<char>) -> bool {
    n == "shape"@ || n == "box"@ || n == "deprecated"@ || n == "eventpayload"@ || n == "flattened"@ || n == "idempotencyToken"@ || n == "streaming"@ || n == "location"@ || n == "locationName"@ || n == "queryName"@ || n == "xmlAttribute"@ || n == "xmlNamespace"@ || n == "documentation"@
}

pub open spec fn shape_ref_allowed() -> spec_fn(Seq<char>) -> bool {
    |n: Seq<char>| is_shape_ref_field(n)
}


fn is_shape_ref_name(k: &str) -> (r: bool)
    ensures
        r == is_shape_ref_field(k@),
{
    str_eq(k, "shape") || str_eq(k, "box") || str_eq(k, "deprecated") || str_eq(k, "eventpayload") || str_eq(k, "flattened") || str_eq(k, "idempotencyToken") || str_eq(k, "streaming") || str_eq(k, "location") || str_eq(k, "locationName") || str_eq(k, "queryName") || str_eq(k, "xmlAttribute") || str_eq(k, "xmlNamespace") || str_eq(k, "documentation")
}

#[verifier::loop_isolation(false)]
fn check_unknown_shape_ref(es: &Vec<(String, JsonValue)>) -> (r: Result<(), DecodeError>)
    ensures
        r is Ok <==> first_unknown(entries_view(es@), shape_ref_allowed()) is None,
        r matches Err(e) ==> first_unknown(entries_view(es@), shape_ref_allowed()) matches Some(k)
            && e@ == (ErrV::UnknownField { path: Seq::empty(), field: k }),
{
    let mut i: usize = 0;
    while i < es.len()
        invariant
            i <= es.len(),
            forall|j: int| 0 <= j < i ==> is_shape_ref_field((#[trigger] entries_view(es@)[j]).0),
        decreases es.len() - i,
    {
        if !is_shape_ref_name(es[i].0.as_str()) {
            proof {
                lemma_first_unknown_at(entries_view(es@), shape_ref_allowed(), i as int);
                assert(path_view(Seq::<String>::empty()) =~= Seq::<Seq<char>>::empty());
            }
            return Err(DecodeError::UnknownField { path: Vec::new(), field: es[i].0.clone() });
        }
        i += 1;
    }
    proof {
        lemma_first_unknown_none(entries_view(es@), shape_ref_allowed());
    }
    Ok(())
}


pub open spec fn ok_shape_ref(v: JsonVal) -> bool {
    let es = v->Obj_0;
    &&& v is Obj
    &&& first_unknown(v->Obj_0, shape_ref_allowed()) is None
    &&& ok_req_str(es, "shape"@)
    &&& ok_opt_bool(es, "box"@)
    &&& ok_opt_bool(es, "deprecated"@)
    &&& ok_opt_bool(es, "eventpayload"@)
    &&& ok_opt_bool(es, "flattened"@)
    &&& ok_opt_bool(es, "idempotencyToken"@)
    &&& ok_opt_bool(es, "streaming"@)
    &&& ok_opt_str(es, "location"@)
    &&& ok_opt_str(es, "locationName"@)
    &&& ok_opt_str(es, "queryName"@)
    &&& ok_opt_bool(es, "xmlAttribute"@)
    &&& (child_present(es, "xmlNamespace"@) ==> ok_xml_namespace(child_val(es, "xmlNamespace"@)))
    &&& ok_opt_str(es, "documentation"@)
}


pub open spec fn rel_shape_ref(v: JsonVal, x: ShapeRef) -> bool {
    let es = v->Obj_0;
    &&& Some(x.shape@) == got_opt_str(es, "shape"@)
    &&& x.box_ == got_opt_bool(es, "box"@)
    &&& x.deprecated == got_opt_bool(es, "deprecated"@)
    &&& x.eventpayload == got_opt_bool(es, "eventpayload"@)
    &&& x.flattened == got_opt_bool(es, "flattened"@)
    &&& x.idempotency_token == got_opt_bool(es, "idempotencyToken"@)
    &&& x.streaming == got_opt_bool(es, "streaming"@)
    &&& ov_str(x.location) == got_opt_str(es, "location"@)
    &&& ov_str(x.location_name) == got_opt_str(es, "locationName"@)
    &&& ov_str(x.query_name) == got_opt_str(es, "queryName"@)
    &&& x.xml_attribute == got_opt_bool(es, "xmlAttribute"@)
    &&& match x.xml_namespace {
        None => !child_present(es, "xmlNamespace"@),
        Some(c) => child_present(es, "xmlNamespace"@) && rel_xml_namespace(child_val(es, "xmlNamespace"@), c),
    }
    &&& ov_str(x.documentation.documentation) == got_opt_str(es, "documentation"@)
}


pub open spec fn err_shape_ref(v: JsonVal) -> ErrV {
    if !(v is Obj) {
        ErrV::NotObject { path: Seq::empty() }
    } else {
        let es = v->Obj_0;
        if first_unknown(es, shape_ref_allowed()) is Some {
            ErrV::UnknownField {
                path: Seq::empty(),
                field: first_unknown(es, shape_ref_allowed())->Some_0,
            }
        } else if !ok_req_str(es, "shape"@) {
            err_req(es, "shape"@)
        } else if !ok_opt_bool(es, "box"@) {
            ErrV::BadValue { path: Seq::empty(), field: "box"@ }
        } else if !ok_opt_bool(es, "deprecated"@) {
            ErrV::BadValue { path: Seq::empty(), field: "deprecated"@ }
        } else if !ok_opt_bool(es, "eventpayload"@) {
            ErrV::BadValue { path: Seq::empty(), field: "eventpayload"@ }
        } else if !ok_opt_bool(es, "flattened"@) {
            ErrV::BadValue { path: Seq::empty(), field: "flattened"@ }
        } else if !ok_opt_bool(es, "idempotencyToken"@) {
            ErrV::BadValue { path: Seq::empty(), field: "idempotencyToken"@ }
        } else if !ok_opt_bool(es, "streaming"@) {
            ErrV::BadValue { path: Seq::empty(), field: "streaming"@ }
        } else if !ok_opt_str(es, "location"@) {
            ErrV::BadValue { path: Seq::empty(), field: "location"@ }
        } else if !ok_opt_str(es, "locationName"@) {
            ErrV::BadValue { path: Seq::empty(), field: "locationName"@ }
        } else if !ok_opt_str(es, "queryName"@) {
            ErrV::BadValue { path: Seq::empty(), field: "queryName"@ }
        } else if !ok_opt_bool(es, "xmlAttribute"@) {
            ErrV::BadValue { path: Seq::empty(), field: "xmlAttribute"@ }
        } else if child_present(es, "xmlNamespace"@) && !ok_xml_namespace(child_val(es, "xmlNamespace"@)) {
            err_prepend(err_xml_namespace(child_val(es, "xmlNamespace"@)), "xmlNamespace"@)
        } else {
            ErrV::BadValue { path: Seq::empty(), field: "documentation"@ }
        }
    }
}


#[verifier::rlimit(60)]
pub fn decode_shape_ref(v: &JsonValue) -> (r: Result<ShapeRef, DecodeError>)
    ensures
        r is Ok <==> ok_shape_ref(v@),
        r matches Ok(x) ==> rel_shape_ref(v@, x),
        r matches Err(e) ==> e@ == err_shape_ref(v@),
{
    let es = match get_obj(v) {
        Ok(es) => es,
        Err(e) => {
            return Err(e);
        },
    };
    match check_unknown_shape_ref(es) {
        Ok(()) => {},
        Err(e) => {
            return Err(e);
        },
    }
    let shape = match get_req_string(es, "shape") {
        Ok(x) => x,
        Err(e) => {
            return Err(e);
        },
    };
    let box_ = match get_opt_bool(es, "box") {
        Ok(x) => x,
        Err(e) => {
            return Err(e);
        },
    };
    let deprecated = match get_opt_bool(es, "deprecated") {
        Ok(x) => x,
        Err(e) => {
            return Err(e);
        },
    };
    let eventpayload = match get_opt_bool(es, "eventpayload") {
        Ok(x) => x,
        Err(e) => {
            return Err(e);
        },
    };
    let flattened = match get_opt_bool(es, "flattened") {
        Ok(x) => x,
        Err(e) => {
            return Err(e);
        },
    };
    let idempotency_token = match get_opt_bool(es, "idempotencyToken") {
        Ok(x) => x,
        Err(e) => {
            return Err(e);
        },
    };
    let streaming = match get_opt_bool(es, "streaming") {
        Ok(x) => x,
        Err(e) => {
            return Err(e);
        },
    };
    let location = match get_opt_string(es, "location") {
        Ok(x) => x,
        Err(e) => {
            return Err(e);
        },
    };
    let location_name = match get_opt_string(es, "locationName") {
        Ok(x) => x,
        Err(e) => {
            return Err(e);
        },
    };
    let query_name = match get_opt_string(es, "queryName") {
        Ok(x) => x,
        Err(e) => {
            return Err(e);
        },
    };
    let xml_attribute = match get_opt_bool(es, "xmlAttribute") {
        Ok(x) => x,
        Err(e) => {
            return Err(e);
        },
    };
    let xml_namespace = match get_field(es, "xmlNamespace") {
        None => None,
        Some(val) => match val {
            JsonValue::Null => None,
            _ => match decode_xml_namespace(val) {
                Ok(x) => Some(x),
                Err(e) => {
                    return Err(prepend(e, "xmlNamespace"));
                },
            },
        },
    };
    let documentation = match get_opt_string(es, "documentation") {
        Ok(x) => Documentation { documentation: x },
        Err(e) => {
            return Err(e);
        },
    };
    Ok(ShapeRef { shape, box_, deprecated, eventpayload, flattened, idempotency_token, streaming, location, location_name, query_name, xml_attribute, xml_namespace, documentation })
}


// ---- Operation ----

pub open spec fn is_operation_field(n: Seq<char>) -> bool {
    n == "name"@ || n == "alias"@ || n == "deprecated"@ || n == "endpointdiscovery"@ || n == "endpointoperation"@ || n == "idempotent"@ || n == "http"@ || n == "input"@ || n == "output"@ || n == "errors"@ || n == "documentation"@ || n == "documentationUrl"@
}

pub open spec fn operation_allowed() -> spec_fn(Seq<char>) -> bool {
    |n: Seq<char>| is_operation_field(n)
}


fn is_operation_name(k: &str) -> (r: bool)
    ensures
        r == is_operation_field(k@),
{
    str_eq(k, "name") || str_eq(k, "alias") || str_eq(k, "deprecated") || str_eq(k, "endpointdiscovery") || str_eq(k, "endpointoperation") || str_eq(k, "idempotent") || str_eq(k, "http") || str_eq(k, "input") || str_eq(k, "output") || str_eq(k, "errors") || str_eq(k, "documentation") || str_eq(k, "documentationUrl")
}

#[verifier::loop_isolation(false)]
fn check_unknown_operation(es: &Vec<(String, JsonValue)>) -> (r: Result<(), DecodeError>)
    ensures
        r is Ok <==> first_unknown(entries_view(es@), operation_allowed()) is None,
        r matches Err(e) ==> first_unknown(entries_view(es@), operation_allowed()) matches Some(k)
            && e@ == (ErrV::UnknownField { path: Seq::empty(), field: k }),
{
    let mut i: usize = 0;
    while i < es.len()
        invariant
            i <= es.len(),
            forall|j: int| 0 <= j < i ==> is_operation_field((#[trigger] entries_view(es@)[j]).0),
        decreases es.len() - i,
    {
        if !is_operation_name(es[i].0.as_str()) {
            proof {
                lemma_first_unknown_at(entries_view(es@), operation_allowed(), i as int);
                assert(path_view(Seq::<String>::empty()) =~= Seq::<Seq<char>>::empty());
            }
            return Err(DecodeError::UnknownField { path: Vec::new(), field: es[i].0.clone() });
        }
        i += 1;
    }
    proof {
        lemma_first_unknown_none(entries_view(es@), operation_allowed());
    }
    Ok(())
}


pub open spec fn ok_operation(v: JsonVal) -> bool {
    let es = v->Obj_0;
    &&& v is Obj
    &&& first_unknown(v->Obj_0, operation_allowed()) is None
    &&& ok_req_str(es, "name"@)
    &&& ok_opt_str(es, "alias"@)
    &&& ok_opt_bool(es, "deprecated"@)
    &&& (child_present(es, "endpointdiscovery"@) ==> ok_endpoint_discovery(child_val(es, "endpointdiscovery"@)))
    &&& ok_opt_bool(es, "endpointoperation"@)
    &&& ok_opt_bool(es, "idempotent"@)
    &&& (child_present(es, "http"@) ==> ok_http_operation(child_val(es, "http"@)))
    &&& (child_present(es, "input"@) ==> ok_message(child_val(es, "input"@)))
    &&& (child_present(es, "output"@) ==> ok_message(child_val(es, "output"@)))
    &&& (child_present(es, "errors"@) ==> (child_val(es, "errors"@) is Arr && list_ok_refs(child_val(es, "errors"@)->Arr_0)))
    &&& ok_opt_str(es, "documentation"@)
    &&& ok_opt_str(es, "documentationUrl"@)
}


pub open spec fn rel_operation(v: JsonVal, x: Operation) -> bool {
    let es = v->Obj_0;
    &&& Some(x.name@) == got_opt_str(es, "name"@)
    &&& ov_str(x.alias) == got_opt_str(es, "alias"@)
    &&& x.deprecated == got_opt_bool(es, "deprecated"@)
    &&& match x.endpointdiscovery {
        None => !child_present(es, "endpointdiscovery"@),
        Some(c) => child_present(es, "endpointdiscovery"@) && rel_endpoint_discovery(child_val(es, "endpointdiscovery"@), c),
    }
    &&& x.endpointoperation == got_opt_bool(es, "endpointoperation"@)
    &&& x.idempotent == got_opt_bool(es, "idempotent"@)
    &&& match x.http {
        None => !child_present(es, "http"@),
        Some(c) => child_present(es, "http"@) && rel_http_operation(child_val(es, "http"@), c),
    }
    &&& match x.input {
        None => !child_present(es, "input"@),
        Some(c) => child_present(es, "input"@) && rel_message(child_val(es, "input"@), c),
    }
    &&& match x.output {
        None => !child_present(es, "output"@),
        Some(c) => child_present(es, "output"@) && rel_message(child_val(es, "output"@), c),
    }
    &&& match x.errors {
        None => !child_present(es, "errors"@),
        Some(l) => child_present(es, "errors"@) && child_val(es, "errors"@) is Arr && list_rel_refs(child_val(es, "errors"@)->Arr_0, l@),
    }
    &&& ov_str(x.documentation.documentation) == got_opt_str(es, "documentation"@)
    &&& ov_str(x.documentation_url.documentation_url) == got_opt_str(es, "documentationUrl"@)
}


pub open spec fn err_operation(v: JsonVal) -> ErrV {
    if !(v is Obj) {
        ErrV::NotObject { path: Seq::empty() }
    } else {
        let es = v->Obj_0;
        if first_unknown(es, operation_allowed()) is Some {
            ErrV::UnknownField {
                path: Seq::empty(),
                field: first_unknown(es, operation_allowed())->Some_0,
            }
        } else if !ok_req_str(es, "name"@) {
            err_req(es, "name"@)
        } else if !ok_opt_str(es, "alias"@) {
            ErrV::BadValue { path: Seq::empty(), field: "alias"@ }
        } else if !ok_opt_bool(es, "deprecated"@) {
            ErrV::BadValue { path: Seq::empty(), field: "deprecated"@ }
        } else if child_present(es, "endpointdiscovery"@) && !ok_endpoint_discovery(child_val(es, "endpointdiscovery"@)) {
            err_prepend(err_endpoint_discovery(child_val(es, "endpointdiscovery"@)), "endpointdiscovery"@)
        } else if !ok_opt_bool(es, "endpointoperation"@) {
            ErrV::BadValue { path: Seq::empty(), field: "endpointoperation"@ }
        } else if !ok_opt_bool(es, "idempotent"@) {
            ErrV::BadValue { path: Seq::empty(), field: "idempotent"@ }
        } else if child_present(es, "http"@) && !ok_http_operation(child_val(es, "http"@)) {
            err_prepend(err_http_operation(child_val(es, "http"@)), "http"@)
        } else if child_present(es, "input"@) && !ok_message(child_val(es, "input"@)) {
            err_prepend(err_message(child_val(es, "input"@)), "input"@)
        } else if child_present(es, "output"@) && !ok_message(child_val(es, "output"@)) {
            err_prepend(err_message(child_val(es, "output"@)), "output"@)
        } else if child_present(es, "errors"@) && !(child_val(es, "errors"@) is Arr) {
            ErrV::BadValue { path: Seq::empty(), field: "errors"@ }
        } else if child_present(es, "errors"@) && !list_ok_refs(child_val(es, "errors"@)->Arr_0) {
            err_prepend(list_err_refs(child_val(es, "errors"@)->Arr_0), "errors"@)
        } else if !ok_opt_str(es, "documentation"@) {
            ErrV::BadValue { path: Seq::empty(), field: "documentation"@ }
        } else {
            ErrV::BadValue { path: Seq::empty(), field: "documentationUrl"@ }
        }
    }
}


#[verifier::rlimit(60)]
pub fn decode_operation(v: &JsonValue) -> (r: Result<Operation, DecodeError>)
    ensures
        r is Ok <==> ok_operation(v@),
        r matches Ok(x) ==> rel_operation(v@, x),
        r matches Err(e) ==> e@ == err_operation(v@),
{
    let es = match get_obj(v) {
        Ok(es) => es,
        Err(e) => {
            return Err(e);
        },
    };
    match check_unknown_operation(es) {
        Ok(()) => {},
        Err(e) => {
            return Err(e);
        },
    }
    let name = match get_req_string(es, "name") {
        Ok(x) => x,
        Err(e) => {
            return Err(e);
        },
    };
    let alias = match get_opt_string(es, "alias") {
        Ok(x) => x,
        Err(e) => {
            return Err(e);
        },
    };
    let deprecated = match get_opt_bool(es, "deprecated") {
        Ok(x) => x,
        Err(e) => {
            return Err(e);
        },
    };
    let endpointdiscovery = match get_field(es, "endpointdiscovery") {
        None => None,
        Some(val) => match val {
            JsonValue::Null => None,
            _ => match decode_endpoint_discovery(val) {
                Ok(x) => Some(x),
                Err(e) => {
                    return Err(prepend(e, "endpointdiscovery"));
                },
            },
        },
    };
    let endpointoperation = match get_opt_bool(es, "endpointoperation") {
        Ok(x) => x,
        Err(e) => {
            return Err(e);
        },
    };
    let idempotent = match get_opt_bool(es, "idempotent") {
        Ok(x) => x,
        Err(e) => {
            return Err(e);
        },
    };
    let http = match get_field(es, "http") {
        None => None,
        Some(val) => match val {
            JsonValue::Null => None,
            _ => match decode_http_operation(val) {
                Ok(x) => Some(x),
                Err(e) => {
                    return Err(prepend(e, "http"));
                },
            },
        },
    };
    let input = match get_field(es, "input") {
        None => None,
        Some(val) => match val {
            JsonValue::Null => None,
            _ => match decode_message(val) {
                Ok(x) => Some(x),
                Err(e) => {
                    return Err(prepend(e, "input"));
                },
            },
        },
    };
    let output = match get_field(es, "output") {
        None => None,
        Some(val) => match val {
            JsonValue::Null => None,
            _ => match decode_message(val) {
                Ok(x) => Some(x),
                Err(e) => {
                    return Err(prepend(e, "output"));
                },
            },
        },
    };
    let errors = match get_field(es, "errors") {
        None => None,
        Some(val) => match val {
            JsonValue::Null => None,
            _ => match as_arr(val) {
                Some(items) => match decode_ref_list(items) {
                    Ok(l) => Some(l),
                    Err(e) => {
                        return Err(prepend(e, "errors"));
                    },
                },
                None => {
                    return Err(err_bad("errors"));
                },
            },
        },
    };
    let documentation = match get_opt_string(es, "documentation") {
        Ok(x) => Documentation { documentation: x },
        Err(e) => {
            return Err(e);
        },
    };
    let documentation_url = match get_opt_string(es, "documentationUrl") {
        Ok(x) => DocumentationUrl { documentation_url: x },
        Err(e) => {
            return Err(e);
        },
    };
    Ok(Operation { name, alias, deprecated, endpointdiscovery, endpointoperation, idempotent, http, input, output, errors, documentation, documentation_url })
}


// ---- Shape ----

pub open spec fn is_shape_field(n: Seq<char>) -> bool {
    n == "type"@ || n == "box"@ || n == "event"@ || n == "eventstream"@ || n == "flattened"@ || n == "sensitive"@ || n == "wrapper"@ || n == "locationName"@ || n == "xmlNamespace"@ || n == "deprecated"@ || n == "deprecatedMessage"@ || n == "min"@ || n == "max"@ || n == "enum"@ || n == "pattern"@ || n == "timestampFormat"@ || n == "key"@ || n == "value"@ || n == "error"@ || n == "exception"@ || n == "fault"@ || n == "required"@ || n == "member"@ || n == "members"@ || n == "payload"@ || n == "documentation"@
}

pub open spec fn shape_allowed() -> spec_fn(Seq<char>) -> bool {
    |n: Seq<char>| is_shape_field(n)
}


fn is_shape_name(k: &str) -> (r: bool)
    ensures
        r == is_shape_field(k@),
{
    str_eq(k, "type") || str_eq(k, "box") || str_eq(k, "event") || str_eq(k, "eventstream") || str_eq(k, "flattened") || str_eq(k, "sensitive") || str_eq(k, "wrapper") || str_eq(k, "locationName") || str_eq(k, "xmlNamespace") || str_eq(k, "deprecated") || str_eq(k, "deprecatedMessage") || str_eq(k, "min") || str_eq(k, "max") || str_eq(k, "enum") || str_eq(k, "pattern") || str_eq(k, "timestampFormat") || str_eq(k, "key") || str_eq(k, "value") || str_eq(k, "error") || str_eq(k, "exception") || str_eq(k, "fault") || str_eq(k, "required") || str_eq(k, "member") || str_eq(k, "members") || str_eq(k, "payload") || str_eq(k, "documentation")
}

#[verifier::loop_isolation(false)]
fn check_unknown_shape(es: &Vec<(String, JsonValue)>) -> (r: Result<(), DecodeError>)
    ensures
        r is Ok <==> first_unknown(entries_view(es@), shape_allowed()) is None,
        r matches Err(e) ==> first_unknown(entries_view(es@), shape_allowed()) matches Some(k)
            && e@ == (ErrV::UnknownField { path: Seq::empty(), field: k }),
{
    let mut i: usize = 0;
    while i < es.len()
        invariant
            i <= es.len(),
            forall|j: int| 0 <= j < i ==> is_shape_field((#[trigger] entries_view(es@)[j]).0),
        decreases es.len() - i,
    {
        if !is_shape_name(es[i].0.as_str()) {
            proof {
                lemma_first_unknown_at(entries_view(es@), shape_allowed(), i as int);
                assert(path_view(Seq::<String>::empty()) =~= Seq::<Seq<char>>::empty());
            }
            return Err(DecodeError::UnknownField { path: Vec::new(), field: es[i].0.clone() });
        }
        i += 1;
    }
    proof {
        lemma_first_unknown_none(entries_view(es@), shape_allowed());
    }
    Ok(())
}


pub open spec fn ok_shape(v: JsonVal) -> bool {
    let es = v->Obj_0;
    &&& v is Obj
    &&& first_unknown(v->Obj_0, shape_allowed()) is None
    &&& ok_req_str(es, "type"@)
    &&& ok_opt_bool(es, "box"@)
    &&& ok_opt_bool(es, "event"@)
    &&& ok_opt_bool(es, "eventstream"@)
    &&& ok_opt_bool(es, "flattened"@)
    &&& ok_opt_bool(es, "sensitive"@)
    &&& ok_opt_bool(es, "wrapper"@)
    &&& ok_opt_str(es, "locationName"@)
    &&& (child_present(es, "xmlNamespace"@) ==> ok_xml_namespace(child_val(es, "xmlNamespace"@)))
    &&& ok_opt_bool(es, "deprecated"@)
    &&& ok_opt_str(es, "deprecatedMessage"@)
    &&& ok_opt_int(es, "min"@)
    &&& ok_opt_int(es, "max"@)
    &&& ok_opt_strs(es, "enum"@)
    &&& ok_opt_str(es, "pattern"@)
    &&& ok_opt_str(es, "timestampFormat"@)
    &&& (child_present(es, "key"@) ==> ok_shape_ref(child_val(es, "key"@)))
    &&& (child_present(es, "value"@) ==> ok_shape_ref(child_val(es, "value"@)))
    &&& (child_present(es, "error"@) ==> ok_error(child_val(es, "error"@)))
    &&& ok_opt_bool(es, "exception"@)
    &&& ok_opt_bool(es, "fault"@)
    &&& ok_opt_strs(es, "required"@)
    &&& (child_present(es, "member"@) ==> ok_shape_ref(child_val(es, "member"@)))
    &&& (child_present(es, "members"@) ==> (child_val(es, "members"@) is Obj && map_ok_shape_ref(child_val(es, "members"@)->Obj_0)))
    &&& ok_opt_str(es, "payload"@)
    &&& ok_opt_str(es, "documentation"@)
}


pub open spec fn rel_shape(v: JsonVal, x: Shape) -> bool {
    let es = v->Obj_0;
    &&& Some(x.type_@) == got_opt_str(es, "type"@)
    &&& x.box_ == got_opt_bool(es, "box"@)
    &&& x.event == got_opt_bool(es, "event"@)
    &&& x.eventstream == got_opt_bool(es, "eventstream"@)
    &&& x.flattened == got_opt_bool(es, "flattened"@)
    &&& x.sensitive == got_opt_bool(es, "sensitive"@)
    &&& x.wrapper == got_opt_bool(es, "wrapper"@)
    &&& ov_str(x.location_name) == got_opt_str(es, "locationName"@)
    &&& match x.xml_namespace {
        None => !child_present(es, "xmlNamespace"@),
        Some(c) => child_present(es, "xmlNamespace"@) && rel_xml_namespace(child_val(es, "xmlNamespace"@), c),
    }
    &&& x.deprecated == got_opt_bool(es, "deprecated"@)
    &&& ov_str(x.deprecated_message) == got_opt_str(es, "deprecatedMessage"@)
    &&& x.min == got_opt_int(es, "min"@)
    &&& x.max == got_opt_int(es, "max"@)
    &&& ov_strs(x.enum_) == got_opt_strs(es, "enum"@)
    &&& ov_str(x.pattern) == got_opt_str(es, "pattern"@)
    &&& ov_str(x.timestamp_format) == got_opt_str(es, "timestampFormat"@)
    &&& match x.key {
        None => !child_present(es, "key"@),
        Some(c) => child_present(es, "key"@) && rel_shape_ref(child_val(es, "key"@), c),
    }
    &&& match x.value {
        None => !child_present(es, "value"@),
        Some(c) => child_present(es, "value"@) && rel_shape_ref(child_val(es, "value"@), c),
    }
    &&& match x.error {
        None => !child_present(es, "error"@),
        Some(c) => child_present(es, "error"@) && rel_error(child_val(es, "error"@), c),
    }
    &&& x.exception == got_opt_bool(es, "exception"@)
    &&& x.fault == got_opt_bool(es, "fault"@)
    &&& ov_strs(x.required) == got_opt_strs(es, "required"@)
    &&& match x.member {
        None => !child_present(es, "member"@),
        Some(c) => child_present(es, "member"@) && rel_shape_ref(child_val(es, "member"@), c),
    }
    &&& match x.members {
        None => !child_present(es, "members"@),
        Some(m) => child_present(es, "members"@) && child_val(es, "members"@) is Obj && map_rel_shape_ref(child_val(es, "members"@)->Obj_0, m@),
    }
    &&& ov_str(x.payload) == got_opt_str(es, "payload"@)
    &&& ov_str(x.documentation.documentation) == got_opt_str(es, "documentation"@)
}


pub open spec fn err_shape(v: JsonVal) -> ErrV {
    if !(v is Obj) {
        ErrV::NotObject { path: Seq::empty() }
    } else {
        let es = v->Obj_0;
        if first_unknown(es, shape_allowed()) is Some {
            ErrV::UnknownField {
                path: Seq::empty(),
                field: first_unknown(es, shape_allowed())->Some_0,
            }
        } else if !ok_req_str(es, "type"@) {
            err_req(es, "type"@)
        } else if !ok_opt_bool(es, "box"@) {
            ErrV::BadValue { path: Seq::empty(), field: "box"@ }
        } else if !ok_opt_bool(es, "event"@) {
            ErrV::BadValue { path: Seq::empty(), field: "event"@ }
        } else if !ok_opt_bool(es, "eventstream"@) {
            ErrV::BadValue { path: Seq::empty(), field: "eventstream"@ }
        } else if !ok_opt_bool(es, "flattened"@) {
            ErrV::BadValue { path: Seq::empty(), field: "flattened"@ }
        } else if !ok_opt_bool(es, "sensitive"@) {
            ErrV::BadValue { path: Seq::empty(), field: "sensitive"@ }
        } else if !ok_opt_bool(es, "wrapper"@) {
            ErrV::BadValue { path: Seq::empty(), field: "wrapper"@ }
        } else if !ok_opt_str(es, "locationName"@) {
            ErrV::BadValue { path: Seq::empty(), field: "locationName"@ }
        } else if child_present(es, "xmlNamespace"@) && !ok_xml_namespace(child_val(es, "xmlNamespace"@)) {
            err_prepend(err_xml_namespace(child_val(es, "xmlNamespace"@)), "xmlNamespace"@)
        } else if !ok_opt_bool(es, "deprecated"@) {
            ErrV::BadValue { path: Seq::empty(), field: "deprecated"@ }
        } else if !ok_opt_str(es, "deprecatedMessage"@) {
            ErrV::BadValue { path: Seq::empty(), field: "deprecatedMessage"@ }
        } else if !ok_opt_int(es, "min"@) {
            ErrV::BadValue { path: Seq::empty(), field: "min"@ }
        } else if !ok_opt_int(es, "max"@) {
            ErrV::BadValue { path: Seq::empty(), field: "max"@ }
        } else if !ok_opt_strs(es, "enum"@) {
            ErrV::BadValue { path: Seq::empty(), field: "enum"@ }
        } else if !ok_opt_str(es, "pattern"@) {
            ErrV::BadValue { path: Seq::empty(), field: "pattern"@ }
        } else if !ok_opt_str(es, "timestampFormat"@) {
            ErrV::BadValue { path: Seq::empty(), field: "timestampFormat"@ }
        } else if child_present(es, "key"@) && !ok_shape_ref(child_val(es, "key"@)) {
            err_prepend(err_shape_ref(child_val(es, "key"@)), "key"@)
        } else if child_present(es, "value"@) && !ok_shape_ref(child_val(es, "value"@)) {
            err_prepend(err_shape_ref(child_val(es, "value"@)), "value"@)
        } else if child_present(es, "error"@) && !ok_error(child_val(es, "error"@)) {
            err_prepend(err_error(child_val(es, "error"@)), "error"@)
        } else if !ok_opt_bool(es, "exception"@) {
            ErrV::BadValue { path: Seq::empty(), field: "exception"@ }
        } else if !ok_opt_bool(es, "fault"@) {
            ErrV::BadValue { path: Seq::empty(), field: "fault"@ }
        } else if !ok_opt_strs(es, "required"@) {
            ErrV::BadValue { path: Seq::empty(), field: "required"@ }
        } else if child_present(es, "member"@) && !ok_shape_ref(child_val(es, "member"@)) {
            err_prepend(err_shape_ref(child_val(es, "member"@)), "member"@)
        } else if child_present(es, "members"@) && !(child_val(es, "members"@) is Obj) {
            ErrV::BadValue { path: Seq::empty(), field: "members"@ }
        } else if child_present(es, "members"@) && !map_ok_shape_ref(child_val(es, "members"@)->Obj_0) {
            err_prepend(map_err_shape_ref(child_val(es, "members"@)->Obj_0), "members"@)
        } else if !ok_opt_str(es, "payload"@) {
            ErrV::BadValue { path: Seq::empty(), field: "payload"@ }
        } else {
            ErrV::BadValue { path: Seq::empty(), field: "documentation"@ }
        }
    }
}


#[verifier::rlimit(60)]
pub fn decode_shape(v: &JsonValue) -> (r: Result<Shape, DecodeError>)
    ensures
        r is Ok <==> ok_shape(v@),
        r matches Ok(x) ==> rel_shape(v@, x),
        r matches Err(e) ==> e@ == err_shape(v@),
{
    let es = match get_obj(v) {
        Ok(es) => es,
        Err(e) => {
            return Err(e);
        },
    };
    match check_unknown_shape(es) {
        Ok(()) => {},
        Err(e) => {
            return Err(e);
        },
    }
    let type_ = match get_req_string(es, "type") {
        Ok(x) => x,
        Err(e) => {
            return Err(e);
        },
    };
    let box_ = match get_opt_bool(es, "box") {
        Ok(x) => x,
        Err(e) => {
            return Err(e);
        },
    };
    let event = match get_opt_bool(es, "event") {
        Ok(x) => x,
        Err(e) => {
            return Err(e);
        },
    };
    let eventstream = match get_opt_bool(es, "eventstream") {
        Ok(x) => x,
        Err(e) => {
            return Err(e);
        },
    };
    let flattened = match get_opt_bool(es, "flattened") {
        Ok(x) => x,
        Err(e) => {
            return Err(e);
        },
    };
    let sensitive = match get_opt_bool(es, "sensitive") {
        Ok(x) => x,
        Err(e) => {
            return Err(e);
        },
    };
    let wrapper = match get_opt_bool(es, "wrapper") {
        Ok(x) => x,
        Err(e) => {
            return Err(e);
        },
    };
    let location_name = match get_opt_string(es, "locationName") {
        Ok(x) => x,
        Err(e) => {
            return Err(e);
        },
    };
    let xml_namespace = match get_field(es, "xmlNamespace") {
        None => None,
        Some(val) => match val {
            JsonValue::Null => None,
            _ => match decode_xml_namespace(val) {
                Ok(x) => Some(x),
                Err(e) => {
                    return Err(prepend(e, "xmlNamespace"));
                },
            },
        },
    };
    let deprecated = match get_opt_bool(es, "deprecated") {
        Ok(x) => x,
        Err(e) => {
            return Err(e);
        },
    };
    let deprecated_message = match get_opt_string(es, "deprecatedMessage") {
        Ok(x) => x,
        Err(e) => {
            return Err(e);
        },
    };
    let min = match get_opt_i32(es, "min") {
        Ok(x) => x,
        Err(e) => {
            return Err(e);
        },
    };
    let max = match get_opt_i32(es, "max") {
        Ok(x) => x,
        Err(e) => {
            return Err(e);
        },
    };
    let enum_ = match get_opt_strings(es, "enum") {
        Ok(x) => x,
        Err(e) => {
            return Err(e);
        },
    };
    let pattern = match get_opt_string(es, "pattern") {
        Ok(x) => x,
        Err(e) => {
            return Err(e);
        },
    };
    let timestamp_format = match get_opt_string(es, "timestampFormat") {
        Ok(x) => x,
        Err(e) => {
            return Err(e);
        },
    };
    let key = match get_field(es, "key") {
        None => None,
        Some(val) => match val {
            JsonValue::Null => None,
            _ => match decode_shape_ref(val) {
                Ok(x) => Some(x),
                Err(e) => {
                    return Err(prepend(e, "key"));
                },
            },
        },
    };
    let value = match get_field(es, "value") {
        None => None,
        Some(val) => match val {
            JsonValue::Null => None,
            _ => match decode_shape_ref(val) {
                Ok(x) => Some(x),
                Err(e) => {
                    return Err(prepend(e, "value"));
                },
            },
        },
    };
    let error = match get_field(es, "error") {
        None => None,
        Some(val) => match val {
            JsonValue::Null => None,
            _ => match decode_error(val) {
                Ok(x) => Some(x),
                Err(e) => {
                    return Err(prepend(e, "error"));
                },
            },
        },
    };
    let exception = match get_opt_bool(es, "exception") {
        Ok(x) => x,
        Err(e) => {
            return Err(e);
        },
    };
    let fault = match get_opt_bool(es, "fault") {
        Ok(x) => x,
        Err(e) => {
            return Err(e);
        },
    };
    let required = match get_opt_strings(es, "required") {
        Ok(x) => x,
        Err(e) => {
            return Err(e);
        },
    };
    let member = match get_field(es, "member") {
        None => None,
        Some(val) => match val {
            JsonValue::Null => None,
            _ => match decode_shape_ref(val) {
                Ok(x) => Some(x),
                Err(e) => {
                    return Err(prepend(e, "member"));
                },
            },
        },
    };
    let members = match get_field(es, "members") {
        None => None,
        Some(val) => match val {
            JsonValue::Null => None,
            _ => match get_obj(val) {
                Ok(pairs) => match decode_shape_ref_map(pairs) {
                    Ok(m) => Some(m),
                    Err(e) => {
                        return Err(prepend(e, "members"));
                    },
                },
                Err(_) => {
                    return Err(err_bad("members"));
                },
            },
        },
    };
    let payload = match get_opt_string(es, "payload") {
        Ok(x) => x,
        Err(e) => {
            return Err(e);
        },
    };
    let documentation = match get_opt_string(es, "documentation") {
        Ok(x) => Documentation { documentation: x },
        Err(e) => {
            return Err(e);
        },
    };
    Ok(Shape { type_, box_, event, eventstream, flattened, sensitive, wrapper, location_name, xml_namespace, deprecated, deprecated_message, min, max, enum_, pattern, timestamp_format, key, value, error, exception, fault, required, member, members, payload, documentation })
}


// ---- Service ----

pub open spec fn is_service_field(n: Seq<char>) -> bool {
    n == "version"@ || n == "documentation"@ || n == "metadata"@ || n == "operations"@ || n == "shapes"@
}

pub open spec fn service_allowed() -> spec_fn(Seq<char>) -> bool {
    |n: Seq<char>| is_service_field(n)
}


fn is_service_name(k: &str) -> (r: bool)
    ensures
        r == is_service_field(k@),
{
    str_eq(k, "version") || str_eq(k, "documentation") || str_eq(k, "metadata") || str_eq(k, "operations") || str_eq(k, "shapes")
}

#[verifier::loop_isolation(false)]
fn check_unknown_service(es: &Vec<(String, JsonValue)>) -> (r: Result<(), DecodeError>)
    ensures
        r is Ok <==> first_unknown(entries_view(es@), service_allowed()) is None,
        r matches Err(e) ==> first_unknown(entries_view(es@), service_allowed()) matches Some(k)
            && e@ == (ErrV::UnknownField { path: Seq::empty(), field: k }),
{
    let mut i: usize = 0;
    while i < es.len()
        invariant
            i <= es.len(),
            forall|j: int| 0 <= j < i ==> is_service_field((#[trigger] entries_view(es@)[j]).0),
        decreases es.len() - i,
    {
        if !is_service_name(es[i].0.as_str()) {
            proof {
                lemma_first_unknown_at(entries_view(es@), service_allowed(), i as int);
                assert(path_view(Seq::<String>::empty()) =~= Seq::<Seq<char>>::empty());
            }
            return Err(DecodeError::UnknownField { path: Vec::new(), field: es[i].0.clone() });
        }
        i += 1;
    }
    proof {
        lemma_first_unknown_none(entries_view(es@), service_allowed());
    }
    Ok(())
}


pub open spec fn ok_service(v: JsonVal) -> bool {
    let es = v->Obj_0;
    &&& v is Obj
    &&& first_unknown(v->Obj_0, service_allowed()) is None
    &&& ok_opt_str(es, "version"@)
    &&& ok_opt_str(es, "documentation"@)
    &&& (child_present(es, "metadata"@) ==> ok_metadata(child_val(es, "metadata"@)))
    &&& (child_present(es, "operations"@) ==> (child_val(es, "operations"@) is Obj && map_ok_operation(child_val(es, "operations"@)->Obj_0)))
    &&& (child_present(es, "shapes"@) ==> (child_val(es, "shapes"@) is Obj && map_ok_shape(child_val(es, "shapes"@)->Obj_0)))
}


pub open spec fn rel_service(v: JsonVal, x: Service) -> bool {
    let es = v->Obj_0;
    &&& ov_str(x.version) == got_opt_str(es, "version"@)
    &&& ov_str(x.documentation.documentation) == got_opt_str(es, "documentation"@)
    &&& match x.metadata {
        None => !child_present(es, "metadata"@),
        Some(c) => child_present(es, "metadata"@) && rel_metadata(child_val(es, "metadata"@), c),
    }
    &&& match x.operations {
        None => !child_present(es, "operations"@),
        Some(m) => child_present(es, "operations"@) && child_val(es, "operations"@) is Obj && map_rel_operation(child_val(es, "operations"@)->Obj_0, m@),
    }
    &&& match x.shapes {
        None => !child_present(es, "shapes"@),
        Some(m) => child_present(es, "shapes"@) && child_val(es, "shapes"@) is Obj && map_rel_shape(child_val(es, "shapes"@)->Obj_0, m@),
    }
}


pub open spec fn err_service(v: JsonVal) -> ErrV {
    if !(v is Obj) {
        ErrV::NotObject { path: Seq::empty() }
    } else {
        let es = v->Obj_0;
        if first_unknown(es, service_allowed()) is Some {
            ErrV::UnknownField {
                path: Seq::empty(),
                field: first_unknown(es, service_allowed())->Some_0,
            }
        } else if !ok_opt_str(es, "version"@) {
            ErrV::BadValue { path: Seq::empty(), field: "version"@ }
        } else if !ok_opt_str(es, "documentation"@) {
            ErrV::BadValue { path: Seq::empty(), field: "documentation"@ }
        } else if child_present(es, "metadata"@) && !ok_metadata(child_val(es, "metadata"@)) {
            err_prepend(err_metadata(child_val(es, "metadata"@)), "metadata"@)
        } else if child_present(es, "operations"@) && !(child_val(es, "operations"@) is Obj) {
            ErrV::BadValue { path: Seq::empty(), field: "operations"@ }
        } else if child_present(es, "operations"@) && !map_ok_operation(child_val(es, "operations"@)->Obj_0) {
            err_prepend(map_err_operation(child_val(es, "operations"@)->Obj_0), "operations"@)
        } else if child_present(es, "shapes"@) && !(child_val(es, "shapes"@) is Obj) {
            ErrV::BadValue { path: Seq::empty(), field: "shapes"@ }
        } else {
            err_prepend(map_err_shape(child_val(es, "shapes"@)->Obj_0), "shapes"@)
        }
    }
}


#[verifier::rlimit(60)]
pub fn decode_service(v: &JsonValue) -> (r: Result<Service, DecodeError>)
    ensures
        r is Ok <==> ok_service(v@),
        r matches Ok(x) ==> rel_service(v@, x),
        r matches Err(e) ==> e@ == err_service(v@),
{
    let es = match get_obj(v) {
        Ok(es) => es,
        Err(e) => {
            return Err(e);
        },
    };
    match check_unknown_service(es) {
        Ok(()) => {},
        Err(e) => {
            return Err(e);
        },
    }
    let version = match get_opt_string(es, "version") {
        Ok(x) => x,
        Err(e) => {
            return Err(e);
        },
    };
    let documentation = match get_opt_string(es, "documentation") {
        Ok(x) => Documentation { documentation: x },
        Err(e) => {
            return Err(e);
        },
    };
    let metadata = match get_field(es, "metadata") {
        None => None,
        Some(val) => match val {
            JsonValue::Null => None,
            _ => match decode_metadata(val) {
                Ok(x) => Some(x),
                Err(e) => {
                    return Err(prepend(e, "metadata"));
                },
            },
        },
    };
    let operations = match get_field(es, "operations") {
        None => None,
        Some(val) => match val {
            JsonValue::Null => None,
            _ => match get_obj(val) {
                Ok(pairs) => match decode_operation_map(pairs) {
                    Ok(m) => Some(m),
                    Err(e) => {
                        return Err(prepend(e, "operations"));
                    },
                },
                Err(_) => {
                    return Err(err_bad("operations"));
                },
            },
        },
    };
    let shapes = match get_field(es, "shapes") {
        None => None,
        Some(val) => match val {
            JsonValue::Null => None,
            _ => match get_obj(val) {
                Ok(pairs) => match decode_shape_map(pairs) {
                    Ok(m) => Some(m),
                    Err(e) => {
                        return Err(prepend(e, "shapes"));
                    },
                },
                Err(_) => {
                    return Err(err_bad("shapes"));
                },
            },
        },
    };
    Ok(Service { version, documentation, metadata, operations, shapes })
}

} // verus!
