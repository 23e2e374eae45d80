//! Encoding entity trees into JSON value trees.
//!
//! Fields are emitted in schema declaration order; optional fields whose
//! value is absent contribute nothing; documentation fragments are emitted
//! or suppressed per the `DocPolicy` handed in. Maps and lists are expanded
//! entry by entry in the order they are held.

use vstd::prelude::*;

use crate::json::{
    entries_view, list_view, lemma_arr_view, lemma_obj_view, opt_entry, JsonVal, JsonValue,
};
use crate::model::{
    DocPolicy, EndpointDiscovery, Error, HttpOperation, Message, Metadata, Operation, Service,
    Shape, ShapeRef, XmlNamespace,
};

verus! {

/// Contribution of an optional string field.
pub open spec fn str_field(v: Option<String>) -> Option<JsonVal> {
    match v {
        None => None,
        Some(s) => Some(JsonVal::Str(s@)),
    }
}

/// Contribution of an optional boolean field.
pub open spec fn bool_field(v: Option<bool>) -> Option<JsonVal> {
    match v {
        None => None,
        Some(b) => Some(JsonVal::Bool(b)),
    }
}

/// Contribution of an optional integer field.
pub open spec fn int_field(v: Option<i32>) -> Option<JsonVal> {
    match v {
        None => None,
        Some(i) => Some(JsonVal::Int(i as i64)),
    }
}

/// Contribution of an optional list-of-strings field.
pub open spec fn strs_field(v: Option<Vec<String>>) -> Option<JsonVal> {
    match v {
        None => None,
        Some(l) => Some(JsonVal::Arr(l@.map_values(|s: String| JsonVal::Str(s@)))),
    }
}

/// Contribution of a documentation fragment: suppressed entirely under
/// `DocPolicy::Strip`.
pub open spec fn doc_field(v: Option<String>, pol: DocPolicy) -> Option<JsonVal> {
    if pol is Strip {
        None
    } else {
        str_field(v)
    }
}

pub open spec fn enc_xml_namespace(x: XmlNamespace) -> JsonVal {
    JsonVal::Obj(
        opt_entry("prefix"@, str_field(x.prefix)) + opt_entry(
            "uri"@,
            Some(JsonVal::Str(x.uri@)),
        ),
    )
}

/// Contribution of an optional nested `XmlNamespace` field.
pub open spec fn xmlns_field(v: Option<XmlNamespace>) -> Option<JsonVal> {
    match v {
        None => None,
        Some(n) => Some(enc_xml_namespace(n)),
    }
}

pub open spec fn enc_metadata(x: Metadata) -> JsonVal {
    JsonVal::Obj(
        opt_entry("apiVersion"@, str_field(x.api_version)) + opt_entry(
            "jsonVersion"@,
            str_field(x.json_version),
        ) + opt_entry("endpointPrefix"@, str_field(x.endpoint_prefix)) + opt_entry(
            "globalEndpoint"@,
            str_field(x.global_endpoint),
        ) + opt_entry("protocol"@, str_field(x.protocol)) + opt_entry(
            "serviceAbbreviation"@,
            str_field(x.service_abbreviation),
        ) + opt_entry("serviceFullName"@, str_field(x.service_full_name)) + opt_entry(
            "serviceId"@,
            str_field(x.service_id),
        ) + opt_entry("checksumFormat"@, str_field(x.checksum_format)) + opt_entry(
            "timestampFormat"@,
            str_field(x.timestamp_format),
        ) + opt_entry("signatureVersion"@, str_field(x.signature_version)) + opt_entry(
            "signingName"@,
            str_field(x.signing_name),
        ) + opt_entry("targetPrefix"@, str_field(x.target_prefix)) + opt_entry(
            "xmlNamespace"@,
            str_field(x.xml_namespace),
        ) + opt_entry("uid"@, str_field(x.uid)),
    )
}

pub open spec fn enc_http_operation(x: HttpOperation) -> JsonVal {
    JsonVal::Obj(
        opt_entry("method"@, Some(JsonVal::Str(x.method@))) + opt_entry(
            "requestUri"@,
            Some(JsonVal::Str(x.request_uri@)),
        ) + opt_entry("responseCode"@, int_field(x.response_code)),
    )
}

pub open spec fn enc_endpoint_discovery(x: EndpointDiscovery) -> JsonVal {
    JsonVal::Obj(Seq::empty())
}

pub open spec fn enc_error(x: Error) -> JsonVal {
    JsonVal::Obj(
        opt_entry("code"@, str_field(x.code)) + opt_entry(
            "httpStatusCode"@,
            Some(JsonVal::Int(x.http_status_code as i64)),
        ) + opt_entry("senderFault"@, bool_field(x.sender_fault)),
    )
}

pub open spec fn enc_message(x: Message, pol: DocPolicy) -> JsonVal {
    JsonVal::Obj(
        opt_entry("shape"@, Some(JsonVal::Str(x.shape@))) + opt_entry(
            "locationName"@,
            str_field(x.location_name),
        ) + opt_entry("xmlNamespace"@, xmlns_field(x.xml_namespace)) + opt_entry(
            "resultWrapper"@,
            str_field(x.result_wrapper),
        ) + opt_entry("documentation"@, doc_field(x.documentation.documentation, pol)),
    )
}

pub open spec fn enc_shape_ref(x: ShapeRef, pol: DocPolicy) -> JsonVal {
    JsonVal::Obj(
        opt_entry("shape"@, Some(JsonVal::Str(x.shape@))) + opt_entry("box"@, bool_field(x.box_))
            + opt_entry("deprecated"@, bool_field(x.deprecated)) + opt_entry(
            "eventpayload"@,
            bool_field(x.eventpayload),
        ) + opt_entry("flattened"@, bool_field(x.flattened)) + opt_entry(
            "idempotencyToken"@,
            bool_field(x.idempotency_token),
        ) + opt_entry("streaming"@, bool_field(x.streaming)) + opt_entry(
            "location"@,
            str_field(x.location),
        ) + opt_entry("locationName"@, str_field(x.location_name)) + opt_entry(
            "queryName"@,
            str_field(x.query_name),
        ) + opt_entry("xmlAttribute"@, bool_field(x.xml_attribute)) + opt_entry(
            "xmlNamespace"@,
            xmlns_field(x.xml_namespace),
        ) + opt_entry("documentation"@, doc_field(x.documentation.documentation, pol)),
    )
}

/// Contribution of an optional list of shape references.
pub open spec fn refs_field(v: Option<Vec<ShapeRef>>, pol: DocPolicy) -> Option<JsonVal> {
    match v {
        None => None,
        Some(l) => Some(JsonVal::Arr(l@.map_values(|r: ShapeRef| enc_shape_ref(r, pol)))),
    }
}

pub open spec fn enc_operation(x: Operation, pol: DocPolicy) -> JsonVal {
    JsonVal::Obj(
        opt_entry("name"@, Some(JsonVal::Str(x.name@))) + opt_entry("alias"@, str_field(x.alias))
            + opt_entry("deprecated"@, bool_field(x.deprecated)) + opt_entry(
            "endpointdiscovery"@,
            match x.endpointdiscovery {
                None => None,
                Some(d) => Some(enc_endpoint_discovery(d)),
            },
        ) + opt_entry("endpointoperation"@, bool_field(x.endpointoperation)) + opt_entry(
            "idempotent"@,
            bool_field(x.idempotent),
        ) + opt_entry(
            "http"@,
            match x.http {
                None => None,
                Some(h) => Some(enc_http_operation(h)),
            },
        ) + opt_entry(
            "input"@,
            match x.input {
                None => None,
                Some(m) => Some(enc_message(m, pol)),
            },
        ) + opt_entry(
            "output"@,
            match x.output {
                None => None,
                Some(m) => Some(enc_message(m, pol)),
            },
        ) + opt_entry("errors"@, refs_field(x.errors, pol)) + opt_entry(
            "documentation"@,
            doc_field(x.documentation.documentation, pol),
        ) + opt_entry(
            "documentationUrl"@,
            doc_field(x.documentation_url.documentation_url, pol),
        ),
    )
}

/// Contribution of an optional name-to-shape-reference map field.
pub open spec fn ref_map_field(v: Option<Vec<(String, ShapeRef)>>, pol: DocPolicy) -> Option<
    JsonVal,
> {
    match v {
        None => None,
        Some(m) => Some(
            JsonVal::Obj(m@.map_values(|p: (String, ShapeRef)| (p.0@, enc_shape_ref(p.1, pol)))),
        ),
    }
}

pub open spec fn enc_shape(x: Shape, pol: DocPolicy) -> JsonVal {
    JsonVal::Obj(
        opt_entry("type"@, Some(JsonVal::Str(x.type_@))) + opt_entry("box"@, bool_field(x.box_))
            + opt_entry("event"@, bool_field(x.event)) + opt_entry(
            "eventstream"@,
            bool_field(x.eventstream),
        ) + opt_entry("flattened"@, bool_field(x.flattened)) + opt_entry(
            "sensitive"@,
            bool_field(x.sensitive),
        ) + opt_entry("wrapper"@, bool_field(x.wrapper)) + opt_entry(
            "locationName"@,
            str_field(x.location_name),
        ) + opt_entry("xmlNamespace"@, xmlns_field(x.xml_namespace)) + opt_entry(
            "deprecated"@,
            bool_field(x.deprecated),
        ) + opt_entry("deprecatedMessage"@, str_field(x.deprecated_message)) + opt_entry(
            "min"@,
            int_field(x.min),
        ) + opt_entry("max"@, int_field(x.max)) + opt_entry("enum"@, strs_field(x.enum_))
            + opt_entry("pattern"@, str_field(x.pattern)) + opt_entry(
            "timestampFormat"@,
            str_field(x.timestamp_format),
        ) + opt_entry(
            "key"@,
            match x.key {
                None => None,
                Some(r) => Some(enc_shape_ref(r, pol)),
            },
        ) + opt_entry(
            "value"@,
            match x.value {
                None => None,
                Some(r) => Some(enc_shape_ref(r, pol)),
            },
        ) + opt_entry(
            "error"@,
            match x.error {
                None => None,
                Some(e) => Some(enc_error(e)),
            },
        ) + opt_entry("exception"@, bool_field(x.exception)) + opt_entry(
            "fault"@,
            bool_field(x.fault),
        ) + opt_entry("required"@, strs_field(x.required)) + opt_entry(
            "member"@,
            match x.member {
                None => None,
                Some(r) => Some(enc_shape_ref(r, pol)),
            },
        ) + opt_entry("members"@, ref_map_field(x.members, pol)) + opt_entry(
            "payload"@,
            str_field(x.payload),
        ) + opt_entry("documentation"@, doc_field(x.documentation.documentation, pol)),
    )
}

pub open spec fn op_map_field(v: Option<Vec<(String, Operation)>>, pol: DocPolicy) -> Option<
    JsonVal,
> {
    match v {
        None => None,
        Some(m) => Some(
            JsonVal::Obj(m@.map_values(|p: (String, Operation)| (p.0@, enc_operation(p.1, pol)))),
        ),
    }
}

pub open spec fn shape_map_field(v: Option<Vec<(String, Shape)>>, pol: DocPolicy) -> Option<
    JsonVal,
> {
    match v {
        None => None,
        Some(m) => Some(
            JsonVal::Obj(m@.map_values(|p: (String, Shape)| (p.0@, enc_shape(p.1, pol)))),
        ),
    }
}

pub open spec fn enc_service(x: Service, pol: DocPolicy) -> JsonVal {
    JsonVal::Obj(
        opt_entry("version"@, str_field(x.version)) + opt_entry(
            "documentation"@,
            doc_field(x.documentation.documentation, pol),
        ) + opt_entry(
            "metadata"@,
            match x.metadata {
                None => None,
                Some(m) => Some(enc_metadata(m)),
            },
        ) + opt_entry("operations"@, op_map_field(x.operations, pol)) + opt_entry(
            "shapes"@,
            shape_map_field(x.shapes, pol),
        ),
    )
}

/// View of an optional JSON value.
pub open spec fn opt_vv(v: Option<JsonValue>) -> Option<JsonVal> {
    match v {
        None => None,
        Some(x) => Some(x@),
    }
}

/// Appends one field's contribution to an entry list under construction.
fn push_field(out: &mut Vec<(String, JsonValue)>, name: &str, v: Option<JsonValue>)
    ensures
        entries_view(final(out)@) == entries_view(old(out)@) + opt_entry(name@, opt_vv(v)),
{
    let ghost vv = opt_vv(v);
    match v {
        None => {
            proof {
                assert(entries_view(out@) =~= entries_view(out@) + opt_entry(name@, vv));
            }
        },
        Some(x) => {
            let ghost xv = x@;
            out.push((name.to_owned(), x));
            proof {
                assert(entries_view(out@) =~= entries_view(old(out)@) + opt_entry(name@, vv));
            }
        },
    }
}

fn opt_str_val(v: &Option<String>) -> (r: Option<JsonValue>)
    ensures
        opt_vv(r) == str_field(*v),
{
    match v {
        None => None,
        Some(s) => Some(JsonValue::Str(s.clone())),
    }
}

fn opt_bool_val(v: &Option<bool>) -> (r: Option<JsonValue>)
    ensures
        opt_vv(r) == bool_field(*v),
{
    match v {
        None => None,
        Some(b) => Some(JsonValue::Bool(*b)),
    }
}

fn opt_int_val(v: &Option<i32>) -> (r: Option<JsonValue>)
    ensures
        opt_vv(r) == int_field(*v),
{
    match v {
        None => None,
        Some(i) => Some(JsonValue::Int(*i as i64)),
    }
}

fn str_val(s: &String) -> (r: JsonValue)
    ensures
        r@ == JsonVal::Str(s@),
{
    JsonValue::Str(s.clone())
}

fn opt_strs_val(v: &Option<Vec<String>>) -> (r: Option<JsonValue>)
    ensures
        opt_vv(r) == strs_field(*v),
{
    match v {
        None => None,
        Some(l) => {
            let mut arr: Vec<JsonValue> = Vec::new();
            let mut i: usize = 0;
            while i < l.len()
                invariant
                    i <= l.len(),
                    arr@.len() == i,
                    forall|j: int|
                        0 <= j < i ==> (#[trigger] arr@[j])@ == JsonVal::Str(l@[j]@),
                decreases l.len() - i,
            {
                arr.push(JsonValue::Str(l[i].clone()));
                i += 1;
            }
            proof {
                lemma_arr_view(arr);
                assert(list_view(arr@) =~= l@.map_values(|s: String| JsonVal::Str(s@)));
            }
            Some(JsonValue::Arr(arr))
        },
    }
}

fn doc_val(v: &Option<String>, pol: DocPolicy) -> (r: Option<JsonValue>)
    ensures
        opt_vv(r) == doc_field(*v, pol),
{
    match pol {
        DocPolicy::Strip => None,
        DocPolicy::Include => opt_str_val(v),
    }
}

pub fn encode_xml_namespace(x: &XmlNamespace) -> (r: JsonValue)
    ensures
        r@ == enc_xml_namespace(*x),
{
    let mut out: Vec<(String, JsonValue)> = Vec::new();
    proof {
        assert(entries_view(out@) =~= Seq::<(Seq<char>, JsonVal)>::empty());
    }
    push_field(&mut out, "prefix", opt_str_val(&x.prefix));
    push_field(&mut out, "uri", Some(str_val(&x.uri)));
    proof {
        lemma_obj_view(out);
        assert(entries_view(out@) =~= opt_entry("prefix"@, str_field(x.prefix)) + opt_entry(
            "uri"@,
            Some(JsonVal::Str(x.uri@)),
        ));
    }
    JsonValue::Obj(out)
}

fn opt_xmlns_val(v: &Option<XmlNamespace>) -> (r: Option<JsonValue>)
    ensures
        opt_vv(r) == xmlns_field(*v),
{
    match v {
        None => None,
        Some(n) => Some(encode_xml_namespace(n)),
    }
}

pub fn encode_metadata(x: &Metadata) -> (r: JsonValue)
    ensures
        r@ == enc_metadata(*x),
{
    let mut out: Vec<(String, JsonValue)> = Vec::new();
    proof {
        assert(entries_view(out@) =~= Seq::<(Seq<char>, JsonVal)>::empty());
    }
    push_field(&mut out, "apiVersion", opt_str_val(&x.api_version));
    push_field(&mut out, "jsonVersion", opt_str_val(&x.json_version));
    push_field(&mut out, "endpointPrefix", opt_str_val(&x.endpoint_prefix));
    push_field(&mut out, "globalEndpoint", opt_str_val(&x.global_endpoint));
    push_field(&mut out, "protocol", opt_str_val(&x.protocol));
    push_field(&mut out, "serviceAbbreviation", opt_str_val(&x.service_abbreviation));
    push_field(&mut out, "serviceFullName", opt_str_val(&x.service_full_name));
    push_field(&mut out, "serviceId", opt_str_val(&x.service_id));
    push_field(&mut out, "checksumFormat", opt_str_val(&x.checksum_format));
    push_field(&mut out, "timestampFormat", opt_str_val(&x.timestamp_format));
    push_field(&mut out, "signatureVersion", opt_str_val(&x.signature_version));
    push_field(&mut out, "signingName", opt_str_val(&x.signing_name));
    push_field(&mut out, "targetPrefix", opt_str_val(&x.target_prefix));
    push_field(&mut out, "xmlNamespace", opt_str_val(&x.xml_namespace));
    push_field(&mut out, "uid", opt_str_val(&x.uid));
    proof {
        lemma_obj_view(out);
        assert(JsonVal::Obj(entries_view(out@)) =~~= enc_metadata(*x));
    }
    JsonValue::Obj(out)
}

pub fn encode_http_operation(x: &HttpOperation) -> (r: JsonValue)
    ensures
        r@ == enc_http_operation(*x),
{
    let mut out: Vec<(String, JsonValue)> = Vec::new();
    proof {
        assert(entries_view(out@) =~= Seq::<(Seq<char>, JsonVal)>::empty());
    }
    push_field(&mut out, "method", Some(str_val(&x.method)));
    push_field(&mut out, "requestUri", Some(str_val(&x.request_uri)));
    push_field(&mut out, "responseCode", opt_int_val(&x.response_code));
    proof {
        lemma_obj_view(out);
        assert(JsonVal::Obj(entries_view(out@)) =~~= enc_http_operation(*x));
    }
    JsonValue::Obj(out)
}

pub fn encode_endpoint_discovery(x: &EndpointDiscovery) -> (r: JsonValue)
    ensures
        r@ == enc_endpoint_discovery(*x),
{
    let out: Vec<(String, JsonValue)> = Vec::new();
    proof {
        lemma_obj_view(out);
        assert(entries_view(out@) =~= Seq::<(Seq<char>, JsonVal)>::empty());
    }
    JsonValue::Obj(out)
}

pub fn encode_error(x: &Error) -> (r: JsonValue)
    ensures
        r@ == enc_error(*x),
{
    let mut out: Vec<(String, JsonValue)> = Vec::new();
    proof {
        assert(entries_view(out@) =~= Seq::<(Seq<char>, JsonVal)>::empty());
    }
    push_field(&mut out, "code", opt_str_val(&x.code));
    push_field(&mut out, "httpStatusCode", Some(JsonValue::Int(x.http_status_code as i64)));
    push_field(&mut out, "senderFault", opt_bool_val(&x.sender_fault));
    proof {
        lemma_obj_view(out);
        assert(JsonVal::Obj(entries_view(out@)) =~~= enc_error(*x));
    }
    JsonValue::Obj(out)
}

pub fn encode_message(x: &Message, pol: DocPolicy) -> (r: JsonValue)
    ensures
        r@ == enc_message(*x, pol),
{
    let mut out: Vec<(String, JsonValue)> = Vec::new();
    proof {
        assert(entries_view(out@) =~= Seq::<(Seq<char>, JsonVal)>::empty());
    }
    push_field(&mut out, "shape", Some(str_val(&x.shape)));
    push_field(&mut out, "locationName", opt_str_val(&x.location_name));
    push_field(&mut out, "xmlNamespace", opt_xmlns_val(&x.xml_namespace));
    push_field(&mut out, "resultWrapper", opt_str_val(&x.result_wrapper));
    push_field(&mut out, "documentation", doc_val(&x.documentation.documentation, pol));
    proof {
        lemma_obj_view(out);
        assert(JsonVal::Obj(entries_view(out@)) =~~= enc_message(*x, pol));
    }
    JsonValue::Obj(out)
}

pub fn encode_shape_ref(x: &ShapeRef, pol: DocPolicy) -> (r: JsonValue)
    ensures
        r@ == enc_shape_ref(*x, pol),
{
    let mut out: Vec<(String, JsonValue)> = Vec::new();
    proof {
        assert(entries_view(out@) =~= Seq::<(Seq<char>, JsonVal)>::empty());
    }
    push_field(&mut out, "shape", Some(str_val(&x.shape)));
    push_field(&mut out, "box", opt_bool_val(&x.box_));
    push_field(&mut out, "deprecated", opt_bool_val(&x.deprecated));
    push_field(&mut out, "eventpayload", opt_bool_val(&x.eventpayload));
    push_field(&mut out, "flattened", opt_bool_val(&x.flattened));
    push_field(&mut out, "idempotencyToken", opt_bool_val(&x.idempotency_token));
    push_field(&mut out, "streaming", opt_bool_val(&x.streaming));
    push_field(&mut out, "location", opt_str_val(&x.location));
    push_field(&mut out, "locationName", opt_str_val(&x.location_name));
    push_field(&mut out, "queryName", opt_str_val(&x.query_name));
    push_field(&mut out, "xmlAttribute", opt_bool_val(&x.xml_attribute));
    push_field(&mut out, "xmlNamespace", opt_xmlns_val(&x.xml_namespace));
    push_field(&mut out, "documentation", doc_val(&x.documentation.documentation, pol));
    proof {
        lemma_obj_view(out);
        assert(JsonVal::Obj(entries_view(out@)) =~~= enc_shape_ref(*x, pol));
    }
    JsonValue::Obj(out)
}

fn opt_refs_val(v: &Option<Vec<ShapeRef>>, pol: DocPolicy) -> (r: Option<JsonValue>)
    ensures
        opt_vv(r) == refs_field(*v, pol),
{
    match v {
        None => None,
        Some(l) => {
            let mut arr: Vec<JsonValue> = Vec::new();
            let mut i: usize = 0;
            while i < l.len()
                invariant
                    i <= l.len(),
                    arr@.len() == i,
                    forall|j: int|
                        0 <= j < i ==> (#[trigger] arr@[j])@ == enc_shape_ref(l@[j], pol),
                decreases l.len() - i,
            {
                arr.push(encode_shape_ref(&l[i], pol));
                i += 1;
            }
            proof {
                lemma_arr_view(arr);
                assert(list_view(arr@) =~= l@.map_values(|s: ShapeRef| enc_shape_ref(s, pol)));
            }
            Some(JsonValue::Arr(arr))
        },
    }
}

pub fn encode_operation(x: &Operation, pol: DocPolicy) -> (r: JsonValue)
    ensures
        r@ == enc_operation(*x, pol),
{
    let mut out: Vec<(String, JsonValue)> = Vec::new();
    proof {
        assert(entries_view(out@) =~= Seq::<(Seq<char>, JsonVal)>::empty());
    }
    push_field(&mut out, "name", Some(str_val(&x.name)));
    push_field(&mut out, "alias", opt_str_val(&x.alias));
    push_field(&mut out, "deprecated", opt_bool_val(&x.deprecated));
    let dv = match &x.endpointdiscovery {
        None => None,
        Some(d) => Some(encode_endpoint_discovery(d)),
    };
    push_field(&mut out, "endpointdiscovery", dv);
    push_field(&mut out, "endpointoperation", opt_bool_val(&x.endpointoperation));
    push_field(&mut out, "idempotent", opt_bool_val(&x.idempotent));
    let hv = match &x.http {
        None => None,
        Some(h) => Some(encode_http_operation(h)),
    };
    push_field(&mut out, "http", hv);
    let iv = match &x.input {
        None => None,
        Some(m) => Some(encode_message(m, pol)),
    };
    push_field(&mut out, "input", iv);
    let ov = match &x.output {
        None => None,
        Some(m) => Some(encode_message(m, pol)),
    };
    push_field(&mut out, "output", ov);
    push_field(&mut out, "errors", opt_refs_val(&x.errors, pol));
    push_field(&mut out, "documentation", doc_val(&x.documentation.documentation, pol));
    push_field(&mut out, "documentationUrl", doc_val(&x.documentation_url.documentation_url, pol));
    proof {
        lemma_obj_view(out);
        assert(JsonVal::Obj(entries_view(out@)) =~~= enc_operation(*x, pol));
    }
    JsonValue::Obj(out)
}

fn opt_ref_map_val(v: &Option<Vec<(String, ShapeRef)>>, pol: DocPolicy) -> (r: Option<JsonValue>)
    ensures
        opt_vv(r) == ref_map_field(*v, pol),
{
    match v {
        None => None,
        Some(m) => {
            let mut out: Vec<(String, JsonValue)> = Vec::new();
            let mut i: usize = 0;
            while i < m.len()
                invariant
                    i <= m.len(),
                    out@.len() == i,
                    forall|j: int|
                        0 <= j < i ==> (#[trigger] out@[j]).0@ == m@[j].0@ && out@[j].1@
                            == enc_shape_ref(m@[j].1, pol),
                decreases m.len() - i,
            {
                let key = m[i].0.clone();
                let val = encode_shape_ref(&m[i].1, pol);
                out.push((key, val));
                i += 1;
            }
            proof {
                lemma_obj_view(out);
                assert(entries_view(out@) =~= m@.map_values(
                    |p: (String, ShapeRef)| (p.0@, enc_shape_ref(p.1, pol)),
                ));
            }
            Some(JsonValue::Obj(out))
        },
    }
}

pub fn encode_shape(x: &Shape, pol: DocPolicy) -> (r: JsonValue)
    ensures
        r@ == enc_shape(*x, pol),
{
    let mut out: Vec<(String, JsonValue)> = Vec::new();
    proof {
        assert(entries_view(out@) =~= Seq::<(Seq<char>, JsonVal)>::empty());
    }
    push_field(&mut out, "type", Some(str_val(&x.type_)));
    push_field(&mut out, "box", opt_bool_val(&x.box_));
    push_field(&mut out, "event", opt_bool_val(&x.event));
    push_field(&mut out, "eventstream", opt_bool_val(&x.eventstream));
    push_field(&mut out, "flattened", opt_bool_val(&x.flattened));
    push_field(&mut out, "sensitive", opt_bool_val(&x.sensitive));
    push_field(&mut out, "wrapper", opt_bool_val(&x.wrapper));
    push_field(&mut out, "locationName", opt_str_val(&x.location_name));
    push_field(&mut out, "xmlNamespace", opt_xmlns_val(&x.xml_namespace));
    push_field(&mut out, "deprecated", opt_bool_val(&x.deprecated));
    push_field(&mut out, "deprecatedMessage", opt_str_val(&x.deprecated_message));
    push_field(&mut out, "min", opt_int_val(&x.min));
    push_field(&mut out, "max", opt_int_val(&x.max));
    push_field(&mut out, "enum", opt_strs_val(&x.enum_));
    push_field(&mut out, "pattern", opt_str_val(&x.pattern));
    push_field(&mut out, "timestampFormat", opt_str_val(&x.timestamp_format));
    let kv = match &x.key {
        None => None,
        Some(r) => Some(encode_shape_ref(r, pol)),
    };
    push_field(&mut out, "key", kv);
    let vv = match &x.value {
        None => None,
        Some(r) => Some(encode_shape_ref(r, pol)),
    };
    push_field(&mut out, "value", vv);
    let ev = match &x.error {
        None => None,
        Some(e) => Some(encode_error(e)),
    };
    push_field(&mut out, "error", ev);
    push_field(&mut out, "exception", opt_bool_val(&x.exception));
    push_field(&mut out, "fault", opt_bool_val(&x.fault));
    push_field(&mut out, "required", opt_strs_val(&x.required));
    let mv = match &x.member {
        None => None,
        Some(r) => Some(encode_shape_ref(r, pol)),
    };
    push_field(&mut out, "member", mv);
    push_field(&mut out, "members", opt_ref_map_val(&x.members, pol));
    push_field(&mut out, "payload", opt_str_val(&x.payload));
    push_field(&mut out, "documentation", doc_val(&x.documentation.documentation, pol));
    proof {
        lemma_obj_view(out);
        assert(JsonVal::Obj(entries_view(out@)) =~~= enc_shape(*x, pol));
    }
    JsonValue::Obj(out)
}

fn opt_op_map_val(v: &Option<Vec<(String, Operation)>>, pol: DocPolicy) -> (r: Option<JsonValue>)
    ensures
        opt_vv(r) == op_map_field(*v, pol),
{
    match v {
        None => None,
        Some(m) => {
            let mut out: Vec<(String, JsonValue)> = Vec::new();
            let mut i: usize = 0;
            while i < m.len()
                invariant
                    i <= m.len(),
                    out@.len() == i,
                    forall|j: int|
                        0 <= j < i ==> (#[trigger] out@[j]).0@ == m@[j].0@ && out@[j].1@
                            == enc_operation(m@[j].1, pol),
                decreases m.len() - i,
            {
                let key = m[i].0.clone();
                let val = encode_operation(&m[i].1, pol);
                out.push((key, val));
                i += 1;
            }
            proof {
                lemma_obj_view(out);
                assert(entries_view(out@) =~= m@.map_values(
                    |p: (String, Operation)| (p.0@, enc_operation(p.1, pol)),
                ));
            }
            Some(JsonValue::Obj(out))
        },
    }
}

fn opt_shape_map_val(v: &Option<Vec<(String, Shape)>>, pol: DocPolicy) -> (r: Option<JsonValue>)
    ensures
        opt_vv(r) == shape_map_field(*v, pol),
{
    match v {
        None => None,
        Some(m) => {
            let mut out: Vec<(String, JsonValue)> = Vec::new();
            let mut i: usize = 0;
            while i < m.len()
                invariant
                    i <= m.len(),
                    out@.len() == i,
                    forall|j: int|
                        0 <= j < i ==> (#[trigger] out@[j]).0@ == m@[j].0@ && out@[j].1@
                            == enc_shape(m@[j].1, pol),
                decreases m.len() - i,
            {
                let key = m[i].0.clone();
                let val = encode_shape(&m[i].1, pol);
                out.push((key, val));
                i += 1;
            }
            proof {
                lemma_obj_view(out);
                assert(entries_view(out@) =~= m@.map_values(
                    |p: (String, Shape)| (p.0@, enc_shape(p.1, pol)),
                ));
            }
            Some(JsonValue::Obj(out))
        },
    }
}

/// Encodes a whole service document into a JSON value tree, emitting
/// fields in schema order and applying the documentation policy.
pub fn encode_service(x: &Service, pol: DocPolicy) -> (r: JsonValue)
    ensures
        r@ == enc_service(*x, pol),
{
    let mut out: Vec<(String, JsonValue)> = Vec::new();
    proof {
        assert(entries_view(out@) =~= Seq::<(Seq<char>, JsonVal)>::empty());
    }
    push_field(&mut out, "version", opt_str_val(&x.version));
    push_field(&mut out, "documentation", doc_val(&x.documentation.documentation, pol));
    let mv = match &x.metadata {
        None => None,
        Some(m) => Some(encode_metadata(m)),
    };
    push_field(&mut out, "metadata", mv);
    push_field(&mut out, "operations", opt_op_map_val(&x.operations, pol));
    push_field(&mut out, "shapes", opt_shape_map_val(&x.shapes, pol));
    proof {
        lemma_obj_view(out);
        assert(JsonVal::Obj(entries_view(out@)) =~~= enc_service(*x, pol));
    }
    JsonValue::Obj(out)
}

} // verus!
