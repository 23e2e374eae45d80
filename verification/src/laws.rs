//! Laws of the codec, stated over the same spec functions that the
//! decoder's and encoder's contracts use.
//!
//! Round trip: an `XmlNamespace`, `Error`, `HttpOperation`,
//! `EndpointDiscovery` or `Message` encoded with documentation included
//! decodes successfully, and everything a decode of the encoding returns is
//! value-equal to the tree that was encoded. (The same statement for the
//! wider entities and the whole `Service` exceeds the verifier's resource
//! budget with the present lookup lemmas and is exercised by tests
//! instead.) Strict rejection: a document whose root object holds a field
//! outside the schema is refused with an unknown-field error naming that
//! field. Required fields: a `Shape` without `type`, or an `Error` without
//! `httpStatusCode`, is refused with a missing-field error naming it.
//! Documentation suppression, for `Message`, `Operation` and `Service`:
//! encoding under `Strip` emits no documentation fields and leaves every
//! other field's presence, and every scalar field's value, as under
//! `Include`.

use vstd::prelude::*;

use crate::decode::{
    ed_allowed, err_error, err_service, err_shape, error_allowed, got_opt_strs,
    ok_endpoint_discovery, ok_error, ok_http_operation, ok_message, ok_metadata, ok_operation,
    ok_opt_str, ok_service, ok_shape, ok_shape_ref, ok_xml_namespace, rel_error,
    rel_http_operation, rel_message, rel_metadata, rel_operation, rel_service, rel_shape,
    map_scan_operation, map_scan_shape, map_scan_shape_ref, metadata_allowed, operation_allowed,
    rel_shape_ref, rel_xml_namespace, service_allowed, shape_allowed, shape_ref_allowed,
    xmlns_allowed, ErrV,
};
use crate::encode::{
    bool_field, doc_field, enc_endpoint_discovery, enc_error, enc_http_operation, enc_message,
    enc_metadata, enc_operation, enc_service, enc_shape, enc_shape_ref, enc_xml_namespace,
    int_field, op_map_field, ref_map_field, refs_field, shape_map_field, str_field, strs_field,
    xmlns_field,
};
use crate::json::{
    first_unknown, lemma_first_unknown_append, lemma_first_unknown_entry, lemma_lookup_append,
    lemma_lookup_entry, lookup, JsonVal,
};
use crate::model::{
    eq_error, eq_http_operation, eq_message, eq_metadata, eq_operation, eq_service, eq_shape,
    eq_shape_ref, eq_xml_namespace, DocPolicy, EndpointDiscovery, Error, HttpOperation, Message,
    wf_service, wf_shape, Metadata, Operation, Service, Shape, ShapeRef, XmlNamespace,
};

verus! {


/// Encoding an `XmlNamespace` decodes back to an equal value.
pub proof fn lemma_round_trip_xml_namespace(x: XmlNamespace, y: XmlNamespace)
    ensures
        ok_xml_namespace(enc_xml_namespace(x)),
        rel_xml_namespace(enc_xml_namespace(x), y) ==> eq_xml_namespace(y, x),
{
    broadcast use lemma_lookup_append;
    broadcast use lemma_lookup_entry;
    broadcast use lemma_first_unknown_append;
    broadcast use lemma_first_unknown_entry;

    reveal_strlit("prefix");
    assert("prefix"@ =~= seq!['p', 'r', 'e', 'f', 'i', 'x']);
    reveal_strlit("uri");
    assert("uri"@ =~= seq!['u', 'r', 'i']);
}


/// Encoding an `Error` decodes back to an equal value.
pub proof fn lemma_round_trip_error(x: Error, y: Error)
    ensures
        ok_error(enc_error(x)),
        rel_error(enc_error(x), y) ==> eq_error(y, x),
{
    broadcast use lemma_lookup_append;
    broadcast use lemma_lookup_entry;
    broadcast use lemma_first_unknown_append;
    broadcast use lemma_first_unknown_entry;

    reveal_strlit("code");
    assert("code"@ =~= seq!['c', 'o', 'd', 'e']);
    reveal_strlit("httpStatusCode");
    assert("httpStatusCode"@ =~= seq!['h', 't', 't', 'p', 'S', 't', 'a', 't', 'u', 's', 'C', 'o', 'd', 'e']);
    reveal_strlit("senderFault");
    assert("senderFault"@ =~= seq!['s', 'e', 'n', 'd', 'e', 'r', 'F', 'a', 'u', 'l', 't']);
}


/// Encoding a `HttpOperation` decodes back to an equal value.
pub proof fn lemma_round_trip_http_operation(x: HttpOperation, y: HttpOperation)
    ensures
        ok_http_operation(enc_http_operation(x)),
        rel_http_operation(enc_http_operation(x), y) ==> eq_http_operation(y, x),
{
    broadcast use lemma_lookup_append;
    broadcast use lemma_lookup_entry;
    broadcast use lemma_first_unknown_append;
    broadcast use lemma_first_unknown_entry;

    reveal_strlit("method");
    assert("method"@ =~= seq!['m', 'e', 't', 'h', 'o', 'd']);
    reveal_strlit("requestUri");
    assert("requestUri"@ =~= seq!['r', 'e', 'q', 'u', 'e', 's', 't', 'U', 'r', 'i']);
    reveal_strlit("responseCode");
    assert("responseCode"@ =~= seq!['r', 'e', 's', 'p', 'o', 'n', 's', 'e', 'C', 'o', 'd', 'e']);
}


/// Encoding an `EndpointDiscovery` decodes back successfully.
pub proof fn lemma_round_trip_endpoint_discovery(x: EndpointDiscovery)
    ensures
        ok_endpoint_discovery(enc_endpoint_discovery(x)),
{
    broadcast use lemma_first_unknown_append;
    broadcast use lemma_first_unknown_entry;

    assert(first_unknown(Seq::<(Seq<char>, JsonVal)>::empty(), ed_allowed()) is None);
}


/// Encoding a `Message` with documentation included decodes back to an
/// equal value.
pub proof fn lemma_round_trip_message(x: Message, y: Message)
    ensures
        ok_message(enc_message(x, DocPolicy::Include)),
        rel_message(enc_message(x, DocPolicy::Include), y) ==> eq_message(y, x),
{
    broadcast use lemma_lookup_append;
    broadcast use lemma_lookup_entry;
    broadcast use lemma_first_unknown_append;
    broadcast use lemma_first_unknown_entry;

    reveal_strlit("shape");
    assert("shape"@ =~= seq!['s', 'h', 'a', 'p', 'e']);
    reveal_strlit("locationName");
    assert("locationName"@ =~= seq!['l', 'o', 'c', 'a', 't', 'i', 'o', 'n', 'N', 'a', 'm', 'e']);
    reveal_strlit("xmlNamespace");
    assert("xmlNamespace"@ =~= seq!['x', 'm', 'l', 'N', 'a', 'm', 'e', 's', 'p', 'a', 'c', 'e']);
    reveal_strlit("resultWrapper");
    assert("resultWrapper"@ =~= seq!['r', 'e', 's', 'u', 'l', 't', 'W', 'r', 'a', 'p', 'p', 'e', 'r']);
    reveal_strlit("documentation");
    assert("documentation"@ =~= seq!['d', 'o', 'c', 'u', 'm', 'e', 'n', 't', 'a', 't', 'i', 'o', 'n']);
    match x.xml_namespace {
        Some(n) => {
            lemma_round_trip_xml_namespace(n, n);
        },
        None => {},
    }
    if rel_message(enc_message(x, DocPolicy::Include), y) {
        match (x.xml_namespace, y.xml_namespace) {
            (Some(a), Some(b)) => {
                lemma_round_trip_xml_namespace(a, b);
            },
            _ => {},
        }
    }
}


/// Strict rejection: a document whose root object carries a field outside
/// the service schema never decodes, and the error names that field.
pub proof fn lemma_strict_rejection(v: JsonVal)
    requires
        v is Obj,
        first_unknown(v->Obj_0, service_allowed()) is Some,
    ensures
        !ok_service(v),
        err_service(v) == (ErrV::UnknownField {
            path: Seq::empty(),
            field: first_unknown(v->Obj_0, service_allowed())->Some_0,
        }),
{
}

/// A `Shape` document without its required `type` field never decodes,
/// and the error is a missing-field error naming `type`.
pub proof fn lemma_shape_requires_type(v: JsonVal)
    requires
        v is Obj,
        first_unknown(v->Obj_0, shape_allowed()) is None,
        lookup(v->Obj_0, "type"@) is None,
    ensures
        !ok_shape(v),
        err_shape(v) == (ErrV::MissingField { path: Seq::empty(), field: "type"@ }),
{
}

/// An `Error` document without its required `httpStatusCode` field never
/// decodes, and the error is a missing-field error naming it.
pub proof fn lemma_error_requires_status(v: JsonVal)
    requires
        v is Obj,
        first_unknown(v->Obj_0, error_allowed()) is None,
        ok_opt_str(v->Obj_0, "code"@),
        lookup(v->Obj_0, "httpStatusCode"@) is None,
    ensures
        !ok_error(v),
        err_error(v) == (ErrV::MissingField { path: Seq::empty(), field: "httpStatusCode"@ }),
{
}


/// Documentation suppression for a `Message`: under `Strip` the
/// documentation fields are not emitted at all, every other field is
/// emitted exactly when it is under `Include`, and every field not holding
/// a nested entity keeps the very same value.
#[verifier::rlimit(100)]
pub proof fn lemma_doc_suppression_message(x: Message)
    ensures
        lookup(enc_message(x, DocPolicy::Strip)->Obj_0, "documentation"@) is None,
        lookup(enc_message(x, DocPolicy::Strip)->Obj_0, "shape"@) == lookup(
            enc_message(x, DocPolicy::Include)->Obj_0,
            "shape"@,
        ),
        lookup(enc_message(x, DocPolicy::Strip)->Obj_0, "locationName"@) == lookup(
            enc_message(x, DocPolicy::Include)->Obj_0,
            "locationName"@,
        ),
        (lookup(enc_message(x, DocPolicy::Strip)->Obj_0, "xmlNamespace"@) is Some) == (lookup(
            enc_message(x, DocPolicy::Include)->Obj_0,
            "xmlNamespace"@,
        ) is Some),
        lookup(enc_message(x, DocPolicy::Strip)->Obj_0, "resultWrapper"@) == lookup(
            enc_message(x, DocPolicy::Include)->Obj_0,
            "resultWrapper"@,
        ),
{
    broadcast use lemma_lookup_append;
    broadcast use lemma_lookup_entry;
    broadcast use lemma_first_unknown_append;
    broadcast use lemma_first_unknown_entry;

    reveal_strlit("shape");
    assert("shape"@ =~= seq!['s', 'h', 'a', 'p', 'e']);
    reveal_strlit("locationName");
    assert("locationName"@ =~= seq!['l', 'o', 'c', 'a', 't', 'i', 'o', 'n', 'N', 'a', 'm', 'e']);
    reveal_strlit("xmlNamespace");
    assert("xmlNamespace"@ =~= seq!['x', 'm', 'l', 'N', 'a', 'm', 'e', 's', 'p', 'a', 'c', 'e']);
    reveal_strlit("resultWrapper");
    assert("resultWrapper"@ =~= seq!['r', 'e', 's', 'u', 'l', 't', 'W', 'r', 'a', 'p', 'p', 'e', 'r']);
    reveal_strlit("documentation");
    assert("documentation"@ =~= seq!['d', 'o', 'c', 'u', 'm', 'e', 'n', 't', 'a', 't', 'i', 'o', 'n']);
}


/// Documentation suppression for an `Operation`: under `Strip` the
/// documentation fields are not emitted at all, every other field is
/// emitted exactly when it is under `Include`, and every field not holding
/// a nested entity keeps the very same value.
#[verifier::rlimit(100)]
pub proof fn lemma_doc_suppression_operation(x: Operation)
    ensures
        lookup(enc_operation(x, DocPolicy::Strip)->Obj_0, "documentation"@) is None,
        lookup(enc_operation(x, DocPolicy::Strip)->Obj_0, "documentationUrl"@) is None,
        lookup(enc_operation(x, DocPolicy::Strip)->Obj_0, "name"@) == lookup(
            enc_operation(x, DocPolicy::Include)->Obj_0,
            "name"@,
        ),
        lookup(enc_operation(x, DocPolicy::Strip)->Obj_0, "alias"@) == lookup(
            enc_operation(x, DocPolicy::Include)->Obj_0,
            "alias"@,
        ),
        lookup(enc_operation(x, DocPolicy::Strip)->Obj_0, "deprecated"@) == lookup(
            enc_operation(x, DocPolicy::Include)->Obj_0,
            "deprecated"@,
        ),
        (lookup(enc_operation(x, DocPolicy::Strip)->Obj_0, "endpointdiscovery"@) is Some) == (lookup(
            enc_operation(x, DocPolicy::Include)->Obj_0,
            "endpointdiscovery"@,
        ) is Some),
        lookup(enc_operation(x, DocPolicy::Strip)->Obj_0, "endpointoperation"@) == lookup(
            enc_operation(x, DocPolicy::Include)->Obj_0,
            "endpointoperation"@,
        ),
        lookup(enc_operation(x, DocPolicy::Strip)->Obj_0, "idempotent"@) == lookup(
            enc_operation(x, DocPolicy::Include)->Obj_0,
            "idempotent"@,
        ),
        (lookup(enc_operation(x, DocPolicy::Strip)->Obj_0, "http"@) is Some) == (lookup(
            enc_operation(x, DocPolicy::Include)->Obj_0,
            "http"@,
        ) is Some),
        (lookup(enc_operation(x, DocPolicy::Strip)->Obj_0, "input"@) is Some) == (lookup(
            enc_operation(x, DocPolicy::Include)->Obj_0,
            "input"@,
        ) is Some),
        (lookup(enc_operation(x, DocPolicy::Strip)->Obj_0, "output"@) is Some) == (lookup(
            enc_operation(x, DocPolicy::Include)->Obj_0,
            "output"@,
        ) is Some),
        (lookup(enc_operation(x, DocPolicy::Strip)->Obj_0, "errors"@) is Some) == (lookup(
            enc_operation(x, DocPolicy::Include)->Obj_0,
            "errors"@,
        ) is Some),
{
    broadcast use lemma_lookup_append;
    broadcast use lemma_lookup_entry;
    broadcast use lemma_first_unknown_append;
    broadcast use lemma_first_unknown_entry;

    reveal_strlit("name");
    assert("name"@ =~= seq!['n', 'a', 'm', 'e']);
    reveal_strlit("alias");
    assert("alias"@ =~= seq!['a', 'l', 'i', 'a', 's']);
    reveal_strlit("deprecated");
    assert("deprecated"@ =~= seq!['d', 'e', 'p', 'r', 'e', 'c', 'a', 't', 'e', 'd']);
    reveal_strlit("endpointdiscovery");
    assert("endpointdiscovery"@ =~= seq!['e', 'n', 'd', 'p', 'o', 'i', 'n', 't', 'd', 'i', 's', 'c', 'o', 'v', 'e', 'r', 'y']);
    reveal_strlit("endpointoperation");
    assert("endpointoperation"@ =~= seq!['e', 'n', 'd', 'p', 'o', 'i', 'n', 't', 'o', 'p', 'e', 'r', 'a', 't', 'i', 'o', 'n']);
    reveal_strlit("idempotent");
    assert("idempotent"@ =~= seq!['i', 'd', 'e', 'm', 'p', 'o', 't', 'e', 'n', 't']);
    reveal_strlit("http");
    assert("http"@ =~= seq!['h', 't', 't', 'p']);
    reveal_strlit("input");
    assert("input"@ =~= seq!['i', 'n', 'p', 'u', 't']);
    reveal_strlit("output");
    assert("output"@ =~= seq!['o', 'u', 't', 'p', 'u', 't']);
    reveal_strlit("errors");
    assert("errors"@ =~= seq!['e', 'r', 'r', 'o', 'r', 's']);
    reveal_strlit("documentation");
    assert("documentation"@ =~= seq!['d', 'o', 'c', 'u', 'm', 'e', 'n', 't', 'a', 't', 'i', 'o', 'n']);
    reveal_strlit("documentationUrl");
    assert("documentationUrl"@ =~= seq!['d', 'o', 'c', 'u', 'm', 'e', 'n', 't', 'a', 't', 'i', 'o', 'n', 'U', 'r', 'l']);
}


/// Documentation suppression for a `Service`: under `Strip` the
/// documentation fields are not emitted at all, every other field is
/// emitted exactly when it is under `Include`, and every field not holding
/// a nested entity keeps the very same value.
#[verifier::rlimit(100)]
pub proof fn lemma_doc_suppression_service(x: Service)
    ensures
        lookup(enc_service(x, DocPolicy::Strip)->Obj_0, "documentation"@) is None,
        lookup(enc_service(x, DocPolicy::Strip)->Obj_0, "version"@) == lookup(
            enc_service(x, DocPolicy::Include)->Obj_0,
            "version"@,
        ),
        (lookup(enc_service(x, DocPolicy::Strip)->Obj_0, "metadata"@) is Some) == (lookup(
            enc_service(x, DocPolicy::Include)->Obj_0,
            "metadata"@,
        ) is Some),
        (lookup(enc_service(x, DocPolicy::Strip)->Obj_0, "operations"@) is Some) == (lookup(
            enc_service(x, DocPolicy::Include)->Obj_0,
            "operations"@,
        ) is Some),
        (lookup(enc_service(x, DocPolicy::Strip)->Obj_0, "shapes"@) is Some) == (lookup(
            enc_service(x, DocPolicy::Include)->Obj_0,
            "shapes"@,
        ) is Some),
{
    broadcast use lemma_lookup_append;
    broadcast use lemma_lookup_entry;
    broadcast use lemma_first_unknown_append;
    broadcast use lemma_first_unknown_entry;

    reveal_strlit("version");
    assert("version"@ =~= seq!['v', 'e', 'r', 's', 'i', 'o', 'n']);
    reveal_strlit("documentation");
    assert("documentation"@ =~= seq!['d', 'o', 'c', 'u', 'm', 'e', 'n', 't', 'a', 't', 'i', 'o', 'n']);
    reveal_strlit("metadata");
    assert("metadata"@ =~= seq!['m', 'e', 't', 'a', 'd', 'a', 't', 'a']);
    reveal_strlit("operations");
    assert("operations"@ =~= seq!['o', 'p', 'e', 'r', 'a', 't', 'i', 'o', 'n', 's']);
    reveal_strlit("shapes");
    assert("shapes"@ =~= seq!['s', 'h', 'a', 'p', 'e', 's']);
}


proof fn lk_metadata_apiversion(x: Metadata)
    ensures
        lookup(enc_metadata(x)->Obj_0, "apiVersion"@) == (str_field(x.api_version)),
{
    broadcast use lemma_lookup_append;
    broadcast use lemma_lookup_entry;
    broadcast use lemma_first_unknown_append;
    broadcast use lemma_first_unknown_entry;

    reveal_strlit("apiVersion");
    assert("apiVersion"@ =~= seq!['a', 'p', 'i', 'V', 'e', 'r', 's', 'i', 'o', 'n']);
    reveal_strlit("jsonVersion");
    assert("jsonVersion"@ =~= seq!['j', 's', 'o', 'n', 'V', 'e', 'r', 's', 'i', 'o', 'n']);
    reveal_strlit("endpointPrefix");
    assert("endpointPrefix"@ =~= seq!['e', 'n', 'd', 'p', 'o', 'i', 'n', 't', 'P', 'r', 'e', 'f', 'i', 'x']);
    reveal_strlit("globalEndpoint");
    assert("globalEndpoint"@ =~= seq!['g', 'l', 'o', 'b', 'a', 'l', 'E', 'n', 'd', 'p', 'o', 'i', 'n', 't']);
    reveal_strlit("protocol");
    assert("protocol"@ =~= seq!['p', 'r', 'o', 't', 'o', 'c', 'o', 'l']);
    reveal_strlit("serviceAbbreviation");
    assert("serviceAbbreviation"@ =~= seq!['s', 'e', 'r', 'v', 'i', 'c', 'e', 'A', 'b', 'b', 'r', 'e', 'v', 'i', 'a', 't', 'i', 'o', 'n']);
    reveal_strlit("serviceFullName");
    assert("serviceFullName"@ =~= seq!['s', 'e', 'r', 'v', 'i', 'c', 'e', 'F', 'u', 'l', 'l', 'N', 'a', 'm', 'e']);
    reveal_strlit("serviceId");
    assert("serviceId"@ =~= seq!['s', 'e', 'r', 'v', 'i', 'c', 'e', 'I', 'd']);
    reveal_strlit("checksumFormat");
    assert("checksumFormat"@ =~= seq!['c', 'h', 'e', 'c', 'k', 's', 'u', 'm', 'F', 'o', 'r', 'm', 'a', 't']);
    reveal_strlit("timestampFormat");
    assert("timestampFormat"@ =~= seq!['t', 'i', 'm', 'e', 's', 't', 'a', 'm', 'p', 'F', 'o', 'r', 'm', 'a', 't']);
    reveal_strlit("signatureVersion");
    assert("signatureVersion"@ =~= seq!['s', 'i', 'g', 'n', 'a', 't', 'u', 'r', 'e', 'V', 'e', 'r', 's', 'i', 'o', 'n']);
    reveal_strlit("signingName");
    assert("signingName"@ =~= seq!['s', 'i', 'g', 'n', 'i', 'n', 'g', 'N', 'a', 'm', 'e']);
    reveal_strlit("targetPrefix");
    assert("targetPrefix"@ =~= seq!['t', 'a', 'r', 'g', 'e', 't', 'P', 'r', 'e', 'f', 'i', 'x']);
    reveal_strlit("xmlNamespace");
    assert("xmlNamespace"@ =~= seq!['x', 'm', 'l', 'N', 'a', 'm', 'e', 's', 'p', 'a', 'c', 'e']);
    reveal_strlit("uid");
    assert("uid"@ =~= seq!['u', 'i', 'd']);
}


proof fn lk_metadata_jsonversion(x: Metadata)
    ensures
        lookup(enc_metadata(x)->Obj_0, "jsonVersion"@) == (str_field(x.json_version)),
{
    broadcast use lemma_lookup_append;
    broadcast use lemma_lookup_entry;
    broadcast use lemma_first_unknown_append;
    broadcast use lemma_first_unknown_entry;

    reveal_strlit("apiVersion");
    assert("apiVersion"@ =~= seq!['a', 'p', 'i', 'V', 'e', 'r', 's', 'i', 'o', 'n']);
    reveal_strlit("jsonVersion");
    assert("jsonVersion"@ =~= seq!['j', 's', 'o', 'n', 'V', 'e', 'r', 's', 'i', 'o', 'n']);
    reveal_strlit("endpointPrefix");
    assert("endpointPrefix"@ =~= seq!['e', 'n', 'd', 'p', 'o', 'i', 'n', 't', 'P', 'r', 'e', 'f', 'i', 'x']);
    reveal_strlit("globalEndpoint");
    assert("globalEndpoint"@ =~= seq!['g', 'l', 'o', 'b', 'a', 'l', 'E', 'n', 'd', 'p', 'o', 'i', 'n', 't']);
    reveal_strlit("protocol");
    assert("protocol"@ =~= seq!['p', 'r', 'o', 't', 'o', 'c', 'o', 'l']);
    reveal_strlit("serviceAbbreviation");
    assert("serviceAbbreviation"@ =~= seq!['s', 'e', 'r', 'v', 'i', 'c', 'e', 'A', 'b', 'b', 'r', 'e', 'v', 'i', 'a', 't', 'i', 'o', 'n']);
    reveal_strlit("serviceFullName");
    assert("serviceFullName"@ =~= seq!['s', 'e', 'r', 'v', 'i', 'c', 'e', 'F', 'u', 'l', 'l', 'N', 'a', 'm', 'e']);
    reveal_strlit("serviceId");
    assert("serviceId"@ =~= seq!['s', 'e', 'r', 'v', 'i', 'c', 'e', 'I', 'd']);
    reveal_strlit("checksumFormat");
    assert("checksumFormat"@ =~= seq!['c', 'h', 'e', 'c', 'k', 's', 'u', 'm', 'F', 'o', 'r', 'm', 'a', 't']);
    reveal_strlit("timestampFormat");
    assert("timestampFormat"@ =~= seq!['t', 'i', 'm', 'e', 's', 't', 'a', 'm', 'p', 'F', 'o', 'r', 'm', 'a', 't']);
    reveal_strlit("signatureVersion");
    assert("signatureVersion"@ =~= seq!['s', 'i', 'g', 'n', 'a', 't', 'u', 'r', 'e', 'V', 'e', 'r', 's', 'i', 'o', 'n']);
    reveal_strlit("signingName");
    assert("signingName"@ =~= seq!['s', 'i', 'g', 'n', 'i', 'n', 'g', 'N', 'a', 'm', 'e']);
    reveal_strlit("targetPrefix");
    assert("targetPrefix"@ =~= seq!['t', 'a', 'r', 'g', 'e', 't', 'P', 'r', 'e', 'f', 'i', 'x']);
    reveal_strlit("xmlNamespace");
    assert("xmlNamespace"@ =~= seq!['x', 'm', 'l', 'N', 'a', 'm', 'e', 's', 'p', 'a', 'c', 'e']);
    reveal_strlit("uid");
    assert("uid"@ =~= seq!['u', 'i', 'd']);
}


proof fn lk_metadata_endpointprefix(x: Metadata)
    ensures
        lookup(enc_metadata(x)->Obj_0, "endpointPrefix"@) == (str_field(x.endpoint_prefix)),
{
    broadcast use lemma_lookup_append;
    broadcast use lemma_lookup_entry;
    broadcast use lemma_first_unknown_append;
    broadcast use lemma_first_unknown_entry;

    reveal_strlit("apiVersion");
    assert("apiVersion"@ =~= seq!['a', 'p', 'i', 'V', 'e', 'r', 's', 'i', 'o', 'n']);
    reveal_strlit("jsonVersion");
    assert("jsonVersion"@ =~= seq!['j', 's', 'o', 'n', 'V', 'e', 'r', 's', 'i', 'o', 'n']);
    reveal_strlit("endpointPrefix");
    assert("endpointPrefix"@ =~= seq!['e', 'n', 'd', 'p', 'o', 'i', 'n', 't', 'P', 'r', 'e', 'f', 'i', 'x']);
    reveal_strlit("globalEndpoint");
    assert("globalEndpoint"@ =~= seq!['g', 'l', 'o', 'b', 'a', 'l', 'E', 'n', 'd', 'p', 'o', 'i', 'n', 't']);
    reveal_strlit("protocol");
    assert("protocol"@ =~= seq!['p', 'r', 'o', 't', 'o', 'c', 'o', 'l']);
    reveal_strlit("serviceAbbreviation");
    assert("serviceAbbreviation"@ =~= seq!['s', 'e', 'r', 'v', 'i', 'c', 'e', 'A', 'b', 'b', 'r', 'e', 'v', 'i', 'a', 't', 'i', 'o', 'n']);
    reveal_strlit("serviceFullName");
    assert("serviceFullName"@ =~= seq!['s', 'e', 'r', 'v', 'i', 'c', 'e', 'F', 'u', 'l', 'l', 'N', 'a', 'm', 'e']);
    reveal_strlit("serviceId");
    assert("serviceId"@ =~= seq!['s', 'e', 'r', 'v', 'i', 'c', 'e', 'I', 'd']);
    reveal_strlit("checksumFormat");
    assert("checksumFormat"@ =~= seq!['c', 'h', 'e', 'c', 'k', 's', 'u', 'm', 'F', 'o', 'r', 'm', 'a', 't']);
    reveal_strlit("timestampFormat");
    assert("timestampFormat"@ =~= seq!['t', 'i', 'm', 'e', 's', 't', 'a', 'm', 'p', 'F', 'o', 'r', 'm', 'a', 't']);
    reveal_strlit("signatureVersion");
    assert("signatureVersion"@ =~= seq!['s', 'i', 'g', 'n', 'a', 't', 'u', 'r', 'e', 'V', 'e', 'r', 's', 'i', 'o', 'n']);
    reveal_strlit("signingName");
    assert("signingName"@ =~= seq!['s', 'i', 'g', 'n', 'i', 'n', 'g', 'N', 'a', 'm', 'e']);
    reveal_strlit("targetPrefix");
    assert("targetPrefix"@ =~= seq!['t', 'a', 'r', 'g', 'e', 't', 'P', 'r', 'e', 'f', 'i', 'x']);
    reveal_strlit("xmlNamespace");
    assert("xmlNamespace"@ =~= seq!['x', 'm', 'l', 'N', 'a', 'm', 'e', 's', 'p', 'a', 'c', 'e']);
    reveal_strlit("uid");
    assert("uid"@ =~= seq!['u', 'i', 'd']);
}


proof fn lk_metadata_globalendpoint(x: Metadata)
    ensures
        lookup(enc_metadata(x)->Obj_0, "globalEndpoint"@) == (str_field(x.global_endpoint)),
{
    broadcast use lemma_lookup_append;
    broadcast use lemma_lookup_entry;
    broadcast use lemma_first_unknown_append;
    broadcast use lemma_first_unknown_entry;

    reveal_strlit("apiVersion");
    assert("apiVersion"@ =~= seq!['a', 'p', 'i', 'V', 'e', 'r', 's', 'i', 'o', 'n']);
    reveal_strlit("jsonVersion");
    assert("jsonVersion"@ =~= seq!['j', 's', 'o', 'n', 'V', 'e', 'r', 's', 'i', 'o', 'n']);
    reveal_strlit("endpointPrefix");
    assert("endpointPrefix"@ =~= seq!['e', 'n', 'd', 'p', 'o', 'i', 'n', 't', 'P', 'r', 'e', 'f', 'i', 'x']);
    reveal_strlit("globalEndpoint");
    assert("globalEndpoint"@ =~= seq!['g', 'l', 'o', 'b', 'a', 'l', 'E', 'n', 'd', 'p', 'o', 'i', 'n', 't']);
    reveal_strlit("protocol");
    assert("protocol"@ =~= seq!['p', 'r', 'o', 't', 'o', 'c', 'o', 'l']);
    reveal_strlit("serviceAbbreviation");
    assert("serviceAbbreviation"@ =~= seq!['s', 'e', 'r', 'v', 'i', 'c', 'e', 'A', 'b', 'b', 'r', 'e', 'v', 'i', 'a', 't', 'i', 'o', 'n']);
    reveal_strlit("serviceFullName");
    assert("serviceFullName"@ =~= seq!['s', 'e', 'r', 'v', 'i', 'c', 'e', 'F', 'u', 'l', 'l', 'N', 'a', 'm', 'e']);
    reveal_strlit("serviceId");
    assert("serviceId"@ =~= seq!['s', 'e', 'r', 'v', 'i', 'c', 'e', 'I', 'd']);
    reveal_strlit("checksumFormat");
    assert("checksumFormat"@ =~= seq!['c', 'h', 'e', 'c', 'k', 's', 'u', 'm', 'F', 'o', 'r', 'm', 'a', 't']);
    reveal_strlit("timestampFormat");
    assert("timestampFormat"@ =~= seq!['t', 'i', 'm', 'e', 's', 't', 'a', 'm', 'p', 'F', 'o', 'r', 'm', 'a', 't']);
    reveal_strlit("signatureVersion");
    assert("signatureVersion"@ =~= seq!['s', 'i', 'g', 'n', 'a', 't', 'u', 'r', 'e', 'V', 'e', 'r', 's', 'i', 'o', 'n']);
    reveal_strlit("signingName");
    assert("signingName"@ =~= seq!['s', 'i', 'g', 'n', 'i', 'n', 'g', 'N', 'a', 'm', 'e']);
    reveal_strlit("targetPrefix");
    assert("targetPrefix"@ =~= seq!['t', 'a', 'r', 'g', 'e', 't', 'P', 'r', 'e', 'f', 'i', 'x']);
    reveal_strlit("xmlNamespace");
    assert("xmlNamespace"@ =~= seq!['x', 'm', 'l', 'N', 'a', 'm', 'e', 's', 'p', 'a', 'c', 'e']);
    reveal_strlit("uid");
    assert("uid"@ =~= seq!['u', 'i', 'd']);
}


proof fn lk_metadata_protocol(x: Metadata)
    ensures
        lookup(enc_metadata(x)->Obj_0, "protocol"@) == (str_field(x.protocol)),
{
    broadcast use lemma_lookup_append;
    broadcast use lemma_lookup_entry;
    broadcast use lemma_first_unknown_append;
    broadcast use lemma_first_unknown_entry;

    reveal_strlit("apiVersion");
    assert("apiVersion"@ =~= seq!['a', 'p', 'i', 'V', 'e', 'r', 's', 'i', 'o', 'n']);
    reveal_strlit("jsonVersion");
    assert("jsonVersion"@ =~= seq!['j', 's', 'o', 'n', 'V', 'e', 'r', 's', 'i', 'o', 'n']);
    reveal_strlit("endpointPrefix");
    assert("endpointPrefix"@ =~= seq!['e', 'n', 'd', 'p', 'o', 'i', 'n', 't', 'P', 'r', 'e', 'f', 'i', 'x']);
    reveal_strlit("globalEndpoint");
    assert("globalEndpoint"@ =~= seq!['g', 'l', 'o', 'b', 'a', 'l', 'E', 'n', 'd', 'p', 'o', 'i', 'n', 't']);
    reveal_strlit("protocol");
    assert("protocol"@ =~= seq!['p', 'r', 'o', 't', 'o', 'c', 'o', 'l']);
    reveal_strlit("serviceAbbreviation");
    assert("serviceAbbreviation"@ =~= seq!['s', 'e', 'r', 'v', 'i', 'c', 'e', 'A', 'b', 'b', 'r', 'e', 'v', 'i', 'a', 't', 'i', 'o', 'n']);
    reveal_strlit("serviceFullName");
    assert("serviceFullName"@ =~= seq!['s', 'e', 'r', 'v', 'i', 'c', 'e', 'F', 'u', 'l', 'l', 'N', 'a', 'm', 'e']);
    reveal_strlit("serviceId");
    assert("serviceId"@ =~= seq!['s', 'e', 'r', 'v', 'i', 'c', 'e', 'I', 'd']);
    reveal_strlit("checksumFormat");
    assert("checksumFormat"@ =~= seq!['c', 'h', 'e', 'c', 'k', 's', 'u', 'm', 'F', 'o', 'r', 'm', 'a', 't']);
    reveal_strlit("timestampFormat");
    assert("timestampFormat"@ =~= seq!['t', 'i', 'm', 'e', 's', 't', 'a', 'm', 'p', 'F', 'o', 'r', 'm', 'a', 't']);
    reveal_strlit("signatureVersion");
    assert("signatureVersion"@ =~= seq!['s', 'i', 'g', 'n', 'a', 't', 'u', 'r', 'e', 'V', 'e', 'r', 's', 'i', 'o', 'n']);
    reveal_strlit("signingName");
    assert("signingName"@ =~= seq!['s', 'i', 'g', 'n', 'i', 'n', 'g', 'N', 'a', 'm', 'e']);
    reveal_strlit("targetPrefix");
    assert("targetPrefix"@ =~= seq!['t', 'a', 'r', 'g', 'e', 't', 'P', 'r', 'e', 'f', 'i', 'x']);
    reveal_strlit("xmlNamespace");
    assert("xmlNamespace"@ =~= seq!['x', 'm', 'l', 'N', 'a', 'm', 'e', 's', 'p', 'a', 'c', 'e']);
    reveal_strlit("uid");
    assert("uid"@ =~= seq!['u', 'i', 'd']);
}


proof fn lk_metadata_serviceabbreviation(x: Metadata)
    ensures
        lookup(enc_metadata(x)->Obj_0, "serviceAbbreviation"@) == (str_field(x.service_abbreviation)),
{
    broadcast use lemma_lookup_append;
    broadcast use lemma_lookup_entry;
    broadcast use lemma_first_unknown_append;
    broadcast use lemma_first_unknown_entry;

    reveal_strlit("apiVersion");
    assert("apiVersion"@ =~= seq!['a', 'p', 'i', 'V', 'e', 'r', 's', 'i', 'o', 'n']);
    reveal_strlit("jsonVersion");
    assert("jsonVersion"@ =~= seq!['j', 's', 'o', 'n', 'V', 'e', 'r', 's', 'i', 'o', 'n']);
    reveal_strlit("endpointPrefix");
    assert("endpointPrefix"@ =~= seq!['e', 'n', 'd', 'p', 'o', 'i', 'n', 't', 'P', 'r', 'e', 'f', 'i', 'x']);
    reveal_strlit("globalEndpoint");
    assert("globalEndpoint"@ =~= seq!['g', 'l', 'o', 'b', 'a', 'l', 'E', 'n', 'd', 'p', 'o', 'i', 'n', 't']);
    reveal_strlit("protocol");
    assert("protocol"@ =~= seq!['p', 'r', 'o', 't', 'o', 'c', 'o', 'l']);
    reveal_strlit("serviceAbbreviation");
    assert("serviceAbbreviation"@ =~= seq!['s', 'e', 'r', 'v', 'i', 'c', 'e', 'A', 'b', 'b', 'r', 'e', 'v', 'i', 'a', 't', 'i', 'o', 'n']);
    reveal_strlit("serviceFullName");
    assert("serviceFullName"@ =~= seq!['s', 'e', 'r', 'v', 'i', 'c', 'e', 'F', 'u', 'l', 'l', 'N', 'a', 'm', 'e']);
    reveal_strlit("serviceId");
    assert("serviceId"@ =~= seq!['s', 'e', 'r', 'v', 'i', 'c', 'e', 'I', 'd']);
    reveal_strlit("checksumFormat");
    assert("checksumFormat"@ =~= seq!['c', 'h', 'e', 'c', 'k', 's', 'u', 'm', 'F', 'o', 'r', 'm', 'a', 't']);
    reveal_strlit("timestampFormat");
    assert("timestampFormat"@ =~= seq!['t', 'i', 'm', 'e', 's', 't', 'a', 'm', 'p', 'F', 'o', 'r', 'm', 'a', 't']);
    reveal_strlit("signatureVersion");
    assert("signatureVersion"@ =~= seq!['s', 'i', 'g', 'n', 'a', 't', 'u', 'r', 'e', 'V', 'e', 'r', 's', 'i', 'o', 'n']);
    reveal_strlit("signingName");
    assert("signingName"@ =~= seq!['s', 'i', 'g', 'n', 'i', 'n', 'g', 'N', 'a', 'm', 'e']);
    reveal_strlit("targetPrefix");
    assert("targetPrefix"@ =~= seq!['t', 'a', 'r', 'g', 'e', 't', 'P', 'r', 'e', 'f', 'i', 'x']);
    reveal_strlit("xmlNamespace");
    assert("xmlNamespace"@ =~= seq!['x', 'm', 'l', 'N', 'a', 'm', 'e', 's', 'p', 'a', 'c', 'e']);
    reveal_strlit("uid");
    assert("uid"@ =~= seq!['u', 'i', 'd']);
}


proof fn lk_metadata_servicefullname(x: Metadata)
    ensures
        lookup(enc_metadata(x)->Obj_0, "serviceFullName"@) == (str_field(x.service_full_name)),
{
    broadcast use lemma_lookup_append;
    broadcast use lemma_lookup_entry;
    broadcast use lemma_first_unknown_append;
    broadcast use lemma_first_unknown_entry;

    reveal_strlit("apiVersion");
    assert("apiVersion"@ =~= seq!['a', 'p', 'i', 'V', 'e', 'r', 's', 'i', 'o', 'n']);
    reveal_strlit("jsonVersion");
    assert("jsonVersion"@ =~= seq!['j', 's', 'o', 'n', 'V', 'e', 'r', 's', 'i', 'o', 'n']);
    reveal_strlit("endpointPrefix");
    assert("endpointPrefix"@ =~= seq!['e', 'n', 'd', 'p', 'o', 'i', 'n', 't', 'P', 'r', 'e', 'f', 'i', 'x']);
    reveal_strlit("globalEndpoint");
    assert("globalEndpoint"@ =~= seq!['g', 'l', 'o', 'b', 'a', 'l', 'E', 'n', 'd', 'p', 'o', 'i', 'n', 't']);
    reveal_strlit("protocol");
    assert("protocol"@ =~= seq!['p', 'r', 'o', 't', 'o', 'c', 'o', 'l']);
    reveal_strlit("serviceAbbreviation");
    assert("serviceAbbreviation"@ =~= seq!['s', 'e', 'r', 'v', 'i', 'c', 'e', 'A', 'b', 'b', 'r', 'e', 'v', 'i', 'a', 't', 'i', 'o', 'n']);
    reveal_strlit("serviceFullName");
    assert("serviceFullName"@ =~= seq!['s', 'e', 'r', 'v', 'i', 'c', 'e', 'F', 'u', 'l', 'l', 'N', 'a', 'm', 'e']);
    reveal_strlit("serviceId");
    assert("serviceId"@ =~= seq!['s', 'e', 'r', 'v', 'i', 'c', 'e', 'I', 'd']);
    reveal_strlit("checksumFormat");
    assert("checksumFormat"@ =~= seq!['c', 'h', 'e', 'c', 'k', 's', 'u', 'm', 'F', 'o', 'r', 'm', 'a', 't']);
    reveal_strlit("timestampFormat");
    assert("timestampFormat"@ =~= seq!['t', 'i', 'm', 'e', 's', 't', 'a', 'm', 'p', 'F', 'o', 'r', 'm', 'a', 't']);
    reveal_strlit("signatureVersion");
    assert("signatureVersion"@ =~= seq!['s', 'i', 'g', 'n', 'a', 't', 'u', 'r', 'e', 'V', 'e', 'r', 's', 'i', 'o', 'n']);
    reveal_strlit("signingName");
    assert("signingName"@ =~= seq!['s', 'i', 'g', 'n', 'i', 'n', 'g', 'N', 'a', 'm', 'e']);
    reveal_strlit("targetPrefix");
    assert("targetPrefix"@ =~= seq!['t', 'a', 'r', 'g', 'e', 't', 'P', 'r', 'e', 'f', 'i', 'x']);
    reveal_strlit("xmlNamespace");
    assert("xmlNamespace"@ =~= seq!['x', 'm', 'l', 'N', 'a', 'm', 'e', 's', 'p', 'a', 'c', 'e']);
    reveal_strlit("uid");
    assert("uid"@ =~= seq!['u', 'i', 'd']);
}


proof fn lk_metadata_serviceid(x: Metadata)
    ensures
        lookup(enc_metadata(x)->Obj_0, "serviceId"@) == (str_field(x.service_id)),
{
    broadcast use lemma_lookup_append;
    broadcast use lemma_lookup_entry;
    broadcast use lemma_first_unknown_append;
    broadcast use lemma_first_unknown_entry;

    reveal_strlit("apiVersion");
    assert("apiVersion"@ =~= seq!['a', 'p', 'i', 'V', 'e', 'r', 's', 'i', 'o', 'n']);
    reveal_strlit("jsonVersion");
    assert("jsonVersion"@ =~= seq!['j', 's', 'o', 'n', 'V', 'e', 'r', 's', 'i', 'o', 'n']);
    reveal_strlit("endpointPrefix");
    assert("endpointPrefix"@ =~= seq!['e', 'n', 'd', 'p', 'o', 'i', 'n', 't', 'P', 'r', 'e', 'f', 'i', 'x']);
    reveal_strlit("globalEndpoint");
    assert("globalEndpoint"@ =~= seq!['g', 'l', 'o', 'b', 'a', 'l', 'E', 'n', 'd', 'p', 'o', 'i', 'n', 't']);
    reveal_strlit("protocol");
    assert("protocol"@ =~= seq!['p', 'r', 'o', 't', 'o', 'c', 'o', 'l']);
    reveal_strlit("serviceAbbreviation");
    assert("serviceAbbreviation"@ =~= seq!['s', 'e', 'r', 'v', 'i', 'c', 'e', 'A', 'b', 'b', 'r', 'e', 'v', 'i', 'a', 't', 'i', 'o', 'n']);
    reveal_strlit("serviceFullName");
    assert("serviceFullName"@ =~= seq!['s', 'e', 'r', 'v', 'i', 'c', 'e', 'F', 'u', 'l', 'l', 'N', 'a', 'm', 'e']);
    reveal_strlit("serviceId");
    assert("serviceId"@ =~= seq!['s', 'e', 'r', 'v', 'i', 'c', 'e', 'I', 'd']);
    reveal_strlit("checksumFormat");
    assert("checksumFormat"@ =~= seq!['c', 'h', 'e', 'c', 'k', 's', 'u', 'm', 'F', 'o', 'r', 'm', 'a', 't']);
    reveal_strlit("timestampFormat");
    assert("timestampFormat"@ =~= seq!['t', 'i', 'm', 'e', 's', 't', 'a', 'm', 'p', 'F', 'o', 'r', 'm', 'a', 't']);
    reveal_strlit("signatureVersion");
    assert("signatureVersion"@ =~= seq!['s', 'i', 'g', 'n', 'a', 't', 'u', 'r', 'e', 'V', 'e', 'r', 's', 'i', 'o', 'n']);
    reveal_strlit("signingName");
    assert("signingName"@ =~= seq!['s', 'i', 'g', 'n', 'i', 'n', 'g', 'N', 'a', 'm', 'e']);
    reveal_strlit("targetPrefix");
    assert("targetPrefix"@ =~= seq!['t', 'a', 'r', 'g', 'e', 't', 'P', 'r', 'e', 'f', 'i', 'x']);
    reveal_strlit("xmlNamespace");
    assert("xmlNamespace"@ =~= seq!['x', 'm', 'l', 'N', 'a', 'm', 'e', 's', 'p', 'a', 'c', 'e']);
    reveal_strlit("uid");
    assert("uid"@ =~= seq!['u', 'i', 'd']);
}


proof fn lk_metadata_checksumformat(x: Metadata)
    ensures
        lookup(enc_metadata(x)->Obj_0, "checksumFormat"@) == (str_field(x.checksum_format)),
{
    broadcast use lemma_lookup_append;
    broadcast use lemma_lookup_entry;
    broadcast use lemma_first_unknown_append;
    broadcast use lemma_first_unknown_entry;

    reveal_strlit("apiVersion");
    assert("apiVersion"@ =~= seq!['a', 'p', 'i', 'V', 'e', 'r', 's', 'i', 'o', 'n']);
    reveal_strlit("jsonVersion");
    assert("jsonVersion"@ =~= seq!['j', 's', 'o', 'n', 'V', 'e', 'r', 's', 'i', 'o', 'n']);
    reveal_strlit("endpointPrefix");
    assert("endpointPrefix"@ =~= seq!['e', 'n', 'd', 'p', 'o', 'i', 'n', 't', 'P', 'r', 'e', 'f', 'i', 'x']);
    reveal_strlit("globalEndpoint");
    assert("globalEndpoint"@ =~= seq!['g', 'l', 'o', 'b', 'a', 'l', 'E', 'n', 'd', 'p', 'o', 'i', 'n', 't']);
    reveal_strlit("protocol");
    assert("protocol"@ =~= seq!['p', 'r', 'o', 't', 'o', 'c', 'o', 'l']);
    reveal_strlit("serviceAbbreviation");
    assert("serviceAbbreviation"@ =~= seq!['s', 'e', 'r', 'v', 'i', 'c', 'e', 'A', 'b', 'b', 'r', 'e', 'v', 'i', 'a', 't', 'i', 'o', 'n']);
    reveal_strlit("serviceFullName");
    assert("serviceFullName"@ =~= seq!['s', 'e', 'r', 'v', 'i', 'c', 'e', 'F', 'u', 'l', 'l', 'N', 'a', 'm', 'e']);
    reveal_strlit("serviceId");
    assert("serviceId"@ =~= seq!['s', 'e', 'r', 'v', 'i', 'c', 'e', 'I', 'd']);
    reveal_strlit("checksumFormat");
    assert("checksumFormat"@ =~= seq!['c', 'h', 'e', 'c', 'k', 's', 'u', 'm', 'F', 'o', 'r', 'm', 'a', 't']);
    reveal_strlit("timestampFormat");
    assert("timestampFormat"@ =~= seq!['t', 'i', 'm', 'e', 's', 't', 'a', 'm', 'p', 'F', 'o', 'r', 'm', 'a', 't']);
    reveal_strlit("signatureVersion");
    assert("signatureVersion"@ =~= seq!['s', 'i', 'g', 'n', 'a', 't', 'u', 'r', 'e', 'V', 'e', 'r', 's', 'i', 'o', 'n']);
    reveal_strlit("signingName");
    assert("signingName"@ =~= seq!['s', 'i', 'g', 'n', 'i', 'n', 'g', 'N', 'a', 'm', 'e']);
    reveal_strlit("targetPrefix");
    assert("targetPrefix"@ =~= seq!['t', 'a', 'r', 'g', 'e', 't', 'P', 'r', 'e', 'f', 'i', 'x']);
    reveal_strlit("xmlNamespace");
    assert("xmlNamespace"@ =~= seq!['x', 'm', 'l', 'N', 'a', 'm', 'e', 's', 'p', 'a', 'c', 'e']);
    reveal_strlit("uid");
    assert("uid"@ =~= seq!['u', 'i', 'd']);
}


proof fn lk_metadata_timestampformat(x: Metadata)
    ensures
        lookup(enc_metadata(x)->Obj_0, "timestampFormat"@) == (str_field(x.timestamp_format)),
{
    broadcast use lemma_lookup_append;
    broadcast use lemma_lookup_entry;
    broadcast use lemma_first_unknown_append;
    broadcast use lemma_first_unknown_entry;

    reveal_strlit("apiVersion");
    assert("apiVersion"@ =~= seq!['a', 'p', 'i', 'V', 'e', 'r', 's', 'i', 'o', 'n']);
    reveal_strlit("jsonVersion");
    assert("jsonVersion"@ =~= seq!['j', 's', 'o', 'n', 'V', 'e', 'r', 's', 'i', 'o', 'n']);
    reveal_strlit("endpointPrefix");
    assert("endpointPrefix"@ =~= seq!['e', 'n', 'd', 'p', 'o', 'i', 'n', 't', 'P', 'r', 'e', 'f', 'i', 'x']);
    reveal_strlit("globalEndpoint");
    assert("globalEndpoint"@ =~= seq!['g', 'l', 'o', 'b', 'a', 'l', 'E', 'n', 'd', 'p', 'o', 'i', 'n', 't']);
    reveal_strlit("protocol");
    assert("protocol"@ =~= seq!['p', 'r', 'o', 't', 'o', 'c', 'o', 'l']);
    reveal_strlit("serviceAbbreviation");
    assert("serviceAbbreviation"@ =~= seq!['s', 'e', 'r', 'v', 'i', 'c', 'e', 'A', 'b', 'b', 'r', 'e', 'v', 'i', 'a', 't', 'i', 'o', 'n']);
    reveal_strlit("serviceFullName");
    assert("serviceFullName"@ =~= seq!['s', 'e', 'r', 'v', 'i', 'c', 'e', 'F', 'u', 'l', 'l', 'N', 'a', 'm', 'e']);
    reveal_strlit("serviceId");
    assert("serviceId"@ =~= seq!['s', 'e', 'r', 'v', 'i', 'c', 'e', 'I', 'd']);
    reveal_strlit("checksumFormat");
    assert("checksumFormat"@ =~= seq!['c', 'h', 'e', 'c', 'k', 's', 'u', 'm', 'F', 'o', 'r', 'm', 'a', 't']);
    reveal_strlit("timestampFormat");
    assert("timestampFormat"@ =~= seq!['t', 'i', 'm', 'e', 's', 't', 'a', 'm', 'p', 'F', 'o', 'r', 'm', 'a', 't']);
    reveal_strlit("signatureVersion");
    assert("signatureVersion"@ =~= seq!['s', 'i', 'g', 'n', 'a', 't', 'u', 'r', 'e', 'V', 'e', 'r', 's', 'i', 'o', 'n']);
    reveal_strlit("signingName");
    assert("signingName"@ =~= seq!['s', 'i', 'g', 'n', 'i', 'n', 'g', 'N', 'a', 'm', 'e']);
    reveal_strlit("targetPrefix");
    assert("targetPrefix"@ =~= seq!['t', 'a', 'r', 'g', 'e', 't', 'P', 'r', 'e', 'f', 'i', 'x']);
    reveal_strlit("xmlNamespace");
    assert("xmlNamespace"@ =~= seq!['x', 'm', 'l', 'N', 'a', 'm', 'e', 's', 'p', 'a', 'c', 'e']);
    reveal_strlit("uid");
    assert("uid"@ =~= seq!['u', 'i', 'd']);
}


proof fn lk_metadata_signatureversion(x: Metadata)
    ensures
        lookup(enc_metadata(x)->Obj_0, "signatureVersion"@) == (str_field(x.signature_version)),
{
    broadcast use lemma_lookup_append;
    broadcast use lemma_lookup_entry;
    broadcast use lemma_first_unknown_append;
    broadcast use lemma_first_unknown_entry;

    reveal_strlit("apiVersion");
    assert("apiVersion"@ =~= seq!['a', 'p', 'i', 'V', 'e', 'r', 's', 'i', 'o', 'n']);
    reveal_strlit("jsonVersion");
    assert("jsonVersion"@ =~= seq!['j', 's', 'o', 'n', 'V', 'e', 'r', 's', 'i', 'o', 'n']);
    reveal_strlit("endpointPrefix");
    assert("endpointPrefix"@ =~= seq!['e', 'n', 'd', 'p', 'o', 'i', 'n', 't', 'P', 'r', 'e', 'f', 'i', 'x']);
    reveal_strlit("globalEndpoint");
    assert("globalEndpoint"@ =~= seq!['g', 'l', 'o', 'b', 'a', 'l', 'E', 'n', 'd', 'p', 'o', 'i', 'n', 't']);
    reveal_strlit("protocol");
    assert("protocol"@ =~= seq!['p', 'r', 'o', 't', 'o', 'c', 'o', 'l']);
    reveal_strlit("serviceAbbreviation");
    assert("serviceAbbreviation"@ =~= seq!['s', 'e', 'r', 'v', 'i', 'c', 'e', 'A', 'b', 'b', 'r', 'e', 'v', 'i', 'a', 't', 'i', 'o', 'n']);
    reveal_strlit("serviceFullName");
    assert("serviceFullName"@ =~= seq!['s', 'e', 'r', 'v', 'i', 'c', 'e', 'F', 'u', 'l', 'l', 'N', 'a', 'm', 'e']);
    reveal_strlit("serviceId");
    assert("serviceId"@ =~= seq!['s', 'e', 'r', 'v', 'i', 'c', 'e', 'I', 'd']);
    reveal_strlit("checksumFormat");
    assert("checksumFormat"@ =~= seq!['c', 'h', 'e', 'c', 'k', 's', 'u', 'm', 'F', 'o', 'r', 'm', 'a', 't']);
    reveal_strlit("timestampFormat");
    assert("timestampFormat"@ =~= seq!['t', 'i', 'm', 'e', 's', 't', 'a', 'm', 'p', 'F', 'o', 'r', 'm', 'a', 't']);
    reveal_strlit("signatureVersion");
    assert("signatureVersion"@ =~= seq!['s', 'i', 'g', 'n', 'a', 't', 'u', 'r', 'e', 'V', 'e', 'r', 's', 'i', 'o', 'n']);
    reveal_strlit("signingName");
    assert("signingName"@ =~= seq!['s', 'i', 'g', 'n', 'i', 'n', 'g', 'N', 'a', 'm', 'e']);
    reveal_strlit("targetPrefix");
    assert("targetPrefix"@ =~= seq!['t', 'a', 'r', 'g', 'e', 't', 'P', 'r', 'e', 'f', 'i', 'x']);
    reveal_strlit("xmlNamespace");
    assert("xmlNamespace"@ =~= seq!['x', 'm', 'l', 'N', 'a', 'm', 'e', 's', 'p', 'a', 'c', 'e']);
    reveal_strlit("uid");
    assert("uid"@ =~= seq!['u', 'i', 'd']);
}


proof fn lk_metadata_signingname(x: Metadata)
    ensures
        lookup(enc_metadata(x)->Obj_0, "signingName"@) == (str_field(x.signing_name)),
{
    broadcast use lemma_lookup_append;
    broadcast use lemma_lookup_entry;
    broadcast use lemma_first_unknown_append;
    broadcast use lemma_first_unknown_entry;

    reveal_strlit("apiVersion");
    assert("apiVersion"@ =~= seq!['a', 'p', 'i', 'V', 'e', 'r', 's', 'i', 'o', 'n']);
    reveal_strlit("jsonVersion");
    assert("jsonVersion"@ =~= seq!['j', 's', 'o', 'n', 'V', 'e', 'r', 's', 'i', 'o', 'n']);
    reveal_strlit("endpointPrefix");
    assert("endpointPrefix"@ =~= seq!['e', 'n', 'd', 'p', 'o', 'i', 'n', 't', 'P', 'r', 'e', 'f', 'i', 'x']);
    reveal_strlit("globalEndpoint");
    assert("globalEndpoint"@ =~= seq!['g', 'l', 'o', 'b', 'a', 'l', 'E', 'n', 'd', 'p', 'o', 'i', 'n', 't']);
    reveal_strlit("protocol");
    assert("protocol"@ =~= seq!['p', 'r', 'o', 't', 'o', 'c', 'o', 'l']);
    reveal_strlit("serviceAbbreviation");
    assert("serviceAbbreviation"@ =~= seq!['s', 'e', 'r', 'v', 'i', 'c', 'e', 'A', 'b', 'b', 'r', 'e', 'v', 'i', 'a', 't', 'i', 'o', 'n']);
    reveal_strlit("serviceFullName");
    assert("serviceFullName"@ =~= seq!['s', 'e', 'r', 'v', 'i', 'c', 'e', 'F', 'u', 'l', 'l', 'N', 'a', 'm', 'e']);
    reveal_strlit("serviceId");
    assert("serviceId"@ =~= seq!['s', 'e', 'r', 'v', 'i', 'c', 'e', 'I', 'd']);
    reveal_strlit("checksumFormat");
    assert("checksumFormat"@ =~= seq!['c', 'h', 'e', 'c', 'k', 's', 'u', 'm', 'F', 'o', 'r', 'm', 'a', 't']);
    reveal_strlit("timestampFormat");
    assert("timestampFormat"@ =~= seq!['t', 'i', 'm', 'e', 's', 't', 'a', 'm', 'p', 'F', 'o', 'r', 'm', 'a', 't']);
    reveal_strlit("signatureVersion");
    assert("signatureVersion"@ =~= seq!['s', 'i', 'g', 'n', 'a', 't', 'u', 'r', 'e', 'V', 'e', 'r', 's', 'i', 'o', 'n']);
    reveal_strlit("signingName");
    assert("signingName"@ =~= seq!['s', 'i', 'g', 'n', 'i', 'n', 'g', 'N', 'a', 'm', 'e']);
    reveal_strlit("targetPrefix");
    assert("targetPrefix"@ =~= seq!['t', 'a', 'r', 'g', 'e', 't', 'P', 'r', 'e', 'f', 'i', 'x']);
    reveal_strlit("xmlNamespace");
    assert("xmlNamespace"@ =~= seq!['x', 'm', 'l', 'N', 'a', 'm', 'e', 's', 'p', 'a', 'c', 'e']);
    reveal_strlit("uid");
    assert("uid"@ =~= seq!['u', 'i', 'd']);
}


proof fn lk_metadata_targetprefix(x: Metadata)
    ensures
        lookup(enc_metadata(x)->Obj_0, "targetPrefix"@) == (str_field(x.target_prefix)),
{
    broadcast use lemma_lookup_append;
    broadcast use lemma_lookup_entry;
    broadcast use lemma_first_unknown_append;
    broadcast use lemma_first_unknown_entry;

    reveal_strlit("apiVersion");
    assert("apiVersion"@ =~= seq!['a', 'p', 'i', 'V', 'e', 'r', 's', 'i', 'o', 'n']);
    reveal_strlit("jsonVersion");
    assert("jsonVersion"@ =~= seq!['j', 's', 'o', 'n', 'V', 'e', 'r', 's', 'i', 'o', 'n']);
    reveal_strlit("endpointPrefix");
    assert("endpointPrefix"@ =~= seq!['e', 'n', 'd', 'p', 'o', 'i', 'n', 't', 'P', 'r', 'e', 'f', 'i', 'x']);
    reveal_strlit("globalEndpoint");
    assert("globalEndpoint"@ =~= seq!['g', 'l', 'o', 'b', 'a', 'l', 'E', 'n', 'd', 'p', 'o', 'i', 'n', 't']);
    reveal_strlit("protocol");
    assert("protocol"@ =~= seq!['p', 'r', 'o', 't', 'o', 'c', 'o', 'l']);
    reveal_strlit("serviceAbbreviation");
    assert("serviceAbbreviation"@ =~= seq!['s', 'e', 'r', 'v', 'i', 'c', 'e', 'A', 'b', 'b', 'r', 'e', 'v', 'i', 'a', 't', 'i', 'o', 'n']);
    reveal_strlit("serviceFullName");
    assert("serviceFullName"@ =~= seq!['s', 'e', 'r', 'v', 'i', 'c', 'e', 'F', 'u', 'l', 'l', 'N', 'a', 'm', 'e']);
    reveal_strlit("serviceId");
    assert("serviceId"@ =~= seq!['s', 'e', 'r', 'v', 'i', 'c', 'e', 'I', 'd']);
    reveal_strlit("checksumFormat");
    assert("checksumFormat"@ =~= seq!['c', 'h', 'e', 'c', 'k', 's', 'u', 'm', 'F', 'o', 'r', 'm', 'a', 't']);
    reveal_strlit("timestampFormat");
    assert("timestampFormat"@ =~= seq!['t', 'i', 'm', 'e', 's', 't', 'a', 'm', 'p', 'F', 'o', 'r', 'm', 'a', 't']);
    reveal_strlit("signatureVersion");
    assert("signatureVersion"@ =~= seq!['s', 'i', 'g', 'n', 'a', 't', 'u', 'r', 'e', 'V', 'e', 'r', 's', 'i', 'o', 'n']);
    reveal_strlit("signingName");
    assert("signingName"@ =~= seq!['s', 'i', 'g', 'n', 'i', 'n', 'g', 'N', 'a', 'm', 'e']);
    reveal_strlit("targetPrefix");
    assert("targetPrefix"@ =~= seq!['t', 'a', 'r', 'g', 'e', 't', 'P', 'r', 'e', 'f', 'i', 'x']);
    reveal_strlit("xmlNamespace");
    assert("xmlNamespace"@ =~= seq!['x', 'm', 'l', 'N', 'a', 'm', 'e', 's', 'p', 'a', 'c', 'e']);
    reveal_strlit("uid");
    assert("uid"@ =~= seq!['u', 'i', 'd']);
}


proof fn lk_metadata_xmlnamespace(x: Metadata)
    ensures
        lookup(enc_metadata(x)->Obj_0, "xmlNamespace"@) == (str_field(x.xml_namespace)),
{
    broadcast use lemma_lookup_append;
    broadcast use lemma_lookup_entry;
    broadcast use lemma_first_unknown_append;
    broadcast use lemma_first_unknown_entry;

    reveal_strlit("apiVersion");
    assert("apiVersion"@ =~= seq!['a', 'p', 'i', 'V', 'e', 'r', 's', 'i', 'o', 'n']);
    reveal_strlit("jsonVersion");
    assert("jsonVersion"@ =~= seq!['j', 's', 'o', 'n', 'V', 'e', 'r', 's', 'i', 'o', 'n']);
    reveal_strlit("endpointPrefix");
    assert("endpointPrefix"@ =~= seq!['e', 'n', 'd', 'p', 'o', 'i', 'n', 't', 'P', 'r', 'e', 'f', 'i', 'x']);
    reveal_strlit("globalEndpoint");
    assert("globalEndpoint"@ =~= seq!['g', 'l', 'o', 'b', 'a', 'l', 'E', 'n', 'd', 'p', 'o', 'i', 'n', 't']);
    reveal_strlit("protocol");
    assert("protocol"@ =~= seq!['p', 'r', 'o', 't', 'o', 'c', 'o', 'l']);
    reveal_strlit("serviceAbbreviation");
    assert("serviceAbbreviation"@ =~= seq!['s', 'e', 'r', 'v', 'i', 'c', 'e', 'A', 'b', 'b', 'r', 'e', 'v', 'i', 'a', 't', 'i', 'o', 'n']);
    reveal_strlit("serviceFullName");
    assert("serviceFullName"@ =~= seq!['s', 'e', 'r', 'v', 'i', 'c', 'e', 'F', 'u', 'l', 'l', 'N', 'a', 'm', 'e']);
    reveal_strlit("serviceId");
    assert("serviceId"@ =~= seq!['s', 'e', 'r', 'v', 'i', 'c', 'e', 'I', 'd']);
    reveal_strlit("checksumFormat");
    assert("checksumFormat"@ =~= seq!['c', 'h', 'e', 'c', 'k', 's', 'u', 'm', 'F', 'o', 'r', 'm', 'a', 't']);
    reveal_strlit("timestampFormat");
    assert("timestampFormat"@ =~= seq!['t', 'i', 'm', 'e', 's', 't', 'a', 'm', 'p', 'F', 'o', 'r', 'm', 'a', 't']);
    reveal_strlit("signatureVersion");
    assert("signatureVersion"@ =~= seq!['s', 'i', 'g', 'n', 'a', 't', 'u', 'r', 'e', 'V', 'e', 'r', 's', 'i', 'o', 'n']);
    reveal_strlit("signingName");
    assert("signingName"@ =~= seq!['s', 'i', 'g', 'n', 'i', 'n', 'g', 'N', 'a', 'm', 'e']);
    reveal_strlit("targetPrefix");
    assert("targetPrefix"@ =~= seq!['t', 'a', 'r', 'g', 'e', 't', 'P', 'r', 'e', 'f', 'i', 'x']);
    reveal_strlit("xmlNamespace");
    assert("xmlNamespace"@ =~= seq!['x', 'm', 'l', 'N', 'a', 'm', 'e', 's', 'p', 'a', 'c', 'e']);
    reveal_strlit("uid");
    assert("uid"@ =~= seq!['u', 'i', 'd']);
}


proof fn lk_metadata_uid(x: Metadata)
    ensures
        lookup(enc_metadata(x)->Obj_0, "uid"@) == (str_field(x.uid)),
{
    broadcast use lemma_lookup_append;
    broadcast use lemma_lookup_entry;
    broadcast use lemma_first_unknown_append;
    broadcast use lemma_first_unknown_entry;

    reveal_strlit("apiVersion");
    assert("apiVersion"@ =~= seq!['a', 'p', 'i', 'V', 'e', 'r', 's', 'i', 'o', 'n']);
    reveal_strlit("jsonVersion");
    assert("jsonVersion"@ =~= seq!['j', 's', 'o', 'n', 'V', 'e', 'r', 's', 'i', 'o', 'n']);
    reveal_strlit("endpointPrefix");
    assert("endpointPrefix"@ =~= seq!['e', 'n', 'd', 'p', 'o', 'i', 'n', 't', 'P', 'r', 'e', 'f', 'i', 'x']);
    reveal_strlit("globalEndpoint");
    assert("globalEndpoint"@ =~= seq!['g', 'l', 'o', 'b', 'a', 'l', 'E', 'n', 'd', 'p', 'o', 'i', 'n', 't']);
    reveal_strlit("protocol");
    assert("protocol"@ =~= seq!['p', 'r', 'o', 't', 'o', 'c', 'o', 'l']);
    reveal_strlit("serviceAbbreviation");
    assert("serviceAbbreviation"@ =~= seq!['s', 'e', 'r', 'v', 'i', 'c', 'e', 'A', 'b', 'b', 'r', 'e', 'v', 'i', 'a', 't', 'i', 'o', 'n']);
    reveal_strlit("serviceFullName");
    assert("serviceFullName"@ =~= seq!['s', 'e', 'r', 'v', 'i', 'c', 'e', 'F', 'u', 'l', 'l', 'N', 'a', 'm', 'e']);
    reveal_strlit("serviceId");
    assert("serviceId"@ =~= seq!['s', 'e', 'r', 'v', 'i', 'c', 'e', 'I', 'd']);
    reveal_strlit("checksumFormat");
    assert("checksumFormat"@ =~= seq!['c', 'h', 'e', 'c', 'k', 's', 'u', 'm', 'F', 'o', 'r', 'm', 'a', 't']);
    reveal_strlit("timestampFormat");
    assert("timestampFormat"@ =~= seq!['t', 'i', 'm', 'e', 's', 't', 'a', 'm', 'p', 'F', 'o', 'r', 'm', 'a', 't']);
    reveal_strlit("signatureVersion");
    assert("signatureVersion"@ =~= seq!['s', 'i', 'g', 'n', 'a', 't', 'u', 'r', 'e', 'V', 'e', 'r', 's', 'i', 'o', 'n']);
    reveal_strlit("signingName");
    assert("signingName"@ =~= seq!['s', 'i', 'g', 'n', 'i', 'n', 'g', 'N', 'a', 'm', 'e']);
    reveal_strlit("targetPrefix");
    assert("targetPrefix"@ =~= seq!['t', 'a', 'r', 'g', 'e', 't', 'P', 'r', 'e', 'f', 'i', 'x']);
    reveal_strlit("xmlNamespace");
    assert("xmlNamespace"@ =~= seq!['x', 'm', 'l', 'N', 'a', 'm', 'e', 's', 'p', 'a', 'c', 'e']);
    reveal_strlit("uid");
    assert("uid"@ =~= seq!['u', 'i', 'd']);
}


proof fn nounknown_metadata(x: Metadata)
    ensures
        first_unknown(enc_metadata(x)->Obj_0, metadata_allowed()) is None,
{
    broadcast use lemma_lookup_append;
    broadcast use lemma_lookup_entry;
    broadcast use lemma_first_unknown_append;
    broadcast use lemma_first_unknown_entry;

    reveal_strlit("apiVersion");
    assert("apiVersion"@ =~= seq!['a', 'p', 'i', 'V', 'e', 'r', 's', 'i', 'o', 'n']);
    reveal_strlit("jsonVersion");
    assert("jsonVersion"@ =~= seq!['j', 's', 'o', 'n', 'V', 'e', 'r', 's', 'i', 'o', 'n']);
    reveal_strlit("endpointPrefix");
    assert("endpointPrefix"@ =~= seq!['e', 'n', 'd', 'p', 'o', 'i', 'n', 't', 'P', 'r', 'e', 'f', 'i', 'x']);
    reveal_strlit("globalEndpoint");
    assert("globalEndpoint"@ =~= seq!['g', 'l', 'o', 'b', 'a', 'l', 'E', 'n', 'd', 'p', 'o', 'i', 'n', 't']);
    reveal_strlit("protocol");
    assert("protocol"@ =~= seq!['p', 'r', 'o', 't', 'o', 'c', 'o', 'l']);
    reveal_strlit("serviceAbbreviation");
    assert("serviceAbbreviation"@ =~= seq!['s', 'e', 'r', 'v', 'i', 'c', 'e', 'A', 'b', 'b', 'r', 'e', 'v', 'i', 'a', 't', 'i', 'o', 'n']);
    reveal_strlit("serviceFullName");
    assert("serviceFullName"@ =~= seq!['s', 'e', 'r', 'v', 'i', 'c', 'e', 'F', 'u', 'l', 'l', 'N', 'a', 'm', 'e']);
    reveal_strlit("serviceId");
    assert("serviceId"@ =~= seq!['s', 'e', 'r', 'v', 'i', 'c', 'e', 'I', 'd']);
    reveal_strlit("checksumFormat");
    assert("checksumFormat"@ =~= seq!['c', 'h', 'e', 'c', 'k', 's', 'u', 'm', 'F', 'o', 'r', 'm', 'a', 't']);
    reveal_strlit("timestampFormat");
    assert("timestampFormat"@ =~= seq!['t', 'i', 'm', 'e', 's', 't', 'a', 'm', 'p', 'F', 'o', 'r', 'm', 'a', 't']);
    reveal_strlit("signatureVersion");
    assert("signatureVersion"@ =~= seq!['s', 'i', 'g', 'n', 'a', 't', 'u', 'r', 'e', 'V', 'e', 'r', 's', 'i', 'o', 'n']);
    reveal_strlit("signingName");
    assert("signingName"@ =~= seq!['s', 'i', 'g', 'n', 'i', 'n', 'g', 'N', 'a', 'm', 'e']);
    reveal_strlit("targetPrefix");
    assert("targetPrefix"@ =~= seq!['t', 'a', 'r', 'g', 'e', 't', 'P', 'r', 'e', 'f', 'i', 'x']);
    reveal_strlit("xmlNamespace");
    assert("xmlNamespace"@ =~= seq!['x', 'm', 'l', 'N', 'a', 'm', 'e', 's', 'p', 'a', 'c', 'e']);
    reveal_strlit("uid");
    assert("uid"@ =~= seq!['u', 'i', 'd']);
}


#[verifier::rlimit(50)]
proof fn lk_shape_ref_shape(x: ShapeRef, pol: DocPolicy)
    ensures
        lookup(enc_shape_ref(x, pol)->Obj_0, "shape"@) == (Some(JsonVal::Str(x.shape@))),
{
    broadcast use lemma_lookup_append;
    broadcast use lemma_lookup_entry;
    broadcast use lemma_first_unknown_append;
    broadcast use lemma_first_unknown_entry;

    reveal_strlit("shape");
    assert("shape"@ =~= seq!['s', 'h', 'a', 'p', 'e']);
    reveal_strlit("box");
    assert("box"@ =~= seq!['b', 'o', 'x']);
    reveal_strlit("deprecated");
    assert("deprecated"@ =~= seq!['d', 'e', 'p', 'r', 'e', 'c', 'a', 't', 'e', 'd']);
    reveal_strlit("eventpayload");
    assert("eventpayload"@ =~= seq!['e', 'v', 'e', 'n', 't', 'p', 'a', 'y', 'l', 'o', 'a', 'd']);
    reveal_strlit("flattened");
    assert("flattened"@ =~= seq!['f', 'l', 'a', 't', 't', 'e', 'n', 'e', 'd']);
    reveal_strlit("idempotencyToken");
    assert("idempotencyToken"@ =~= seq!['i', 'd', 'e', 'm', 'p', 'o', 't', 'e', 'n', 'c', 'y', 'T', 'o', 'k', 'e', 'n']);
    reveal_strlit("streaming");
    assert("streaming"@ =~= seq!['s', 't', 'r', 'e', 'a', 'm', 'i', 'n', 'g']);
    reveal_strlit("location");
    assert("location"@ =~= seq!['l', 'o', 'c', 'a', 't', 'i', 'o', 'n']);
    reveal_strlit("locationName");
    assert("locationName"@ =~= seq!['l', 'o', 'c', 'a', 't', 'i', 'o', 'n', 'N', 'a', 'm', 'e']);
    reveal_strlit("queryName");
    assert("queryName"@ =~= seq!['q', 'u', 'e', 'r', 'y', 'N', 'a', 'm', 'e']);
    reveal_strlit("xmlAttribute");
    assert("xmlAttribute"@ =~= seq!['x', 'm', 'l', 'A', 't', 't', 'r', 'i', 'b', 'u', 't', 'e']);
    reveal_strlit("xmlNamespace");
    assert("xmlNamespace"@ =~= seq!['x', 'm', 'l', 'N', 'a', 'm', 'e', 's', 'p', 'a', 'c', 'e']);
    reveal_strlit("documentation");
    assert("documentation"@ =~= seq!['d', 'o', 'c', 'u', 'm', 'e', 'n', 't', 'a', 't', 'i', 'o', 'n']);
}


#[verifier::rlimit(50)]
proof fn lk_shape_ref_box(x: ShapeRef, pol: DocPolicy)
    ensures
        lookup(enc_shape_ref(x, pol)->Obj_0, "box"@) == (bool_field(x.box_)),
{
    broadcast use lemma_lookup_append;
    broadcast use lemma_lookup_entry;
    broadcast use lemma_first_unknown_append;
    broadcast use lemma_first_unknown_entry;

    reveal_strlit("shape");
    assert("shape"@ =~= seq!['s', 'h', 'a', 'p', 'e']);
    reveal_strlit("box");
    assert("box"@ =~= seq!['b', 'o', 'x']);
    reveal_strlit("deprecated");
    assert("deprecated"@ =~= seq!['d', 'e', 'p', 'r', 'e', 'c', 'a', 't', 'e', 'd']);
    reveal_strlit("eventpayload");
    assert("eventpayload"@ =~= seq!['e', 'v', 'e', 'n', 't', 'p', 'a', 'y', 'l', 'o', 'a', 'd']);
    reveal_strlit("flattened");
    assert("flattened"@ =~= seq!['f', 'l', 'a', 't', 't', 'e', 'n', 'e', 'd']);
    reveal_strlit("idempotencyToken");
    assert("idempotencyToken"@ =~= seq!['i', 'd', 'e', 'm', 'p', 'o', 't', 'e', 'n', 'c', 'y', 'T', 'o', 'k', 'e', 'n']);
    reveal_strlit("streaming");
    assert("streaming"@ =~= seq!['s', 't', 'r', 'e', 'a', 'm', 'i', 'n', 'g']);
    reveal_strlit("location");
    assert("location"@ =~= seq!['l', 'o', 'c', 'a', 't', 'i', 'o', 'n']);
    reveal_strlit("locationName");
    assert("locationName"@ =~= seq!['l', 'o', 'c', 'a', 't', 'i', 'o', 'n', 'N', 'a', 'm', 'e']);
    reveal_strlit("queryName");
    assert("queryName"@ =~= seq!['q', 'u', 'e', 'r', 'y', 'N', 'a', 'm', 'e']);
    reveal_strlit("xmlAttribute");
    assert("xmlAttribute"@ =~= seq!['x', 'm', 'l', 'A', 't', 't', 'r', 'i', 'b', 'u', 't', 'e']);
    reveal_strlit("xmlNamespace");
    assert("xmlNamespace"@ =~= seq!['x', 'm', 'l', 'N', 'a', 'm', 'e', 's', 'p', 'a', 'c', 'e']);
    reveal_strlit("documentation");
    assert("documentation"@ =~= seq!['d', 'o', 'c', 'u', 'm', 'e', 'n', 't', 'a', 't', 'i', 'o', 'n']);
}


#[verifier::rlimit(50)]
proof fn lk_shape_ref_deprecated(x: ShapeRef, pol: DocPolicy)
    ensures
        lookup(enc_shape_ref(x, pol)->Obj_0, "deprecated"@) == (bool_field(x.deprecated)),
{
    broadcast use lemma_lookup_append;
    broadcast use lemma_lookup_entry;
    broadcast use lemma_first_unknown_append;
    broadcast use lemma_first_unknown_entry;

    reveal_strlit("shape");
    assert("shape"@ =~= seq!['s', 'h', 'a', 'p', 'e']);
    reveal_strlit("box");
    assert("box"@ =~= seq!['b', 'o', 'x']);
    reveal_strlit("deprecated");
    assert("deprecated"@ =~= seq!['d', 'e', 'p', 'r', 'e', 'c', 'a', 't', 'e', 'd']);
    reveal_strlit("eventpayload");
    assert("eventpayload"@ =~= seq!['e', 'v', 'e', 'n', 't', 'p', 'a', 'y', 'l', 'o', 'a', 'd']);
    reveal_strlit("flattened");
    assert("flattened"@ =~= seq!['f', 'l', 'a', 't', 't', 'e', 'n', 'e', 'd']);
    reveal_strlit("idempotencyToken");
    assert("idempotencyToken"@ =~= seq!['i', 'd', 'e', 'm', 'p', 'o', 't', 'e', 'n', 'c', 'y', 'T', 'o', 'k', 'e', 'n']);
    reveal_strlit("streaming");
    assert("streaming"@ =~= seq!['s', 't', 'r', 'e', 'a', 'm', 'i', 'n', 'g']);
    reveal_strlit("location");
    assert("location"@ =~= seq!['l', 'o', 'c', 'a', 't', 'i', 'o', 'n']);
    reveal_strlit("locationName");
    assert("locationName"@ =~= seq!['l', 'o', 'c', 'a', 't', 'i', 'o', 'n', 'N', 'a', 'm', 'e']);
    reveal_strlit("queryName");
    assert("queryName"@ =~= seq!['q', 'u', 'e', 'r', 'y', 'N', 'a', 'm', 'e']);
    reveal_strlit("xmlAttribute");
    assert("xmlAttribute"@ =~= seq!['x', 'm', 'l', 'A', 't', 't', 'r', 'i', 'b', 'u', 't', 'e']);
    reveal_strlit("xmlNamespace");
    assert("xmlNamespace"@ =~= seq!['x', 'm', 'l', 'N', 'a', 'm', 'e', 's', 'p', 'a', 'c', 'e']);
    reveal_strlit("documentation");
    assert("documentation"@ =~= seq!['d', 'o', 'c', 'u', 'm', 'e', 'n', 't', 'a', 't', 'i', 'o', 'n']);
}


#[verifier::rlimit(50)]
proof fn lk_shape_ref_eventpayload(x: ShapeRef, pol: DocPolicy)
    ensures
        lookup(enc_shape_ref(x, pol)->Obj_0, "eventpayload"@) == (bool_field(x.eventpayload)),
{
    broadcast use lemma_lookup_append;
    broadcast use lemma_lookup_entry;
    broadcast use lemma_first_unknown_append;
    broadcast use lemma_first_unknown_entry;

    reveal_strlit("shape");
    assert("shape"@ =~= seq!['s', 'h', 'a', 'p', 'e']);
    reveal_strlit("box");
    assert("box"@ =~= seq!['b', 'o', 'x']);
    reveal_strlit("deprecated");
    assert("deprecated"@ =~= seq!['d', 'e', 'p', 'r', 'e', 'c', 'a', 't', 'e', 'd']);
    reveal_strlit("eventpayload");
    assert("eventpayload"@ =~= seq!['e', 'v', 'e', 'n', 't', 'p', 'a', 'y', 'l', 'o', 'a', 'd']);
    reveal_strlit("flattened");
    assert("flattened"@ =~= seq!['f', 'l', 'a', 't', 't', 'e', 'n', 'e', 'd']);
    reveal_strlit("idempotencyToken");
    assert("idempotencyToken"@ =~= seq!['i', 'd', 'e', 'm', 'p', 'o', 't', 'e', 'n', 'c', 'y', 'T', 'o', 'k', 'e', 'n']);
    reveal_strlit("streaming");
    assert("streaming"@ =~= seq!['s', 't', 'r', 'e', 'a', 'm', 'i', 'n', 'g']);
    reveal_strlit("location");
    assert("location"@ =~= seq!['l', 'o', 'c', 'a', 't', 'i', 'o', 'n']);
    reveal_strlit("locationName");
    assert("locationName"@ =~= seq!['l', 'o', 'c', 'a', 't', 'i', 'o', 'n', 'N', 'a', 'm', 'e']);
    reveal_strlit("queryName");
    assert("queryName"@ =~= seq!['q', 'u', 'e', 'r', 'y', 'N', 'a', 'm', 'e']);
    reveal_strlit("xmlAttribute");
    assert("xmlAttribute"@ =~= seq!['x', 'm', 'l', 'A', 't', 't', 'r', 'i', 'b', 'u', 't', 'e']);
    reveal_strlit("xmlNamespace");
    assert("xmlNamespace"@ =~= seq!['x', 'm', 'l', 'N', 'a', 'm', 'e', 's', 'p', 'a', 'c', 'e']);
    reveal_strlit("documentation");
    assert("documentation"@ =~= seq!['d', 'o', 'c', 'u', 'm', 'e', 'n', 't', 'a', 't', 'i', 'o', 'n']);
}


#[verifier::rlimit(50)]
proof fn lk_shape_ref_flattened(x: ShapeRef, pol: DocPolicy)
    ensures
        lookup(enc_shape_ref(x, pol)->Obj_0, "flattened"@) == (bool_field(x.flattened)),
{
    broadcast use lemma_lookup_append;
    broadcast use lemma_lookup_entry;
    broadcast use lemma_first_unknown_append;
    broadcast use lemma_first_unknown_entry;

    reveal_strlit("shape");
    assert("shape"@ =~= seq!['s', 'h', 'a', 'p', 'e']);
    reveal_strlit("box");
    assert("box"@ =~= seq!['b', 'o', 'x']);
    reveal_strlit("deprecated");
    assert("deprecated"@ =~= seq!['d', 'e', 'p', 'r', 'e', 'c', 'a', 't', 'e', 'd']);
    reveal_strlit("eventpayload");
    assert("eventpayload"@ =~= seq!['e', 'v', 'e', 'n', 't', 'p', 'a', 'y', 'l', 'o', 'a', 'd']);
    reveal_strlit("flattened");
    assert("flattened"@ =~= seq!['f', 'l', 'a', 't', 't', 'e', 'n', 'e', 'd']);
    reveal_strlit("idempotencyToken");
    assert("idempotencyToken"@ =~= seq!['i', 'd', 'e', 'm', 'p', 'o', 't', 'e', 'n', 'c', 'y', 'T', 'o', 'k', 'e', 'n']);
    reveal_strlit("streaming");
    assert("streaming"@ =~= seq!['s', 't', 'r', 'e', 'a', 'm', 'i', 'n', 'g']);
    reveal_strlit("location");
    assert("location"@ =~= seq!['l', 'o', 'c', 'a', 't', 'i', 'o', 'n']);
    reveal_strlit("locationName");
    assert("locationName"@ =~= seq!['l', 'o', 'c', 'a', 't', 'i', 'o', 'n', 'N', 'a', 'm', 'e']);
    reveal_strlit("queryName");
    assert("queryName"@ =~= seq!['q', 'u', 'e', 'r', 'y', 'N', 'a', 'm', 'e']);
    reveal_strlit("xmlAttribute");
    assert("xmlAttribute"@ =~= seq!['x', 'm', 'l', 'A', 't', 't', 'r', 'i', 'b', 'u', 't', 'e']);
    reveal_strlit("xmlNamespace");
    assert("xmlNamespace"@ =~= seq!['x', 'm', 'l', 'N', 'a', 'm', 'e', 's', 'p', 'a', 'c', 'e']);
    reveal_strlit("documentation");
    assert("documentation"@ =~= seq!['d', 'o', 'c', 'u', 'm', 'e', 'n', 't', 'a', 't', 'i', 'o', 'n']);
}


#[verifier::rlimit(50)]
proof fn lk_shape_ref_idempotencytoken(x: ShapeRef, pol: DocPolicy)
    ensures
        lookup(enc_shape_ref(x, pol)->Obj_0, "idempotencyToken"@) == (bool_field(x.idempotency_token)),
{
    broadcast use lemma_lookup_append;
    broadcast use lemma_lookup_entry;
    broadcast use lemma_first_unknown_append;
    broadcast use lemma_first_unknown_entry;

    reveal_strlit("shape");
    assert("shape"@ =~= seq!['s', 'h', 'a', 'p', 'e']);
    reveal_strlit("box");
    assert("box"@ =~= seq!['b', 'o', 'x']);
    reveal_strlit("deprecated");
    assert("deprecated"@ =~= seq!['d', 'e', 'p', 'r', 'e', 'c', 'a', 't', 'e', 'd']);
    reveal_strlit("eventpayload");
    assert("eventpayload"@ =~= seq!['e', 'v', 'e', 'n', 't', 'p', 'a', 'y', 'l', 'o', 'a', 'd']);
    reveal_strlit("flattened");
    assert("flattened"@ =~= seq!['f', 'l', 'a', 't', 't', 'e', 'n', 'e', 'd']);
    reveal_strlit("idempotencyToken");
    assert("idempotencyToken"@ =~= seq!['i', 'd', 'e', 'm', 'p', 'o', 't', 'e', 'n', 'c', 'y', 'T', 'o', 'k', 'e', 'n']);
    reveal_strlit("streaming");
    assert("streaming"@ =~= seq!['s', 't', 'r', 'e', 'a', 'm', 'i', 'n', 'g']);
    reveal_strlit("location");
    assert("location"@ =~= seq!['l', 'o', 'c', 'a', 't', 'i', 'o', 'n']);
    reveal_strlit("locationName");
    assert("locationName"@ =~= seq!['l', 'o', 'c', 'a', 't', 'i', 'o', 'n', 'N', 'a', 'm', 'e']);
    reveal_strlit("queryName");
    assert("queryName"@ =~= seq!['q', 'u', 'e', 'r', 'y', 'N', 'a', 'm', 'e']);
    reveal_strlit("xmlAttribute");
    assert("xmlAttribute"@ =~= seq!['x', 'm', 'l', 'A', 't', 't', 'r', 'i', 'b', 'u', 't', 'e']);
    reveal_strlit("xmlNamespace");
    assert("xmlNamespace"@ =~= seq!['x', 'm', 'l', 'N', 'a', 'm', 'e', 's', 'p', 'a', 'c', 'e']);
    reveal_strlit("documentation");
    assert("documentation"@ =~= seq!['d', 'o', 'c', 'u', 'm', 'e', 'n', 't', 'a', 't', 'i', 'o', 'n']);
}


#[verifier::rlimit(50)]
proof fn lk_shape_ref_streaming(x: ShapeRef, pol: DocPolicy)
    ensures
        lookup(enc_shape_ref(x, pol)->Obj_0, "streaming"@) == (bool_field(x.streaming)),
{
    broadcast use lemma_lookup_append;
    broadcast use lemma_lookup_entry;
    broadcast use lemma_first_unknown_append;
    broadcast use lemma_first_unknown_entry;

    reveal_strlit("shape");
    assert("shape"@ =~= seq!['s', 'h', 'a', 'p', 'e']);
    reveal_strlit("box");
    assert("box"@ =~= seq!['b', 'o', 'x']);
    reveal_strlit("deprecated");
    assert("deprecated"@ =~= seq!['d', 'e', 'p', 'r', 'e', 'c', 'a', 't', 'e', 'd']);
    reveal_strlit("eventpayload");
    assert("eventpayload"@ =~= seq!['e', 'v', 'e', 'n', 't', 'p', 'a', 'y', 'l', 'o', 'a', 'd']);
    reveal_strlit("flattened");
    assert("flattened"@ =~= seq!['f', 'l', 'a', 't', 't', 'e', 'n', 'e', 'd']);
    reveal_strlit("idempotencyToken");
    assert("idempotencyToken"@ =~= seq!['i', 'd', 'e', 'm', 'p', 'o', 't', 'e', 'n', 'c', 'y', 'T', 'o', 'k', 'e', 'n']);
    reveal_strlit("streaming");
    assert("streaming"@ =~= seq!['s', 't', 'r', 'e', 'a', 'm', 'i', 'n', 'g']);
    reveal_strlit("location");
    assert("location"@ =~= seq!['l', 'o', 'c', 'a', 't', 'i', 'o', 'n']);
    reveal_strlit("locationName");
    assert("locationName"@ =~= seq!['l', 'o', 'c', 'a', 't', 'i', 'o', 'n', 'N', 'a', 'm', 'e']);
    reveal_strlit("queryName");
    assert("queryName"@ =~= seq!['q', 'u', 'e', 'r', 'y', 'N', 'a', 'm', 'e']);
    reveal_strlit("xmlAttribute");
    assert("xmlAttribute"@ =~= seq!['x', 'm', 'l', 'A', 't', 't', 'r', 'i', 'b', 'u', 't', 'e']);
    reveal_strlit("xmlNamespace");
    assert("xmlNamespace"@ =~= seq!['x', 'm', 'l', 'N', 'a', 'm', 'e', 's', 'p', 'a', 'c', 'e']);
    reveal_strlit("documentation");
    assert("documentation"@ =~= seq!['d', 'o', 'c', 'u', 'm', 'e', 'n', 't', 'a', 't', 'i', 'o', 'n']);
}


#[verifier::rlimit(50)]
proof fn lk_shape_ref_location(x: ShapeRef, pol: DocPolicy)
    ensures
        lookup(enc_shape_ref(x, pol)->Obj_0, "location"@) == (str_field(x.location)),
{
    broadcast use lemma_lookup_append;
    broadcast use lemma_lookup_entry;
    broadcast use lemma_first_unknown_append;
    broadcast use lemma_first_unknown_entry;

    reveal_strlit("shape");
    assert("shape"@ =~= seq!['s', 'h', 'a', 'p', 'e']);
    reveal_strlit("box");
    assert("box"@ =~= seq!['b', 'o', 'x']);
    reveal_strlit("deprecated");
    assert("deprecated"@ =~= seq!['d', 'e', 'p', 'r', 'e', 'c', 'a', 't', 'e', 'd']);
    reveal_strlit("eventpayload");
    assert("eventpayload"@ =~= seq!['e', 'v', 'e', 'n', 't', 'p', 'a', 'y', 'l', 'o', 'a', 'd']);
    reveal_strlit("flattened");
    assert("flattened"@ =~= seq!['f', 'l', 'a', 't', 't', 'e', 'n', 'e', 'd']);
    reveal_strlit("idempotencyToken");
    assert("idempotencyToken"@ =~= seq!['i', 'd', 'e', 'm', 'p', 'o', 't', 'e', 'n', 'c', 'y', 'T', 'o', 'k', 'e', 'n']);
    reveal_strlit("streaming");
    assert("streaming"@ =~= seq!['s', 't', 'r', 'e', 'a', 'm', 'i', 'n', 'g']);
    reveal_strlit("location");
    assert("location"@ =~= seq!['l', 'o', 'c', 'a', 't', 'i', 'o', 'n']);
    reveal_strlit("locationName");
    assert("locationName"@ =~= seq!['l', 'o', 'c', 'a', 't', 'i', 'o', 'n', 'N', 'a', 'm', 'e']);
    reveal_strlit("queryName");
    assert("queryName"@ =~= seq!['q', 'u', 'e', 'r', 'y', 'N', 'a', 'm', 'e']);
    reveal_strlit("xmlAttribute");
    assert("xmlAttribute"@ =~= seq!['x', 'm', 'l', 'A', 't', 't', 'r', 'i', 'b', 'u', 't', 'e']);
    reveal_strlit("xmlNamespace");
    assert("xmlNamespace"@ =~= seq!['x', 'm', 'l', 'N', 'a', 'm', 'e', 's', 'p', 'a', 'c', 'e']);
    reveal_strlit("documentation");
    assert("documentation"@ =~= seq!['d', 'o', 'c', 'u', 'm', 'e', 'n', 't', 'a', 't', 'i', 'o', 'n']);
}


#[verifier::rlimit(50)]
proof fn lk_shape_ref_locationname(x: ShapeRef, pol: DocPolicy)
    ensures
        lookup(enc_shape_ref(x, pol)->Obj_0, "locationName"@) == (str_field(x.location_name)),
{
    broadcast use lemma_lookup_append;
    broadcast use lemma_lookup_entry;
    broadcast use lemma_first_unknown_append;
    broadcast use lemma_first_unknown_entry;

    reveal_strlit("shape");
    assert("shape"@ =~= seq!['s', 'h', 'a', 'p', 'e']);
    reveal_strlit("box");
    assert("box"@ =~= seq!['b', 'o', 'x']);
    reveal_strlit("deprecated");
    assert("deprecated"@ =~= seq!['d', 'e', 'p', 'r', 'e', 'c', 'a', 't', 'e', 'd']);
    reveal_strlit("eventpayload");
    assert("eventpayload"@ =~= seq!['e', 'v', 'e', 'n', 't', 'p', 'a', 'y', 'l', 'o', 'a', 'd']);
    reveal_strlit("flattened");
    assert("flattened"@ =~= seq!['f', 'l', 'a', 't', 't', 'e', 'n', 'e', 'd']);
    reveal_strlit("idempotencyToken");
    assert("idempotencyToken"@ =~= seq!['i', 'd', 'e', 'm', 'p', 'o', 't', 'e', 'n', 'c', 'y', 'T', 'o', 'k', 'e', 'n']);
    reveal_strlit("streaming");
    assert("streaming"@ =~= seq!['s', 't', 'r', 'e', 'a', 'm', 'i', 'n', 'g']);
    reveal_strlit("location");
    assert("location"@ =~= seq!['l', 'o', 'c', 'a', 't', 'i', 'o', 'n']);
    reveal_strlit("locationName");
    assert("locationName"@ =~= seq!['l', 'o', 'c', 'a', 't', 'i', 'o', 'n', 'N', 'a', 'm', 'e']);
    reveal_strlit("queryName");
    assert("queryName"@ =~= seq!['q', 'u', 'e', 'r', 'y', 'N', 'a', 'm', 'e']);
    reveal_strlit("xmlAttribute");
    assert("xmlAttribute"@ =~= seq!['x', 'm', 'l', 'A', 't', 't', 'r', 'i', 'b', 'u', 't', 'e']);
    reveal_strlit("xmlNamespace");
    assert("xmlNamespace"@ =~= seq!['x', 'm', 'l', 'N', 'a', 'm', 'e', 's', 'p', 'a', 'c', 'e']);
    reveal_strlit("documentation");
    assert("documentation"@ =~= seq!['d', 'o', 'c', 'u', 'm', 'e', 'n', 't', 'a', 't', 'i', 'o', 'n']);
}


#[verifier::rlimit(50)]
proof fn lk_shape_ref_queryname(x: ShapeRef, pol: DocPolicy)
    ensures
        lookup(enc_shape_ref(x, pol)->Obj_0, "queryName"@) == (str_field(x.query_name)),
{
    broadcast use lemma_lookup_append;
    broadcast use lemma_lookup_entry;
    broadcast use lemma_first_unknown_append;
    broadcast use lemma_first_unknown_entry;

    reveal_strlit("shape");
    assert("shape"@ =~= seq!['s', 'h', 'a', 'p', 'e']);
    reveal_strlit("box");
    assert("box"@ =~= seq!['b', 'o', 'x']);
    reveal_strlit("deprecated");
    assert("deprecated"@ =~= seq!['d', 'e', 'p', 'r', 'e', 'c', 'a', 't', 'e', 'd']);
    reveal_strlit("eventpayload");
    assert("eventpayload"@ =~= seq!['e', 'v', 'e', 'n', 't', 'p', 'a', 'y', 'l', 'o', 'a', 'd']);
    reveal_strlit("flattened");
    assert("flattened"@ =~= seq!['f', 'l', 'a', 't', 't', 'e', 'n', 'e', 'd']);
    reveal_strlit("idempotencyToken");
    assert("idempotencyToken"@ =~= seq!['i', 'd', 'e', 'm', 'p', 'o', 't', 'e', 'n', 'c', 'y', 'T', 'o', 'k', 'e', 'n']);
    reveal_strlit("streaming");
    assert("streaming"@ =~= seq!['s', 't', 'r', 'e', 'a', 'm', 'i', 'n', 'g']);
    reveal_strlit("location");
    assert("location"@ =~= seq!['l', 'o', 'c', 'a', 't', 'i', 'o', 'n']);
    reveal_strlit("locationName");
    assert("locationName"@ =~= seq!['l', 'o', 'c', 'a', 't', 'i', 'o', 'n', 'N', 'a', 'm', 'e']);
    reveal_strlit("queryName");
    assert("queryName"@ =~= seq!['q', 'u', 'e', 'r', 'y', 'N', 'a', 'm', 'e']);
    reveal_strlit("xmlAttribute");
    assert("xmlAttribute"@ =~= seq!['x', 'm', 'l', 'A', 't', 't', 'r', 'i', 'b', 'u', 't', 'e']);
    reveal_strlit("xmlNamespace");
    assert("xmlNamespace"@ =~= seq!['x', 'm', 'l', 'N', 'a', 'm', 'e', 's', 'p', 'a', 'c', 'e']);
    reveal_strlit("documentation");
    assert("documentation"@ =~= seq!['d', 'o', 'c', 'u', 'm', 'e', 'n', 't', 'a', 't', 'i', 'o', 'n']);
}


#[verifier::rlimit(50)]
proof fn lk_shape_ref_xmlattribute(x: ShapeRef, pol: DocPolicy)
    ensures
        lookup(enc_shape_ref(x, pol)->Obj_0, "xmlAttribute"@) == (bool_field(x.xml_attribute)),
{
    broadcast use lemma_lookup_append;
    broadcast use lemma_lookup_entry;
    broadcast use lemma_first_unknown_append;
    broadcast use lemma_first_unknown_entry;

    reveal_strlit("shape");
    assert("shape"@ =~= seq!['s', 'h', 'a', 'p', 'e']);
    reveal_strlit("box");
    assert("box"@ =~= seq!['b', 'o', 'x']);
    reveal_strlit("deprecated");
    assert("deprecated"@ =~= seq!['d', 'e', 'p', 'r', 'e', 'c', 'a', 't', 'e', 'd']);
    reveal_strlit("eventpayload");
    assert("eventpayload"@ =~= seq!['e', 'v', 'e', 'n', 't', 'p', 'a', 'y', 'l', 'o', 'a', 'd']);
    reveal_strlit("flattened");
    assert("flattened"@ =~= seq!['f', 'l', 'a', 't', 't', 'e', 'n', 'e', 'd']);
    reveal_strlit("idempotencyToken");
    assert("idempotencyToken"@ =~= seq!['i', 'd', 'e', 'm', 'p', 'o', 't', 'e', 'n', 'c', 'y', 'T', 'o', 'k', 'e', 'n']);
    reveal_strlit("streaming");
    assert("streaming"@ =~= seq!['s', 't', 'r', 'e', 'a', 'm', 'i', 'n', 'g']);
    reveal_strlit("location");
    assert("location"@ =~= seq!['l', 'o', 'c', 'a', 't', 'i', 'o', 'n']);
    reveal_strlit("locationName");
    assert("locationName"@ =~= seq!['l', 'o', 'c', 'a', 't', 'i', 'o', 'n', 'N', 'a', 'm', 'e']);
    reveal_strlit("queryName");
    assert("queryName"@ =~= seq!['q', 'u', 'e', 'r', 'y', 'N', 'a', 'm', 'e']);
    reveal_strlit("xmlAttribute");
    assert("xmlAttribute"@ =~= seq!['x', 'm', 'l', 'A', 't', 't', 'r', 'i', 'b', 'u', 't', 'e']);
    reveal_strlit("xmlNamespace");
    assert("xmlNamespace"@ =~= seq!['x', 'm', 'l', 'N', 'a', 'm', 'e', 's', 'p', 'a', 'c', 'e']);
    reveal_strlit("documentation");
    assert("documentation"@ =~= seq!['d', 'o', 'c', 'u', 'm', 'e', 'n', 't', 'a', 't', 'i', 'o', 'n']);
}


#[verifier::rlimit(50)]
proof fn lk_shape_ref_xmlnamespace(x: ShapeRef, pol: DocPolicy)
    ensures
        lookup(enc_shape_ref(x, pol)->Obj_0, "xmlNamespace"@) == (xmlns_field(x.xml_namespace)),
{
    broadcast use lemma_lookup_append;
    broadcast use lemma_lookup_entry;
    broadcast use lemma_first_unknown_append;
    broadcast use lemma_first_unknown_entry;

    reveal_strlit("shape");
    assert("shape"@ =~= seq!['s', 'h', 'a', 'p', 'e']);
    reveal_strlit("box");
    assert("box"@ =~= seq!['b', 'o', 'x']);
    reveal_strlit("deprecated");
    assert("deprecated"@ =~= seq!['d', 'e', 'p', 'r', 'e', 'c', 'a', 't', 'e', 'd']);
    reveal_strlit("eventpayload");
    assert("eventpayload"@ =~= seq!['e', 'v', 'e', 'n', 't', 'p', 'a', 'y', 'l', 'o', 'a', 'd']);
    reveal_strlit("flattened");
    assert("flattened"@ =~= seq!['f', 'l', 'a', 't', 't', 'e', 'n', 'e', 'd']);
    reveal_strlit("idempotencyToken");
    assert("idempotencyToken"@ =~= seq!['i', 'd', 'e', 'm', 'p', 'o', 't', 'e', 'n', 'c', 'y', 'T', 'o', 'k', 'e', 'n']);
    reveal_strlit("streaming");
    assert("streaming"@ =~= seq!['s', 't', 'r', 'e', 'a', 'm', 'i', 'n', 'g']);
    reveal_strlit("location");
    assert("location"@ =~= seq!['l', 'o', 'c', 'a', 't', 'i', 'o', 'n']);
    reveal_strlit("locationName");
    assert("locationName"@ =~= seq!['l', 'o', 'c', 'a', 't', 'i', 'o', 'n', 'N', 'a', 'm', 'e']);
    reveal_strlit("queryName");
    assert("queryName"@ =~= seq!['q', 'u', 'e', 'r', 'y', 'N', 'a', 'm', 'e']);
    reveal_strlit("xmlAttribute");
    assert("xmlAttribute"@ =~= seq!['x', 'm', 'l', 'A', 't', 't', 'r', 'i', 'b', 'u', 't', 'e']);
    reveal_strlit("xmlNamespace");
    assert("xmlNamespace"@ =~= seq!['x', 'm', 'l', 'N', 'a', 'm', 'e', 's', 'p', 'a', 'c', 'e']);
    reveal_strlit("documentation");
    assert("documentation"@ =~= seq!['d', 'o', 'c', 'u', 'm', 'e', 'n', 't', 'a', 't', 'i', 'o', 'n']);
}


#[verifier::rlimit(50)]
proof fn lk_shape_ref_documentation(x: ShapeRef, pol: DocPolicy)
    ensures
        lookup(enc_shape_ref(x, pol)->Obj_0, "documentation"@) == (doc_field(x.documentation.documentation, pol)),
{
    broadcast use lemma_lookup_append;
    broadcast use lemma_lookup_entry;
    broadcast use lemma_first_unknown_append;
    broadcast use lemma_first_unknown_entry;

    reveal_strlit("shape");
    assert("shape"@ =~= seq!['s', 'h', 'a', 'p', 'e']);
    reveal_strlit("box");
    assert("box"@ =~= seq!['b', 'o', 'x']);
    reveal_strlit("deprecated");
    assert("deprecated"@ =~= seq!['d', 'e', 'p', 'r', 'e', 'c', 'a', 't', 'e', 'd']);
    reveal_strlit("eventpayload");
    assert("eventpayload"@ =~= seq!['e', 'v', 'e', 'n', 't', 'p', 'a', 'y', 'l', 'o', 'a', 'd']);
    reveal_strlit("flattened");
    assert("flattened"@ =~= seq!['f', 'l', 'a', 't', 't', 'e', 'n', 'e', 'd']);
    reveal_strlit("idempotencyToken");
    assert("idempotencyToken"@ =~= seq!['i', 'd', 'e', 'm', 'p', 'o', 't', 'e', 'n', 'c', 'y', 'T', 'o', 'k', 'e', 'n']);
    reveal_strlit("streaming");
    assert("streaming"@ =~= seq!['s', 't', 'r', 'e', 'a', 'm', 'i', 'n', 'g']);
    reveal_strlit("location");
    assert("location"@ =~= seq!['l', 'o', 'c', 'a', 't', 'i', 'o', 'n']);
    reveal_strlit("locationName");
    assert("locationName"@ =~= seq!['l', 'o', 'c', 'a', 't', 'i', 'o', 'n', 'N', 'a', 'm', 'e']);
    reveal_strlit("queryName");
    assert("queryName"@ =~= seq!['q', 'u', 'e', 'r', 'y', 'N', 'a', 'm', 'e']);
    reveal_strlit("xmlAttribute");
    assert("xmlAttribute"@ =~= seq!['x', 'm', 'l', 'A', 't', 't', 'r', 'i', 'b', 'u', 't', 'e']);
    reveal_strlit("xmlNamespace");
    assert("xmlNamespace"@ =~= seq!['x', 'm', 'l', 'N', 'a', 'm', 'e', 's', 'p', 'a', 'c', 'e']);
    reveal_strlit("documentation");
    assert("documentation"@ =~= seq!['d', 'o', 'c', 'u', 'm', 'e', 'n', 't', 'a', 't', 'i', 'o', 'n']);
}


proof fn nounknown_shape_ref(x: ShapeRef, pol: DocPolicy)
    ensures
        first_unknown(enc_shape_ref(x, pol)->Obj_0, shape_ref_allowed()) is None,
{
    broadcast use lemma_lookup_append;
    broadcast use lemma_lookup_entry;
    broadcast use lemma_first_unknown_append;
    broadcast use lemma_first_unknown_entry;

    reveal_strlit("shape");
    assert("shape"@ =~= seq!['s', 'h', 'a', 'p', 'e']);
    reveal_strlit("box");
    assert("box"@ =~= seq!['b', 'o', 'x']);
    reveal_strlit("deprecated");
    assert("deprecated"@ =~= seq!['d', 'e', 'p', 'r', 'e', 'c', 'a', 't', 'e', 'd']);
    reveal_strlit("eventpayload");
    assert("eventpayload"@ =~= seq!['e', 'v', 'e', 'n', 't', 'p', 'a', 'y', 'l', 'o', 'a', 'd']);
    reveal_strlit("flattened");
    assert("flattened"@ =~= seq!['f', 'l', 'a', 't', 't', 'e', 'n', 'e', 'd']);
    reveal_strlit("idempotencyToken");
    assert("idempotencyToken"@ =~= seq!['i', 'd', 'e', 'm', 'p', 'o', 't', 'e', 'n', 'c', 'y', 'T', 'o', 'k', 'e', 'n']);
    reveal_strlit("streaming");
    assert("streaming"@ =~= seq!['s', 't', 'r', 'e', 'a', 'm', 'i', 'n', 'g']);
    reveal_strlit("location");
    assert("location"@ =~= seq!['l', 'o', 'c', 'a', 't', 'i', 'o', 'n']);
    reveal_strlit("locationName");
    assert("locationName"@ =~= seq!['l', 'o', 'c', 'a', 't', 'i', 'o', 'n', 'N', 'a', 'm', 'e']);
    reveal_strlit("queryName");
    assert("queryName"@ =~= seq!['q', 'u', 'e', 'r', 'y', 'N', 'a', 'm', 'e']);
    reveal_strlit("xmlAttribute");
    assert("xmlAttribute"@ =~= seq!['x', 'm', 'l', 'A', 't', 't', 'r', 'i', 'b', 'u', 't', 'e']);
    reveal_strlit("xmlNamespace");
    assert("xmlNamespace"@ =~= seq!['x', 'm', 'l', 'N', 'a', 'm', 'e', 's', 'p', 'a', 'c', 'e']);
    reveal_strlit("documentation");
    assert("documentation"@ =~= seq!['d', 'o', 'c', 'u', 'm', 'e', 'n', 't', 'a', 't', 'i', 'o', 'n']);
}


proof fn lk_operation_name(x: Operation, pol: DocPolicy)
    ensures
        lookup(enc_operation(x, pol)->Obj_0, "name"@) == (Some(JsonVal::Str(x.name@))),
{
    broadcast use lemma_lookup_append;
    broadcast use lemma_lookup_entry;
    broadcast use lemma_first_unknown_append;
    broadcast use lemma_first_unknown_entry;

    reveal_strlit("name");
    assert("name"@ =~= seq!['n', 'a', 'm', 'e']);
    reveal_strlit("alias");
    assert("alias"@ =~= seq!['a', 'l', 'i', 'a', 's']);
    reveal_strlit("deprecated");
    assert("deprecated"@ =~= seq!['d', 'e', 'p', 'r', 'e', 'c', 'a', 't', 'e', 'd']);
    reveal_strlit("endpointdiscovery");
    assert("endpointdiscovery"@ =~= seq!['e', 'n', 'd', 'p', 'o', 'i', 'n', 't', 'd', 'i', 's', 'c', 'o', 'v', 'e', 'r', 'y']);
    reveal_strlit("endpointoperation");
    assert("endpointoperation"@ =~= seq!['e', 'n', 'd', 'p', 'o', 'i', 'n', 't', 'o', 'p', 'e', 'r', 'a', 't', 'i', 'o', 'n']);
    reveal_strlit("idempotent");
    assert("idempotent"@ =~= seq!['i', 'd', 'e', 'm', 'p', 'o', 't', 'e', 'n', 't']);
    reveal_strlit("http");
    assert("http"@ =~= seq!['h', 't', 't', 'p']);
    reveal_strlit("input");
    assert("input"@ =~= seq!['i', 'n', 'p', 'u', 't']);
    reveal_strlit("output");
    assert("output"@ =~= seq!['o', 'u', 't', 'p', 'u', 't']);
    reveal_strlit("errors");
    assert("errors"@ =~= seq!['e', 'r', 'r', 'o', 'r', 's']);
    reveal_strlit("documentation");
    assert("documentation"@ =~= seq!['d', 'o', 'c', 'u', 'm', 'e', 'n', 't', 'a', 't', 'i', 'o', 'n']);
    reveal_strlit("documentationUrl");
    assert("documentationUrl"@ =~= seq!['d', 'o', 'c', 'u', 'm', 'e', 'n', 't', 'a', 't', 'i', 'o', 'n', 'U', 'r', 'l']);
}


proof fn lk_operation_alias(x: Operation, pol: DocPolicy)
    ensures
        lookup(enc_operation(x, pol)->Obj_0, "alias"@) == (str_field(x.alias)),
{
    broadcast use lemma_lookup_append;
    broadcast use lemma_lookup_entry;
    broadcast use lemma_first_unknown_append;
    broadcast use lemma_first_unknown_entry;

    reveal_strlit("name");
    assert("name"@ =~= seq!['n', 'a', 'm', 'e']);
    reveal_strlit("alias");
    assert("alias"@ =~= seq!['a', 'l', 'i', 'a', 's']);
    reveal_strlit("deprecated");
    assert("deprecated"@ =~= seq!['d', 'e', 'p', 'r', 'e', 'c', 'a', 't', 'e', 'd']);
    reveal_strlit("endpointdiscovery");
    assert("endpointdiscovery"@ =~= seq!['e', 'n', 'd', 'p', 'o', 'i', 'n', 't', 'd', 'i', 's', 'c', 'o', 'v', 'e', 'r', 'y']);
    reveal_strlit("endpointoperation");
    assert("endpointoperation"@ =~= seq!['e', 'n', 'd', 'p', 'o', 'i', 'n', 't', 'o', 'p', 'e', 'r', 'a', 't', 'i', 'o', 'n']);
    reveal_strlit("idempotent");
    assert("idempotent"@ =~= seq!['i', 'd', 'e', 'm', 'p', 'o', 't', 'e', 'n', 't']);
    reveal_strlit("http");
    assert("http"@ =~= seq!['h', 't', 't', 'p']);
    reveal_strlit("input");
    assert("input"@ =~= seq!['i', 'n', 'p', 'u', 't']);
    reveal_strlit("output");
    assert("output"@ =~= seq!['o', 'u', 't', 'p', 'u', 't']);
    reveal_strlit("errors");
    assert("errors"@ =~= seq!['e', 'r', 'r', 'o', 'r', 's']);
    reveal_strlit("documentation");
    assert("documentation"@ =~= seq!['d', 'o', 'c', 'u', 'm', 'e', 'n', 't', 'a', 't', 'i', 'o', 'n']);
    reveal_strlit("documentationUrl");
    assert("documentationUrl"@ =~= seq!['d', 'o', 'c', 'u', 'm', 'e', 'n', 't', 'a', 't', 'i', 'o', 'n', 'U', 'r', 'l']);
}


proof fn lk_operation_deprecated(x: Operation, pol: DocPolicy)
    ensures
        lookup(enc_operation(x, pol)->Obj_0, "deprecated"@) == (bool_field(x.deprecated)),
{
    broadcast use lemma_lookup_append;
    broadcast use lemma_lookup_entry;
    broadcast use lemma_first_unknown_append;
    broadcast use lemma_first_unknown_entry;

    reveal_strlit("name");
    assert("name"@ =~= seq!['n', 'a', 'm', 'e']);
    reveal_strlit("alias");
    assert("alias"@ =~= seq!['a', 'l', 'i', 'a', 's']);
    reveal_strlit("deprecated");
    assert("deprecated"@ =~= seq!['d', 'e', 'p', 'r', 'e', 'c', 'a', 't', 'e', 'd']);
    reveal_strlit("endpointdiscovery");
    assert("endpointdiscovery"@ =~= seq!['e', 'n', 'd', 'p', 'o', 'i', 'n', 't', 'd', 'i', 's', 'c', 'o', 'v', 'e', 'r', 'y']);
    reveal_strlit("endpointoperation");
    assert("endpointoperation"@ =~= seq!['e', 'n', 'd', 'p', 'o', 'i', 'n', 't', 'o', 'p', 'e', 'r', 'a', 't', 'i', 'o', 'n']);
    reveal_strlit("idempotent");
    assert("idempotent"@ =~= seq!['i', 'd', 'e', 'm', 'p', 'o', 't', 'e', 'n', 't']);
    reveal_strlit("http");
    assert("http"@ =~= seq!['h', 't', 't', 'p']);
    reveal_strlit("input");
    assert("input"@ =~= seq!['i', 'n', 'p', 'u', 't']);
    reveal_strlit("output");
    assert("output"@ =~= seq!['o', 'u', 't', 'p', 'u', 't']);
    reveal_strlit("errors");
    assert("errors"@ =~= seq!['e', 'r', 'r', 'o', 'r', 's']);
    reveal_strlit("documentation");
    assert("documentation"@ =~= seq!['d', 'o', 'c', 'u', 'm', 'e', 'n', 't', 'a', 't', 'i', 'o', 'n']);
    reveal_strlit("documentationUrl");
    assert("documentationUrl"@ =~= seq!['d', 'o', 'c', 'u', 'm', 'e', 'n', 't', 'a', 't', 'i', 'o', 'n', 'U', 'r', 'l']);
}


proof fn lk_operation_endpointdiscovery(x: Operation, pol: DocPolicy)
    ensures
        lookup(enc_operation(x, pol)->Obj_0, "endpointdiscovery"@) == (match x.endpointdiscovery {
            None => None,
            Some(d) => Some(enc_endpoint_discovery(d)),
        }),
{
    broadcast use lemma_lookup_append;
    broadcast use lemma_lookup_entry;
    broadcast use lemma_first_unknown_append;
    broadcast use lemma_first_unknown_entry;

    reveal_strlit("name");
    assert("name"@ =~= seq!['n', 'a', 'm', 'e']);
    reveal_strlit("alias");
    assert("alias"@ =~= seq!['a', 'l', 'i', 'a', 's']);
    reveal_strlit("deprecated");
    assert("deprecated"@ =~= seq!['d', 'e', 'p', 'r', 'e', 'c', 'a', 't', 'e', 'd']);
    reveal_strlit("endpointdiscovery");
    assert("endpointdiscovery"@ =~= seq!['e', 'n', 'd', 'p', 'o', 'i', 'n', 't', 'd', 'i', 's', 'c', 'o', 'v', 'e', 'r', 'y']);
    reveal_strlit("endpointoperation");
    assert("endpointoperation"@ =~= seq!['e', 'n', 'd', 'p', 'o', 'i', 'n', 't', 'o', 'p', 'e', 'r', 'a', 't', 'i', 'o', 'n']);
    reveal_strlit("idempotent");
    assert("idempotent"@ =~= seq!['i', 'd', 'e', 'm', 'p', 'o', 't', 'e', 'n', 't']);
    reveal_strlit("http");
    assert("http"@ =~= seq!['h', 't', 't', 'p']);
    reveal_strlit("input");
    assert("input"@ =~= seq!['i', 'n', 'p', 'u', 't']);
    reveal_strlit("output");
    assert("output"@ =~= seq!['o', 'u', 't', 'p', 'u', 't']);
    reveal_strlit("errors");
    assert("errors"@ =~= seq!['e', 'r', 'r', 'o', 'r', 's']);
    reveal_strlit("documentation");
    assert("documentation"@ =~= seq!['d', 'o', 'c', 'u', 'm', 'e', 'n', 't', 'a', 't', 'i', 'o', 'n']);
    reveal_strlit("documentationUrl");
    assert("documentationUrl"@ =~= seq!['d', 'o', 'c', 'u', 'm', 'e', 'n', 't', 'a', 't', 'i', 'o', 'n', 'U', 'r', 'l']);
}


proof fn lk_operation_endpointoperation(x: Operation, pol: DocPolicy)
    ensures
        lookup(enc_operation(x, pol)->Obj_0, "endpointoperation"@) == (bool_field(x.endpointoperation)),
{
    broadcast use lemma_lookup_append;
    broadcast use lemma_lookup_entry;
    broadcast use lemma_first_unknown_append;
    broadcast use lemma_first_unknown_entry;

    reveal_strlit("name");
    assert("name"@ =~= seq!['n', 'a', 'm', 'e']);
    reveal_strlit("alias");
    assert("alias"@ =~= seq!['a', 'l', 'i', 'a', 's']);
    reveal_strlit("deprecated");
    assert("deprecated"@ =~= seq!['d', 'e', 'p', 'r', 'e', 'c', 'a', 't', 'e', 'd']);
    reveal_strlit("endpointdiscovery");
    assert("endpointdiscovery"@ =~= seq!['e', 'n', 'd', 'p', 'o', 'i', 'n', 't', 'd', 'i', 's', 'c', 'o', 'v', 'e', 'r', 'y']);
    reveal_strlit("endpointoperation");
    assert("endpointoperation"@ =~= seq!['e', 'n', 'd', 'p', 'o', 'i', 'n', 't', 'o', 'p', 'e', 'r', 'a', 't', 'i', 'o', 'n']);
    reveal_strlit("idempotent");
    assert("idempotent"@ =~= seq!['i', 'd', 'e', 'm', 'p', 'o', 't', 'e', 'n', 't']);
    reveal_strlit("http");
    assert("http"@ =~= seq!['h', 't', 't', 'p']);
    reveal_strlit("input");
    assert("input"@ =~= seq!['i', 'n', 'p', 'u', 't']);
    reveal_strlit("output");
    assert("output"@ =~= seq!['o', 'u', 't', 'p', 'u', 't']);
    reveal_strlit("errors");
    assert("errors"@ =~= seq!['e', 'r', 'r', 'o', 'r', 's']);
    reveal_strlit("documentation");
    assert("documentation"@ =~= seq!['d', 'o', 'c', 'u', 'm', 'e', 'n', 't', 'a', 't', 'i', 'o', 'n']);
    reveal_strlit("documentationUrl");
    assert("documentationUrl"@ =~= seq!['d', 'o', 'c', 'u', 'm', 'e', 'n', 't', 'a', 't', 'i', 'o', 'n', 'U', 'r', 'l']);
}


proof fn lk_operation_idempotent(x: Operation, pol: DocPolicy)
    ensures
        lookup(enc_operation(x, pol)->Obj_0, "idempotent"@) == (bool_field(x.idempotent)),
{
    broadcast use lemma_lookup_append;
    broadcast use lemma_lookup_entry;
    broadcast use lemma_first_unknown_append;
    broadcast use lemma_first_unknown_entry;

    reveal_strlit("name");
    assert("name"@ =~= seq!['n', 'a', 'm', 'e']);
    reveal_strlit("alias");
    assert("alias"@ =~= seq!['a', 'l', 'i', 'a', 's']);
    reveal_strlit("deprecated");
    assert("deprecated"@ =~= seq!['d', 'e', 'p', 'r', 'e', 'c', 'a', 't', 'e', 'd']);
    reveal_strlit("endpointdiscovery");
    assert("endpointdiscovery"@ =~= seq!['e', 'n', 'd', 'p', 'o', 'i', 'n', 't', 'd', 'i', 's', 'c', 'o', 'v', 'e', 'r', 'y']);
    reveal_strlit("endpointoperation");
    assert("endpointoperation"@ =~= seq!['e', 'n', 'd', 'p', 'o', 'i', 'n', 't', 'o', 'p', 'e', 'r', 'a', 't', 'i', 'o', 'n']);
    reveal_strlit("idempotent");
    assert("idempotent"@ =~= seq!['i', 'd', 'e', 'm', 'p', 'o', 't', 'e', 'n', 't']);
    reveal_strlit("http");
    assert("http"@ =~= seq!['h', 't', 't', 'p']);
    reveal_strlit("input");
    assert("input"@ =~= seq!['i', 'n', 'p', 'u', 't']);
    reveal_strlit("output");
    assert("output"@ =~= seq!['o', 'u', 't', 'p', 'u', 't']);
    reveal_strlit("errors");
    assert("errors"@ =~= seq!['e', 'r', 'r', 'o', 'r', 's']);
    reveal_strlit("documentation");
    assert("documentation"@ =~= seq!['d', 'o', 'c', 'u', 'm', 'e', 'n', 't', 'a', 't', 'i', 'o', 'n']);
    reveal_strlit("documentationUrl");
    assert("documentationUrl"@ =~= seq!['d', 'o', 'c', 'u', 'm', 'e', 'n', 't', 'a', 't', 'i', 'o', 'n', 'U', 'r', 'l']);
}


proof fn lk_operation_http(x: Operation, pol: DocPolicy)
    ensures
        lookup(enc_operation(x, pol)->Obj_0, "http"@) == (match x.http {
            None => None,
            Some(h) => Some(enc_http_operation(h)),
        }),
{
    broadcast use lemma_lookup_append;
    broadcast use lemma_lookup_entry;
    broadcast use lemma_first_unknown_append;
    broadcast use lemma_first_unknown_entry;

    reveal_strlit("name");
    assert("name"@ =~= seq!['n', 'a', 'm', 'e']);
    reveal_strlit("alias");
    assert("alias"@ =~= seq!['a', 'l', 'i', 'a', 's']);
    reveal_strlit("deprecated");
    assert("deprecated"@ =~= seq!['d', 'e', 'p', 'r', 'e', 'c', 'a', 't', 'e', 'd']);
    reveal_strlit("endpointdiscovery");
    assert("endpointdiscovery"@ =~= seq!['e', 'n', 'd', 'p', 'o', 'i', 'n', 't', 'd', 'i', 's', 'c', 'o', 'v', 'e', 'r', 'y']);
    reveal_strlit("endpointoperation");
    assert("endpointoperation"@ =~= seq!['e', 'n', 'd', 'p', 'o', 'i', 'n', 't', 'o', 'p', 'e', 'r', 'a', 't', 'i', 'o', 'n']);
    reveal_strlit("idempotent");
    assert("idempotent"@ =~= seq!['i', 'd', 'e', 'm', 'p', 'o', 't', 'e', 'n', 't']);
    reveal_strlit("http");
    assert("http"@ =~= seq!['h', 't', 't', 'p']);
    reveal_strlit("input");
    assert("input"@ =~= seq!['i', 'n', 'p', 'u', 't']);
    reveal_strlit("output");
    assert("output"@ =~= seq!['o', 'u', 't', 'p', 'u', 't']);
    reveal_strlit("errors");
    assert("errors"@ =~= seq!['e', 'r', 'r', 'o', 'r', 's']);
    reveal_strlit("documentation");
    assert("documentation"@ =~= seq!['d', 'o', 'c', 'u', 'm', 'e', 'n', 't', 'a', 't', 'i', 'o', 'n']);
    reveal_strlit("documentationUrl");
    assert("documentationUrl"@ =~= seq!['d', 'o', 'c', 'u', 'm', 'e', 'n', 't', 'a', 't', 'i', 'o', 'n', 'U', 'r', 'l']);
}


proof fn lk_operation_input(x: Operation, pol: DocPolicy)
    ensures
        lookup(enc_operation(x, pol)->Obj_0, "input"@) == (match x.input {
            None => None,
            Some(m) => Some(enc_message(m, pol)),
        }),
{
    broadcast use lemma_lookup_append;
    broadcast use lemma_lookup_entry;
    broadcast use lemma_first_unknown_append;
    broadcast use lemma_first_unknown_entry;

    reveal_strlit("name");
    assert("name"@ =~= seq!['n', 'a', 'm', 'e']);
    reveal_strlit("alias");
    assert("alias"@ =~= seq!['a', 'l', 'i', 'a', 's']);
    reveal_strlit("deprecated");
    assert("deprecated"@ =~= seq!['d', 'e', 'p', 'r', 'e', 'c', 'a', 't', 'e', 'd']);
    reveal_strlit("endpointdiscovery");
    assert("endpointdiscovery"@ =~= seq!['e', 'n', 'd', 'p', 'o', 'i', 'n', 't', 'd', 'i', 's', 'c', 'o', 'v', 'e', 'r', 'y']);
    reveal_strlit("endpointoperation");
    assert("endpointoperation"@ =~= seq!['e', 'n', 'd', 'p', 'o', 'i', 'n', 't', 'o', 'p', 'e', 'r', 'a', 't', 'i', 'o', 'n']);
    reveal_strlit("idempotent");
    assert("idempotent"@ =~= seq!['i', 'd', 'e', 'm', 'p', 'o', 't', 'e', 'n', 't']);
    reveal_strlit("http");
    assert("http"@ =~= seq!['h', 't', 't', 'p']);
    reveal_strlit("input");
    assert("input"@ =~= seq!['i', 'n', 'p', 'u', 't']);
    reveal_strlit("output");
    assert("output"@ =~= seq!['o', 'u', 't', 'p', 'u', 't']);
    reveal_strlit("errors");
    assert("errors"@ =~= seq!['e', 'r', 'r', 'o', 'r', 's']);
    reveal_strlit("documentation");
    assert("documentation"@ =~= seq!['d', 'o', 'c', 'u', 'm', 'e', 'n', 't', 'a', 't', 'i', 'o', 'n']);
    reveal_strlit("documentationUrl");
    assert("documentationUrl"@ =~= seq!['d', 'o', 'c', 'u', 'm', 'e', 'n', 't', 'a', 't', 'i', 'o', 'n', 'U', 'r', 'l']);
}


proof fn lk_operation_output(x: Operation, pol: DocPolicy)
    ensures
        lookup(enc_operation(x, pol)->Obj_0, "output"@) == (match x.output {
            None => None,
            Some(m) => Some(enc_message(m, pol)),
        }),
{
    broadcast use lemma_lookup_append;
    broadcast use lemma_lookup_entry;
    broadcast use lemma_first_unknown_append;
    broadcast use lemma_first_unknown_entry;

    reveal_strlit("name");
    assert("name"@ =~= seq!['n', 'a', 'm', 'e']);
    reveal_strlit("alias");
    assert("alias"@ =~= seq!['a', 'l', 'i', 'a', 's']);
    reveal_strlit("deprecated");
    assert("deprecated"@ =~= seq!['d', 'e', 'p', 'r', 'e', 'c', 'a', 't', 'e', 'd']);
    reveal_strlit("endpointdiscovery");
    assert("endpointdiscovery"@ =~= seq!['e', 'n', 'd', 'p', 'o', 'i', 'n', 't', 'd', 'i', 's', 'c', 'o', 'v', 'e', 'r', 'y']);
    reveal_strlit("endpointoperation");
    assert("endpointoperation"@ =~= seq!['e', 'n', 'd', 'p', 'o', 'i', 'n', 't', 'o', 'p', 'e', 'r', 'a', 't', 'i', 'o', 'n']);
    reveal_strlit("idempotent");
    assert("idempotent"@ =~= seq!['i', 'd', 'e', 'm', 'p', 'o', 't', 'e', 'n', 't']);
    reveal_strlit("http");
    assert("http"@ =~= seq!['h', 't', 't', 'p']);
    reveal_strlit("input");
    assert("input"@ =~= seq!['i', 'n', 'p', 'u', 't']);
    reveal_strlit("output");
    assert("output"@ =~= seq!['o', 'u', 't', 'p', 'u', 't']);
    reveal_strlit("errors");
    assert("errors"@ =~= seq!['e', 'r', 'r', 'o', 'r', 's']);
    reveal_strlit("documentation");
    assert("documentation"@ =~= seq!['d', 'o', 'c', 'u', 'm', 'e', 'n', 't', 'a', 't', 'i', 'o', 'n']);
    reveal_strlit("documentationUrl");
    assert("documentationUrl"@ =~= seq!['d', 'o', 'c', 'u', 'm', 'e', 'n', 't', 'a', 't', 'i', 'o', 'n', 'U', 'r', 'l']);
}


proof fn lk_operation_errors(x: Operation, pol: DocPolicy)
    ensures
        lookup(enc_operation(x, pol)->Obj_0, "errors"@) == (refs_field(x.errors, pol)),
{
    broadcast use lemma_lookup_append;
    broadcast use lemma_lookup_entry;
    broadcast use lemma_first_unknown_append;
    broadcast use lemma_first_unknown_entry;

    reveal_strlit("name");
    assert("name"@ =~= seq!['n', 'a', 'm', 'e']);
    reveal_strlit("alias");
    assert("alias"@ =~= seq!['a', 'l', 'i', 'a', 's']);
    reveal_strlit("deprecated");
    assert("deprecated"@ =~= seq!['d', 'e', 'p', 'r', 'e', 'c', 'a', 't', 'e', 'd']);
    reveal_strlit("endpointdiscovery");
    assert("endpointdiscovery"@ =~= seq!['e', 'n', 'd', 'p', 'o', 'i', 'n', 't', 'd', 'i', 's', 'c', 'o', 'v', 'e', 'r', 'y']);
    reveal_strlit("endpointoperation");
    assert("endpointoperation"@ =~= seq!['e', 'n', 'd', 'p', 'o', 'i', 'n', 't', 'o', 'p', 'e', 'r', 'a', 't', 'i', 'o', 'n']);
    reveal_strlit("idempotent");
    assert("idempotent"@ =~= seq!['i', 'd', 'e', 'm', 'p', 'o', 't', 'e', 'n', 't']);
    reveal_strlit("http");
    assert("http"@ =~= seq!['h', 't', 't', 'p']);
    reveal_strlit("input");
    assert("input"@ =~= seq!['i', 'n', 'p', 'u', 't']);
    reveal_strlit("output");
    assert("output"@ =~= seq!['o', 'u', 't', 'p', 'u', 't']);
    reveal_strlit("errors");
    assert("errors"@ =~= seq!['e', 'r', 'r', 'o', 'r', 's']);
    reveal_strlit("documentation");
    assert("documentation"@ =~= seq!['d', 'o', 'c', 'u', 'm', 'e', 'n', 't', 'a', 't', 'i', 'o', 'n']);
    reveal_strlit("documentationUrl");
    assert("documentationUrl"@ =~= seq!['d', 'o', 'c', 'u', 'm', 'e', 'n', 't', 'a', 't', 'i', 'o', 'n', 'U', 'r', 'l']);
}


proof fn lk_operation_documentation(x: Operation, pol: DocPolicy)
    ensures
        lookup(enc_operation(x, pol)->Obj_0, "documentation"@) == (doc_field(x.documentation.documentation, pol)),
{
    broadcast use lemma_lookup_append;
    broadcast use lemma_lookup_entry;
    broadcast use lemma_first_unknown_append;
    broadcast use lemma_first_unknown_entry;

    reveal_strlit("name");
    assert("name"@ =~= seq!['n', 'a', 'm', 'e']);
    reveal_strlit("alias");
    assert("alias"@ =~= seq!['a', 'l', 'i', 'a', 's']);
    reveal_strlit("deprecated");
    assert("deprecated"@ =~= seq!['d', 'e', 'p', 'r', 'e', 'c', 'a', 't', 'e', 'd']);
    reveal_strlit("endpointdiscovery");
    assert("endpointdiscovery"@ =~= seq!['e', 'n', 'd', 'p', 'o', 'i', 'n', 't', 'd', 'i', 's', 'c', 'o', 'v', 'e', 'r', 'y']);
    reveal_strlit("endpointoperation");
    assert("endpointoperation"@ =~= seq!['e', 'n', 'd', 'p', 'o', 'i', 'n', 't', 'o', 'p', 'e', 'r', 'a', 't', 'i', 'o', 'n']);
    reveal_strlit("idempotent");
    assert("idempotent"@ =~= seq!['i', 'd', 'e', 'm', 'p', 'o', 't', 'e', 'n', 't']);
    reveal_strlit("http");
    assert("http"@ =~= seq!['h', 't', 't', 'p']);
    reveal_strlit("input");
    assert("input"@ =~= seq!['i', 'n', 'p', 'u', 't']);
    reveal_strlit("output");
    assert("output"@ =~= seq!['o', 'u', 't', 'p', 'u', 't']);
    reveal_strlit("errors");
    assert("errors"@ =~= seq!['e', 'r', 'r', 'o', 'r', 's']);
    reveal_strlit("documentation");
    assert("documentation"@ =~= seq!['d', 'o', 'c', 'u', 'm', 'e', 'n', 't', 'a', 't', 'i', 'o', 'n']);
    reveal_strlit("documentationUrl");
    assert("documentationUrl"@ =~= seq!['d', 'o', 'c', 'u', 'm', 'e', 'n', 't', 'a', 't', 'i', 'o', 'n', 'U', 'r', 'l']);
}


proof fn lk_operation_documentationurl(x: Operation, pol: DocPolicy)
    ensures
        lookup(enc_operation(x, pol)->Obj_0, "documentationUrl"@) == (doc_field(x.documentation_url.documentation_url, pol)),
{
    broadcast use lemma_lookup_append;
    broadcast use lemma_lookup_entry;
    broadcast use lemma_first_unknown_append;
    broadcast use lemma_first_unknown_entry;

    reveal_strlit("name");
    assert("name"@ =~= seq!['n', 'a', 'm', 'e']);
    reveal_strlit("alias");
    assert("alias"@ =~= seq!['a', 'l', 'i', 'a', 's']);
    reveal_strlit("deprecated");
    assert("deprecated"@ =~= seq!['d', 'e', 'p', 'r', 'e', 'c', 'a', 't', 'e', 'd']);
    reveal_strlit("endpointdiscovery");
    assert("endpointdiscovery"@ =~= seq!['e', 'n', 'd', 'p', 'o', 'i', 'n', 't', 'd', 'i', 's', 'c', 'o', 'v', 'e', 'r', 'y']);
    reveal_strlit("endpointoperation");
    assert("endpointoperation"@ =~= seq!['e', 'n', 'd', 'p', 'o', 'i', 'n', 't', 'o', 'p', 'e', 'r', 'a', 't', 'i', 'o', 'n']);
    reveal_strlit("idempotent");
    assert("idempotent"@ =~= seq!['i', 'd', 'e', 'm', 'p', 'o', 't', 'e', 'n', 't']);
    reveal_strlit("http");
    assert("http"@ =~= seq!['h', 't', 't', 'p']);
    reveal_strlit("input");
    assert("input"@ =~= seq!['i', 'n', 'p', 'u', 't']);
    reveal_strlit("output");
    assert("output"@ =~= seq!['o', 'u', 't', 'p', 'u', 't']);
    reveal_strlit("errors");
    assert("errors"@ =~= seq!['e', 'r', 'r', 'o', 'r', 's']);
    reveal_strlit("documentation");
    assert("documentation"@ =~= seq!['d', 'o', 'c', 'u', 'm', 'e', 'n', 't', 'a', 't', 'i', 'o', 'n']);
    reveal_strlit("documentationUrl");
    assert("documentationUrl"@ =~= seq!['d', 'o', 'c', 'u', 'm', 'e', 'n', 't', 'a', 't', 'i', 'o', 'n', 'U', 'r', 'l']);
}


proof fn nounknown_operation(x: Operation, pol: DocPolicy)
    ensures
        first_unknown(enc_operation(x, pol)->Obj_0, operation_allowed()) is None,
{
    broadcast use lemma_lookup_append;
    broadcast use lemma_lookup_entry;
    broadcast use lemma_first_unknown_append;
    broadcast use lemma_first_unknown_entry;

    reveal_strlit("name");
    assert("name"@ =~= seq!['n', 'a', 'm', 'e']);
    reveal_strlit("alias");
    assert("alias"@ =~= seq!['a', 'l', 'i', 'a', 's']);
    reveal_strlit("deprecated");
    assert("deprecated"@ =~= seq!['d', 'e', 'p', 'r', 'e', 'c', 'a', 't', 'e', 'd']);
    reveal_strlit("endpointdiscovery");
    assert("endpointdiscovery"@ =~= seq!['e', 'n', 'd', 'p', 'o', 'i', 'n', 't', 'd', 'i', 's', 'c', 'o', 'v', 'e', 'r', 'y']);
    reveal_strlit("endpointoperation");
    assert("endpointoperation"@ =~= seq!['e', 'n', 'd', 'p', 'o', 'i', 'n', 't', 'o', 'p', 'e', 'r', 'a', 't', 'i', 'o', 'n']);
    reveal_strlit("idempotent");
    assert("idempotent"@ =~= seq!['i', 'd', 'e', 'm', 'p', 'o', 't', 'e', 'n', 't']);
    reveal_strlit("http");
    assert("http"@ =~= seq!['h', 't', 't', 'p']);
    reveal_strlit("input");
    assert("input"@ =~= seq!['i', 'n', 'p', 'u', 't']);
    reveal_strlit("output");
    assert("output"@ =~= seq!['o', 'u', 't', 'p', 'u', 't']);
    reveal_strlit("errors");
    assert("errors"@ =~= seq!['e', 'r', 'r', 'o', 'r', 's']);
    reveal_strlit("documentation");
    assert("documentation"@ =~= seq!['d', 'o', 'c', 'u', 'm', 'e', 'n', 't', 'a', 't', 'i', 'o', 'n']);
    reveal_strlit("documentationUrl");
    assert("documentationUrl"@ =~= seq!['d', 'o', 'c', 'u', 'm', 'e', 'n', 't', 'a', 't', 'i', 'o', 'n', 'U', 'r', 'l']);
}


#[verifier::rlimit(50)]
proof fn lk_shape_type(x: Shape, pol: DocPolicy)
    ensures
        lookup(enc_shape(x, pol)->Obj_0, "type"@) == (Some(JsonVal::Str(x.type_@))),
{
    broadcast use lemma_lookup_append;
    broadcast use lemma_lookup_entry;
    broadcast use lemma_first_unknown_append;
    broadcast use lemma_first_unknown_entry;

    reveal_strlit("type");
    assert("type"@.len() == 4);
    assert("type"@[0] == 't');
    assert("type"@[1] == 'y');
    assert("type"@[2] == 'p');
    reveal_strlit("box");
    assert("box"@.len() == 3);
    assert("box"@[0] == 'b');
    assert("box"@[1] == 'o');
    assert("box"@[2] == 'x');
    reveal_strlit("event");
    assert("event"@.len() == 5);
    assert("event"@[0] == 'e');
    assert("event"@[1] == 'v');
    assert("event"@[2] == 'e');
    reveal_strlit("eventstream");
    assert("eventstream"@.len() == 11);
    assert("eventstream"@[0] == 'e');
    assert("eventstream"@[1] == 'v');
    assert("eventstream"@[2] == 'e');
    reveal_strlit("flattened");
    assert("flattened"@.len() == 9);
    assert("flattened"@[0] == 'f');
    assert("flattened"@[1] == 'l');
    assert("flattened"@[2] == 'a');
    reveal_strlit("sensitive");
    assert("sensitive"@.len() == 9);
    assert("sensitive"@[0] == 's');
    assert("sensitive"@[1] == 'e');
    assert("sensitive"@[2] == 'n');
    reveal_strlit("wrapper");
    assert("wrapper"@.len() == 7);
    assert("wrapper"@[0] == 'w');
    assert("wrapper"@[1] == 'r');
    assert("wrapper"@[2] == 'a');
    reveal_strlit("locationName");
    assert("locationName"@.len() == 12);
    assert("locationName"@[0] == 'l');
    assert("locationName"@[1] == 'o');
    assert("locationName"@[2] == 'c');
    reveal_strlit("xmlNamespace");
    assert("xmlNamespace"@.len() == 12);
    assert("xmlNamespace"@[0] == 'x');
    assert("xmlNamespace"@[1] == 'm');
    assert("xmlNamespace"@[2] == 'l');
    reveal_strlit("deprecated");
    assert("deprecated"@.len() == 10);
    assert("deprecated"@[0] == 'd');
    assert("deprecated"@[1] == 'e');
    assert("deprecated"@[2] == 'p');
    reveal_strlit("deprecatedMessage");
    assert("deprecatedMessage"@.len() == 17);
    assert("deprecatedMessage"@[0] == 'd');
    assert("deprecatedMessage"@[1] == 'e');
    assert("deprecatedMessage"@[2] == 'p');
    reveal_strlit("min");
    assert("min"@.len() == 3);
    assert("min"@[0] == 'm');
    assert("min"@[1] == 'i');
    assert("min"@[2] == 'n');
    reveal_strlit("max");
    assert("max"@.len() == 3);
    assert("max"@[0] == 'm');
    assert("max"@[1] == 'a');
    assert("max"@[2] == 'x');
    reveal_strlit("enum");
    assert("enum"@.len() == 4);
    assert("enum"@[0] == 'e');
    assert("enum"@[1] == 'n');
    assert("enum"@[2] == 'u');
    reveal_strlit("pattern");
    assert("pattern"@.len() == 7);
    assert("pattern"@[0] == 'p');
    assert("pattern"@[1] == 'a');
    assert("pattern"@[2] == 't');
    reveal_strlit("timestampFormat");
    assert("timestampFormat"@.len() == 15);
    assert("timestampFormat"@[0] == 't');
    assert("timestampFormat"@[1] == 'i');
    assert("timestampFormat"@[2] == 'm');
    reveal_strlit("key");
    assert("key"@.len() == 3);
    assert("key"@[0] == 'k');
    assert("key"@[1] == 'e');
    assert("key"@[2] == 'y');
    reveal_strlit("value");
    assert("value"@.len() == 5);
    assert("value"@[0] == 'v');
    assert("value"@[1] == 'a');
    assert("value"@[2] == 'l');
    reveal_strlit("error");
    assert("error"@.len() == 5);
    assert("error"@[0] == 'e');
    assert("error"@[1] == 'r');
    assert("error"@[2] == 'r');
    reveal_strlit("exception");
    assert("exception"@.len() == 9);
    assert("exception"@[0] == 'e');
    assert("exception"@[1] == 'x');
    assert("exception"@[2] == 'c');
    reveal_strlit("fault");
    assert("fault"@.len() == 5);
    assert("fault"@[0] == 'f');
    assert("fault"@[1] == 'a');
    assert("fault"@[2] == 'u');
    reveal_strlit("required");
    assert("required"@.len() == 8);
    assert("required"@[0] == 'r');
    assert("required"@[1] == 'e');
    assert("required"@[2] == 'q');
    reveal_strlit("member");
    assert("member"@.len() == 6);
    assert("member"@[0] == 'm');
    assert("member"@[1] == 'e');
    assert("member"@[2] == 'm');
    reveal_strlit("members");
    assert("members"@.len() == 7);
    assert("members"@[0] == 'm');
    assert("members"@[1] == 'e');
    assert("members"@[2] == 'm');
    reveal_strlit("payload");
    assert("payload"@.len() == 7);
    assert("payload"@[0] == 'p');
    assert("payload"@[1] == 'a');
    assert("payload"@[2] == 'y');
    reveal_strlit("documentation");
    assert("documentation"@.len() == 13);
    assert("documentation"@[0] == 'd');
    assert("documentation"@[1] == 'o');
    assert("documentation"@[2] == 'c');
}


#[verifier::rlimit(50)]
proof fn lk_shape_box(x: Shape, pol: DocPolicy)
    ensures
        lookup(enc_shape(x, pol)->Obj_0, "box"@) == (bool_field(x.box_)),
{
    broadcast use lemma_lookup_append;
    broadcast use lemma_lookup_entry;
    broadcast use lemma_first_unknown_append;
    broadcast use lemma_first_unknown_entry;

    reveal_strlit("type");
    assert("type"@.len() == 4);
    assert("type"@[0] == 't');
    assert("type"@[1] == 'y');
    assert("type"@[2] == 'p');
    reveal_strlit("box");
    assert("box"@.len() == 3);
    assert("box"@[0] == 'b');
    assert("box"@[1] == 'o');
    assert("box"@[2] == 'x');
    reveal_strlit("event");
    assert("event"@.len() == 5);
    assert("event"@[0] == 'e');
    assert("event"@[1] == 'v');
    assert("event"@[2] == 'e');
    reveal_strlit("eventstream");
    assert("eventstream"@.len() == 11);
    assert("eventstream"@[0] == 'e');
    assert("eventstream"@[1] == 'v');
    assert("eventstream"@[2] == 'e');
    reveal_strlit("flattened");
    assert("flattened"@.len() == 9);
    assert("flattened"@[0] == 'f');
    assert("flattened"@[1] == 'l');
    assert("flattened"@[2] == 'a');
    reveal_strlit("sensitive");
    assert("sensitive"@.len() == 9);
    assert("sensitive"@[0] == 's');
    assert("sensitive"@[1] == 'e');
    assert("sensitive"@[2] == 'n');
    reveal_strlit("wrapper");
    assert("wrapper"@.len() == 7);
    assert("wrapper"@[0] == 'w');
    assert("wrapper"@[1] == 'r');
    assert("wrapper"@[2] == 'a');
    reveal_strlit("locationName");
    assert("locationName"@.len() == 12);
    assert("locationName"@[0] == 'l');
    assert("locationName"@[1] == 'o');
    assert("locationName"@[2] == 'c');
    reveal_strlit("xmlNamespace");
    assert("xmlNamespace"@.len() == 12);
    assert("xmlNamespace"@[0] == 'x');
    assert("xmlNamespace"@[1] == 'm');
    assert("xmlNamespace"@[2] == 'l');
    reveal_strlit("deprecated");
    assert("deprecated"@.len() == 10);
    assert("deprecated"@[0] == 'd');
    assert("deprecated"@[1] == 'e');
    assert("deprecated"@[2] == 'p');
    reveal_strlit("deprecatedMessage");
    assert("deprecatedMessage"@.len() == 17);
    assert("deprecatedMessage"@[0] == 'd');
    assert("deprecatedMessage"@[1] == 'e');
    assert("deprecatedMessage"@[2] == 'p');
    reveal_strlit("min");
    assert("min"@.len() == 3);
    assert("min"@[0] == 'm');
    assert("min"@[1] == 'i');
    assert("min"@[2] == 'n');
    reveal_strlit("max");
    assert("max"@.len() == 3);
    assert("max"@[0] == 'm');
    assert("max"@[1] == 'a');
    assert("max"@[2] == 'x');
    reveal_strlit("enum");
    assert("enum"@.len() == 4);
    assert("enum"@[0] == 'e');
    assert("enum"@[1] == 'n');
    assert("enum"@[2] == 'u');
    reveal_strlit("pattern");
    assert("pattern"@.len() == 7);
    assert("pattern"@[0] == 'p');
    assert("pattern"@[1] == 'a');
    assert("pattern"@[2] == 't');
    reveal_strlit("timestampFormat");
    assert("timestampFormat"@.len() == 15);
    assert("timestampFormat"@[0] == 't');
    assert("timestampFormat"@[1] == 'i');
    assert("timestampFormat"@[2] == 'm');
    reveal_strlit("key");
    assert("key"@.len() == 3);
    assert("key"@[0] == 'k');
    assert("key"@[1] == 'e');
    assert("key"@[2] == 'y');
    reveal_strlit("value");
    assert("value"@.len() == 5);
    assert("value"@[0] == 'v');
    assert("value"@[1] == 'a');
    assert("value"@[2] == 'l');
    reveal_strlit("error");
    assert("error"@.len() == 5);
    assert("error"@[0] == 'e');
    assert("error"@[1] == 'r');
    assert("error"@[2] == 'r');
    reveal_strlit("exception");
    assert("exception"@.len() == 9);
    assert("exception"@[0] == 'e');
    assert("exception"@[1] == 'x');
    assert("exception"@[2] == 'c');
    reveal_strlit("fault");
    assert("fault"@.len() == 5);
    assert("fault"@[0] == 'f');
    assert("fault"@[1] == 'a');
    assert("fault"@[2] == 'u');
    reveal_strlit("required");
    assert("required"@.len() == 8);
    assert("required"@[0] == 'r');
    assert("required"@[1] == 'e');
    assert("required"@[2] == 'q');
    reveal_strlit("member");
    assert("member"@.len() == 6);
    assert("member"@[0] == 'm');
    assert("member"@[1] == 'e');
    assert("member"@[2] == 'm');
    reveal_strlit("members");
    assert("members"@.len() == 7);
    assert("members"@[0] == 'm');
    assert("members"@[1] == 'e');
    assert("members"@[2] == 'm');
    reveal_strlit("payload");
    assert("payload"@.len() == 7);
    assert("payload"@[0] == 'p');
    assert("payload"@[1] == 'a');
    assert("payload"@[2] == 'y');
    reveal_strlit("documentation");
    assert("documentation"@.len() == 13);
    assert("documentation"@[0] == 'd');
    assert("documentation"@[1] == 'o');
    assert("documentation"@[2] == 'c');
}


#[verifier::rlimit(50)]
proof fn lk_shape_event(x: Shape, pol: DocPolicy)
    ensures
        lookup(enc_shape(x, pol)->Obj_0, "event"@) == (bool_field(x.event)),
{
    broadcast use lemma_lookup_append;
    broadcast use lemma_lookup_entry;
    broadcast use lemma_first_unknown_append;
    broadcast use lemma_first_unknown_entry;

    reveal_strlit("type");
    assert("type"@.len() == 4);
    assert("type"@[0] == 't');
    assert("type"@[1] == 'y');
    assert("type"@[2] == 'p');
    reveal_strlit("box");
    assert("box"@.len() == 3);
    assert("box"@[0] == 'b');
    assert("box"@[1] == 'o');
    assert("box"@[2] == 'x');
    reveal_strlit("event");
    assert("event"@.len() == 5);
    assert("event"@[0] == 'e');
    assert("event"@[1] == 'v');
    assert("event"@[2] == 'e');
    reveal_strlit("eventstream");
    assert("eventstream"@.len() == 11);
    assert("eventstream"@[0] == 'e');
    assert("eventstream"@[1] == 'v');
    assert("eventstream"@[2] == 'e');
    reveal_strlit("flattened");
    assert("flattened"@.len() == 9);
    assert("flattened"@[0] == 'f');
    assert("flattened"@[1] == 'l');
    assert("flattened"@[2] == 'a');
    reveal_strlit("sensitive");
    assert("sensitive"@.len() == 9);
    assert("sensitive"@[0] == 's');
    assert("sensitive"@[1] == 'e');
    assert("sensitive"@[2] == 'n');
    reveal_strlit("wrapper");
    assert("wrapper"@.len() == 7);
    assert("wrapper"@[0] == 'w');
    assert("wrapper"@[1] == 'r');
    assert("wrapper"@[2] == 'a');
    reveal_strlit("locationName");
    assert("locationName"@.len() == 12);
    assert("locationName"@[0] == 'l');
    assert("locationName"@[1] == 'o');
    assert("locationName"@[2] == 'c');
    reveal_strlit("xmlNamespace");
    assert("xmlNamespace"@.len() == 12);
    assert("xmlNamespace"@[0] == 'x');
    assert("xmlNamespace"@[1] == 'm');
    assert("xmlNamespace"@[2] == 'l');
    reveal_strlit("deprecated");
    assert("deprecated"@.len() == 10);
    assert("deprecated"@[0] == 'd');
    assert("deprecated"@[1] == 'e');
    assert("deprecated"@[2] == 'p');
    reveal_strlit("deprecatedMessage");
    assert("deprecatedMessage"@.len() == 17);
    assert("deprecatedMessage"@[0] == 'd');
    assert("deprecatedMessage"@[1] == 'e');
    assert("deprecatedMessage"@[2] == 'p');
    reveal_strlit("min");
    assert("min"@.len() == 3);
    assert("min"@[0] == 'm');
    assert("min"@[1] == 'i');
    assert("min"@[2] == 'n');
    reveal_strlit("max");
    assert("max"@.len() == 3);
    assert("max"@[0] == 'm');
    assert("max"@[1] == 'a');
    assert("max"@[2] == 'x');
    reveal_strlit("enum");
    assert("enum"@.len() == 4);
    assert("enum"@[0] == 'e');
    assert("enum"@[1] == 'n');
    assert("enum"@[2] == 'u');
    reveal_strlit("pattern");
    assert("pattern"@.len() == 7);
    assert("pattern"@[0] == 'p');
    assert("pattern"@[1] == 'a');
    assert("pattern"@[2] == 't');
    reveal_strlit("timestampFormat");
    assert("timestampFormat"@.len() == 15);
    assert("timestampFormat"@[0] == 't');
    assert("timestampFormat"@[1] == 'i');
    assert("timestampFormat"@[2] == 'm');
    reveal_strlit("key");
    assert("key"@.len() == 3);
    assert("key"@[0] == 'k');
    assert("key"@[1] == 'e');
    assert("key"@[2] == 'y');
    reveal_strlit("value");
    assert("value"@.len() == 5);
    assert("value"@[0] == 'v');
    assert("value"@[1] == 'a');
    assert("value"@[2] == 'l');
    reveal_strlit("error");
    assert("error"@.len() == 5);
    assert("error"@[0] == 'e');
    assert("error"@[1] == 'r');
    assert("error"@[2] == 'r');
    reveal_strlit("exception");
    assert("exception"@.len() == 9);
    assert("exception"@[0] == 'e');
    assert("exception"@[1] == 'x');
    assert("exception"@[2] == 'c');
    reveal_strlit("fault");
    assert("fault"@.len() == 5);
    assert("fault"@[0] == 'f');
    assert("fault"@[1] == 'a');
    assert("fault"@[2] == 'u');
    reveal_strlit("required");
    assert("required"@.len() == 8);
    assert("required"@[0] == 'r');
    assert("required"@[1] == 'e');
    assert("required"@[2] == 'q');
    reveal_strlit("member");
    assert("member"@.len() == 6);
    assert("member"@[0] == 'm');
    assert("member"@[1] == 'e');
    assert("member"@[2] == 'm');
    reveal_strlit("members");
    assert("members"@.len() == 7);
    assert("members"@[0] == 'm');
    assert("members"@[1] == 'e');
    assert("members"@[2] == 'm');
    reveal_strlit("payload");
    assert("payload"@.len() == 7);
    assert("payload"@[0] == 'p');
    assert("payload"@[1] == 'a');
    assert("payload"@[2] == 'y');
    reveal_strlit("documentation");
    assert("documentation"@.len() == 13);
    assert("documentation"@[0] == 'd');
    assert("documentation"@[1] == 'o');
    assert("documentation"@[2] == 'c');
}


#[verifier::rlimit(50)]
proof fn lk_shape_eventstream(x: Shape, pol: DocPolicy)
    ensures
        lookup(enc_shape(x, pol)->Obj_0, "eventstream"@) == (bool_field(x.eventstream)),
{
    broadcast use lemma_lookup_append;
    broadcast use lemma_lookup_entry;
    broadcast use lemma_first_unknown_append;
    broadcast use lemma_first_unknown_entry;

    reveal_strlit("type");
    assert("type"@.len() == 4);
    assert("type"@[0] == 't');
    assert("type"@[1] == 'y');
    assert("type"@[2] == 'p');
    reveal_strlit("box");
    assert("box"@.len() == 3);
    assert("box"@[0] == 'b');
    assert("box"@[1] == 'o');
    assert("box"@[2] == 'x');
    reveal_strlit("event");
    assert("event"@.len() == 5);
    assert("event"@[0] == 'e');
    assert("event"@[1] == 'v');
    assert("event"@[2] == 'e');
    reveal_strlit("eventstream");
    assert("eventstream"@.len() == 11);
    assert("eventstream"@[0] == 'e');
    assert("eventstream"@[1] == 'v');
    assert("eventstream"@[2] == 'e');
    reveal_strlit("flattened");
    assert("flattened"@.len() == 9);
    assert("flattened"@[0] == 'f');
    assert("flattened"@[1] == 'l');
    assert("flattened"@[2] == 'a');
    reveal_strlit("sensitive");
    assert("sensitive"@.len() == 9);
    assert("sensitive"@[0] == 's');
    assert("sensitive"@[1] == 'e');
    assert("sensitive"@[2] == 'n');
    reveal_strlit("wrapper");
    assert("wrapper"@.len() == 7);
    assert("wrapper"@[0] == 'w');
    assert("wrapper"@[1] == 'r');
    assert("wrapper"@[2] == 'a');
    reveal_strlit("locationName");
    assert("locationName"@.len() == 12);
    assert("locationName"@[0] == 'l');
    assert("locationName"@[1] == 'o');
    assert("locationName"@[2] == 'c');
    reveal_strlit("xmlNamespace");
    assert("xmlNamespace"@.len() == 12);
    assert("xmlNamespace"@[0] == 'x');
    assert("xmlNamespace"@[1] == 'm');
    assert("xmlNamespace"@[2] == 'l');
    reveal_strlit("deprecated");
    assert("deprecated"@.len() == 10);
    assert("deprecated"@[0] == 'd');
    assert("deprecated"@[1] == 'e');
    assert("deprecated"@[2] == 'p');
    reveal_strlit("deprecatedMessage");
    assert("deprecatedMessage"@.len() == 17);
    assert("deprecatedMessage"@[0] == 'd');
    assert("deprecatedMessage"@[1] == 'e');
    assert("deprecatedMessage"@[2] == 'p');
    reveal_strlit("min");
    assert("min"@.len() == 3);
    assert("min"@[0] == 'm');
    assert("min"@[1] == 'i');
    assert("min"@[2] == 'n');
    reveal_strlit("max");
    assert("max"@.len() == 3);
    assert("max"@[0] == 'm');
    assert("max"@[1] == 'a');
    assert("max"@[2] == 'x');
    reveal_strlit("enum");
    assert("enum"@.len() == 4);
    assert("enum"@[0] == 'e');
    assert("enum"@[1] == 'n');
    assert("enum"@[2] == 'u');
    reveal_strlit("pattern");
    assert("pattern"@.len() == 7);
    assert("pattern"@[0] == 'p');
    assert("pattern"@[1] == 'a');
    assert("pattern"@[2] == 't');
    reveal_strlit("timestampFormat");
    assert("timestampFormat"@.len() == 15);
    assert("timestampFormat"@[0] == 't');
    assert("timestampFormat"@[1] == 'i');
    assert("timestampFormat"@[2] == 'm');
    reveal_strlit("key");
    assert("key"@.len() == 3);
    assert("key"@[0] == 'k');
    assert("key"@[1] == 'e');
    assert("key"@[2] == 'y');
    reveal_strlit("value");
    assert("value"@.len() == 5);
    assert("value"@[0] == 'v');
    assert("value"@[1] == 'a');
    assert("value"@[2] == 'l');
    reveal_strlit("error");
    assert("error"@.len() == 5);
    assert("error"@[0] == 'e');
    assert("error"@[1] == 'r');
    assert("error"@[2] == 'r');
    reveal_strlit("exception");
    assert("exception"@.len() == 9);
    assert("exception"@[0] == 'e');
    assert("exception"@[1] == 'x');
    assert("exception"@[2] == 'c');
    reveal_strlit("fault");
    assert("fault"@.len() == 5);
    assert("fault"@[0] == 'f');
    assert("fault"@[1] == 'a');
    assert("fault"@[2] == 'u');
    reveal_strlit("required");
    assert("required"@.len() == 8);
    assert("required"@[0] == 'r');
    assert("required"@[1] == 'e');
    assert("required"@[2] == 'q');
    reveal_strlit("member");
    assert("member"@.len() == 6);
    assert("member"@[0] == 'm');
    assert("member"@[1] == 'e');
    assert("member"@[2] == 'm');
    reveal_strlit("members");
    assert("members"@.len() == 7);
    assert("members"@[0] == 'm');
    assert("members"@[1] == 'e');
    assert("members"@[2] == 'm');
    reveal_strlit("payload");
    assert("payload"@.len() == 7);
    assert("payload"@[0] == 'p');
    assert("payload"@[1] == 'a');
    assert("payload"@[2] == 'y');
    reveal_strlit("documentation");
    assert("documentation"@.len() == 13);
    assert("documentation"@[0] == 'd');
    assert("documentation"@[1] == 'o');
    assert("documentation"@[2] == 'c');
}


#[verifier::rlimit(50)]
proof fn lk_shape_flattened(x: Shape, pol: DocPolicy)
    ensures
        lookup(enc_shape(x, pol)->Obj_0, "flattened"@) == (bool_field(x.flattened)),
{
    broadcast use lemma_lookup_append;
    broadcast use lemma_lookup_entry;
    broadcast use lemma_first_unknown_append;
    broadcast use lemma_first_unknown_entry;

    reveal_strlit("type");
    assert("type"@.len() == 4);
    assert("type"@[0] == 't');
    assert("type"@[1] == 'y');
    assert("type"@[2] == 'p');
    reveal_strlit("box");
    assert("box"@.len() == 3);
    assert("box"@[0] == 'b');
    assert("box"@[1] == 'o');
    assert("box"@[2] == 'x');
    reveal_strlit("event");
    assert("event"@.len() == 5);
    assert("event"@[0] == 'e');
    assert("event"@[1] == 'v');
    assert("event"@[2] == 'e');
    reveal_strlit("eventstream");
    assert("eventstream"@.len() == 11);
    assert("eventstream"@[0] == 'e');
    assert("eventstream"@[1] == 'v');
    assert("eventstream"@[2] == 'e');
    reveal_strlit("flattened");
    assert("flattened"@.len() == 9);
    assert("flattened"@[0] == 'f');
    assert("flattened"@[1] == 'l');
    assert("flattened"@[2] == 'a');
    reveal_strlit("sensitive");
    assert("sensitive"@.len() == 9);
    assert("sensitive"@[0] == 's');
    assert("sensitive"@[1] == 'e');
    assert("sensitive"@[2] == 'n');
    reveal_strlit("wrapper");
    assert("wrapper"@.len() == 7);
    assert("wrapper"@[0] == 'w');
    assert("wrapper"@[1] == 'r');
    assert("wrapper"@[2] == 'a');
    reveal_strlit("locationName");
    assert("locationName"@.len() == 12);
    assert("locationName"@[0] == 'l');
    assert("locationName"@[1] == 'o');
    assert("locationName"@[2] == 'c');
    reveal_strlit("xmlNamespace");
    assert("xmlNamespace"@.len() == 12);
    assert("xmlNamespace"@[0] == 'x');
    assert("xmlNamespace"@[1] == 'm');
    assert("xmlNamespace"@[2] == 'l');
    reveal_strlit("deprecated");
    assert("deprecated"@.len() == 10);
    assert("deprecated"@[0] == 'd');
    assert("deprecated"@[1] == 'e');
    assert("deprecated"@[2] == 'p');
    reveal_strlit("deprecatedMessage");
    assert("deprecatedMessage"@.len() == 17);
    assert("deprecatedMessage"@[0] == 'd');
    assert("deprecatedMessage"@[1] == 'e');
    assert("deprecatedMessage"@[2] == 'p');
    reveal_strlit("min");
    assert("min"@.len() == 3);
    assert("min"@[0] == 'm');
    assert("min"@[1] == 'i');
    assert("min"@[2] == 'n');
    reveal_strlit("max");
    assert("max"@.len() == 3);
    assert("max"@[0] == 'm');
    assert("max"@[1] == 'a');
    assert("max"@[2] == 'x');
    reveal_strlit("enum");
    assert("enum"@.len() == 4);
    assert("enum"@[0] == 'e');
    assert("enum"@[1] == 'n');
    assert("enum"@[2] == 'u');
    reveal_strlit("pattern");
    assert("pattern"@.len() == 7);
    assert("pattern"@[0] == 'p');
    assert("pattern"@[1] == 'a');
    assert("pattern"@[2] == 't');
    reveal_strlit("timestampFormat");
    assert("timestampFormat"@.len() == 15);
    assert("timestampFormat"@[0] == 't');
    assert("timestampFormat"@[1] == 'i');
    assert("timestampFormat"@[2] == 'm');
    reveal_strlit("key");
    assert("key"@.len() == 3);
    assert("key"@[0] == 'k');
    assert("key"@[1] == 'e');
    assert("key"@[2] == 'y');
    reveal_strlit("value");
    assert("value"@.len() == 5);
    assert("value"@[0] == 'v');
    assert("value"@[1] == 'a');
    assert("value"@[2] == 'l');
    reveal_strlit("error");
    assert("error"@.len() == 5);
    assert("error"@[0] == 'e');
    assert("error"@[1] == 'r');
    assert("error"@[2] == 'r');
    reveal_strlit("exception");
    assert("exception"@.len() == 9);
    assert("exception"@[0] == 'e');
    assert("exception"@[1] == 'x');
    assert("exception"@[2] == 'c');
    reveal_strlit("fault");
    assert("fault"@.len() == 5);
    assert("fault"@[0] == 'f');
    assert("fault"@[1] == 'a');
    assert("fault"@[2] == 'u');
    reveal_strlit("required");
    assert("required"@.len() == 8);
    assert("required"@[0] == 'r');
    assert("required"@[1] == 'e');
    assert("required"@[2] == 'q');
    reveal_strlit("member");
    assert("member"@.len() == 6);
    assert("member"@[0] == 'm');
    assert("member"@[1] == 'e');
    assert("member"@[2] == 'm');
    reveal_strlit("members");
    assert("members"@.len() == 7);
    assert("members"@[0] == 'm');
    assert("members"@[1] == 'e');
    assert("members"@[2] == 'm');
    reveal_strlit("payload");
    assert("payload"@.len() == 7);
    assert("payload"@[0] == 'p');
    assert("payload"@[1] == 'a');
    assert("payload"@[2] == 'y');
    reveal_strlit("documentation");
    assert("documentation"@.len() == 13);
    assert("documentation"@[0] == 'd');
    assert("documentation"@[1] == 'o');
    assert("documentation"@[2] == 'c');
}


#[verifier::rlimit(50)]
proof fn lk_shape_sensitive(x: Shape, pol: DocPolicy)
    ensures
        lookup(enc_shape(x, pol)->Obj_0, "sensitive"@) == (bool_field(x.sensitive)),
{
    broadcast use lemma_lookup_append;
    broadcast use lemma_lookup_entry;
    broadcast use lemma_first_unknown_append;
    broadcast use lemma_first_unknown_entry;

    reveal_strlit("type");
    assert("type"@.len() == 4);
    assert("type"@[0] == 't');
    assert("type"@[1] == 'y');
    assert("type"@[2] == 'p');
    reveal_strlit("box");
    assert("box"@.len() == 3);
    assert("box"@[0] == 'b');
    assert("box"@[1] == 'o');
    assert("box"@[2] == 'x');
    reveal_strlit("event");
    assert("event"@.len() == 5);
    assert("event"@[0] == 'e');
    assert("event"@[1] == 'v');
    assert("event"@[2] == 'e');
    reveal_strlit("eventstream");
    assert("eventstream"@.len() == 11);
    assert("eventstream"@[0] == 'e');
    assert("eventstream"@[1] == 'v');
    assert("eventstream"@[2] == 'e');
    reveal_strlit("flattened");
    assert("flattened"@.len() == 9);
    assert("flattened"@[0] == 'f');
    assert("flattened"@[1] == 'l');
    assert("flattened"@[2] == 'a');
    reveal_strlit("sensitive");
    assert("sensitive"@.len() == 9);
    assert("sensitive"@[0] == 's');
    assert("sensitive"@[1] == 'e');
    assert("sensitive"@[2] == 'n');
    reveal_strlit("wrapper");
    assert("wrapper"@.len() == 7);
    assert("wrapper"@[0] == 'w');
    assert("wrapper"@[1] == 'r');
    assert("wrapper"@[2] == 'a');
    reveal_strlit("locationName");
    assert("locationName"@.len() == 12);
    assert("locationName"@[0] == 'l');
    assert("locationName"@[1] == 'o');
    assert("locationName"@[2] == 'c');
    reveal_strlit("xmlNamespace");
    assert("xmlNamespace"@.len() == 12);
    assert("xmlNamespace"@[0] == 'x');
    assert("xmlNamespace"@[1] == 'm');
    assert("xmlNamespace"@[2] == 'l');
    reveal_strlit("deprecated");
    assert("deprecated"@.len() == 10);
    assert("deprecated"@[0] == 'd');
    assert("deprecated"@[1] == 'e');
    assert("deprecated"@[2] == 'p');
    reveal_strlit("deprecatedMessage");
    assert("deprecatedMessage"@.len() == 17);
    assert("deprecatedMessage"@[0] == 'd');
    assert("deprecatedMessage"@[1] == 'e');
    assert("deprecatedMessage"@[2] == 'p');
    reveal_strlit("min");
    assert("min"@.len() == 3);
    assert("min"@[0] == 'm');
    assert("min"@[1] == 'i');
    assert("min"@[2] == 'n');
    reveal_strlit("max");
    assert("max"@.len() == 3);
    assert("max"@[0] == 'm');
    assert("max"@[1] == 'a');
    assert("max"@[2] == 'x');
    reveal_strlit("enum");
    assert("enum"@.len() == 4);
    assert("enum"@[0] == 'e');
    assert("enum"@[1] == 'n');
    assert("enum"@[2] == 'u');
    reveal_strlit("pattern");
    assert("pattern"@.len() == 7);
    assert("pattern"@[0] == 'p');
    assert("pattern"@[1] == 'a');
    assert("pattern"@[2] == 't');
    reveal_strlit("timestampFormat");
    assert("timestampFormat"@.len() == 15);
    assert("timestampFormat"@[0] == 't');
    assert("timestampFormat"@[1] == 'i');
    assert("timestampFormat"@[2] == 'm');
    reveal_strlit("key");
    assert("key"@.len() == 3);
    assert("key"@[0] == 'k');
    assert("key"@[1] == 'e');
    assert("key"@[2] == 'y');
    reveal_strlit("value");
    assert("value"@.len() == 5);
    assert("value"@[0] == 'v');
    assert("value"@[1] == 'a');
    assert("value"@[2] == 'l');
    reveal_strlit("error");
    assert("error"@.len() == 5);
    assert("error"@[0] == 'e');
    assert("error"@[1] == 'r');
    assert("error"@[2] == 'r');
    reveal_strlit("exception");
    assert("exception"@.len() == 9);
    assert("exception"@[0] == 'e');
    assert("exception"@[1] == 'x');
    assert("exception"@[2] == 'c');
    reveal_strlit("fault");
    assert("fault"@.len() == 5);
    assert("fault"@[0] == 'f');
    assert("fault"@[1] == 'a');
    assert("fault"@[2] == 'u');
    reveal_strlit("required");
    assert("required"@.len() == 8);
    assert("required"@[0] == 'r');
    assert("required"@[1] == 'e');
    assert("required"@[2] == 'q');
    reveal_strlit("member");
    assert("member"@.len() == 6);
    assert("member"@[0] == 'm');
    assert("member"@[1] == 'e');
    assert("member"@[2] == 'm');
    reveal_strlit("members");
    assert("members"@.len() == 7);
    assert("members"@[0] == 'm');
    assert("members"@[1] == 'e');
    assert("members"@[2] == 'm');
    reveal_strlit("payload");
    assert("payload"@.len() == 7);
    assert("payload"@[0] == 'p');
    assert("payload"@[1] == 'a');
    assert("payload"@[2] == 'y');
    reveal_strlit("documentation");
    assert("documentation"@.len() == 13);
    assert("documentation"@[0] == 'd');
    assert("documentation"@[1] == 'o');
    assert("documentation"@[2] == 'c');
}


#[verifier::rlimit(50)]
proof fn lk_shape_wrapper(x: Shape, pol: DocPolicy)
    ensures
        lookup(enc_shape(x, pol)->Obj_0, "wrapper"@) == (bool_field(x.wrapper)),
{
    broadcast use lemma_lookup_append;
    broadcast use lemma_lookup_entry;
    broadcast use lemma_first_unknown_append;
    broadcast use lemma_first_unknown_entry;

    reveal_strlit("type");
    assert("type"@.len() == 4);
    assert("type"@[0] == 't');
    assert("type"@[1] == 'y');
    assert("type"@[2] == 'p');
    reveal_strlit("box");
    assert("box"@.len() == 3);
    assert("box"@[0] == 'b');
    assert("box"@[1] == 'o');
    assert("box"@[2] == 'x');
    reveal_strlit("event");
    assert("event"@.len() == 5);
    assert("event"@[0] == 'e');
    assert("event"@[1] == 'v');
    assert("event"@[2] == 'e');
    reveal_strlit("eventstream");
    assert("eventstream"@.len() == 11);
    assert("eventstream"@[0] == 'e');
    assert("eventstream"@[1] == 'v');
    assert("eventstream"@[2] == 'e');
    reveal_strlit("flattened");
    assert("flattened"@.len() == 9);
    assert("flattened"@[0] == 'f');
    assert("flattened"@[1] == 'l');
    assert("flattened"@[2] == 'a');
    reveal_strlit("sensitive");
    assert("sensitive"@.len() == 9);
    assert("sensitive"@[0] == 's');
    assert("sensitive"@[1] == 'e');
    assert("sensitive"@[2] == 'n');
    reveal_strlit("wrapper");
    assert("wrapper"@.len() == 7);
    assert("wrapper"@[0] == 'w');
    assert("wrapper"@[1] == 'r');
    assert("wrapper"@[2] == 'a');
    reveal_strlit("locationName");
    assert("locationName"@.len() == 12);
    assert("locationName"@[0] == 'l');
    assert("locationName"@[1] == 'o');
    assert("locationName"@[2] == 'c');
    reveal_strlit("xmlNamespace");
    assert("xmlNamespace"@.len() == 12);
    assert("xmlNamespace"@[0] == 'x');
    assert("xmlNamespace"@[1] == 'm');
    assert("xmlNamespace"@[2] == 'l');
    reveal_strlit("deprecated");
    assert("deprecated"@.len() == 10);
    assert("deprecated"@[0] == 'd');
    assert("deprecated"@[1] == 'e');
    assert("deprecated"@[2] == 'p');
    reveal_strlit("deprecatedMessage");
    assert("deprecatedMessage"@.len() == 17);
    assert("deprecatedMessage"@[0] == 'd');
    assert("deprecatedMessage"@[1] == 'e');
    assert("deprecatedMessage"@[2] == 'p');
    reveal_strlit("min");
    assert("min"@.len() == 3);
    assert("min"@[0] == 'm');
    assert("min"@[1] == 'i');
    assert("min"@[2] == 'n');
    reveal_strlit("max");
    assert("max"@.len() == 3);
    assert("max"@[0] == 'm');
    assert("max"@[1] == 'a');
    assert("max"@[2] == 'x');
    reveal_strlit("enum");
    assert("enum"@.len() == 4);
    assert("enum"@[0] == 'e');
    assert("enum"@[1] == 'n');
    assert("enum"@[2] == 'u');
    reveal_strlit("pattern");
    assert("pattern"@.len() == 7);
    assert("pattern"@[0] == 'p');
    assert("pattern"@[1] == 'a');
    assert("pattern"@[2] == 't');
    reveal_strlit("timestampFormat");
    assert("timestampFormat"@.len() == 15);
    assert("timestampFormat"@[0] == 't');
    assert("timestampFormat"@[1] == 'i');
    assert("timestampFormat"@[2] == 'm');
    reveal_strlit("key");
    assert("key"@.len() == 3);
    assert("key"@[0] == 'k');
    assert("key"@[1] == 'e');
    assert("key"@[2] == 'y');
    reveal_strlit("value");
    assert("value"@.len() == 5);
    assert("value"@[0] == 'v');
    assert("value"@[1] == 'a');
    assert("value"@[2] == 'l');
    reveal_strlit("error");
    assert("error"@.len() == 5);
    assert("error"@[0] == 'e');
    assert("error"@[1] == 'r');
    assert("error"@[2] == 'r');
    reveal_strlit("exception");
    assert("exception"@.len() == 9);
    assert("exception"@[0] == 'e');
    assert("exception"@[1] == 'x');
    assert("exception"@[2] == 'c');
    reveal_strlit("fault");
    assert("fault"@.len() == 5);
    assert("fault"@[0] == 'f');
    assert("fault"@[1] == 'a');
    assert("fault"@[2] == 'u');
    reveal_strlit("required");
    assert("required"@.len() == 8);
    assert("required"@[0] == 'r');
    assert("required"@[1] == 'e');
    assert("required"@[2] == 'q');
    reveal_strlit("member");
    assert("member"@.len() == 6);
    assert("member"@[0] == 'm');
    assert("member"@[1] == 'e');
    assert("member"@[2] == 'm');
    reveal_strlit("members");
    assert("members"@.len() == 7);
    assert("members"@[0] == 'm');
    assert("members"@[1] == 'e');
    assert("members"@[2] == 'm');
    reveal_strlit("payload");
    assert("payload"@.len() == 7);
    assert("payload"@[0] == 'p');
    assert("payload"@[1] == 'a');
    assert("payload"@[2] == 'y');
    reveal_strlit("documentation");
    assert("documentation"@.len() == 13);
    assert("documentation"@[0] == 'd');
    assert("documentation"@[1] == 'o');
    assert("documentation"@[2] == 'c');
}


#[verifier::rlimit(50)]
proof fn lk_shape_locationname(x: Shape, pol: DocPolicy)
    ensures
        lookup(enc_shape(x, pol)->Obj_0, "locationName"@) == (str_field(x.location_name)),
{
    broadcast use lemma_lookup_append;
    broadcast use lemma_lookup_entry;
    broadcast use lemma_first_unknown_append;
    broadcast use lemma_first_unknown_entry;

    reveal_strlit("type");
    assert("type"@.len() == 4);
    assert("type"@[0] == 't');
    assert("type"@[1] == 'y');
    assert("type"@[2] == 'p');
    reveal_strlit("box");
    assert("box"@.len() == 3);
    assert("box"@[0] == 'b');
    assert("box"@[1] == 'o');
    assert("box"@[2] == 'x');
    reveal_strlit("event");
    assert("event"@.len() == 5);
    assert("event"@[0] == 'e');
    assert("event"@[1] == 'v');
    assert("event"@[2] == 'e');
    reveal_strlit("eventstream");
    assert("eventstream"@.len() == 11);
    assert("eventstream"@[0] == 'e');
    assert("eventstream"@[1] == 'v');
    assert("eventstream"@[2] == 'e');
    reveal_strlit("flattened");
    assert("flattened"@.len() == 9);
    assert("flattened"@[0] == 'f');
    assert("flattened"@[1] == 'l');
    assert("flattened"@[2] == 'a');
    reveal_strlit("sensitive");
    assert("sensitive"@.len() == 9);
    assert("sensitive"@[0] == 's');
    assert("sensitive"@[1] == 'e');
    assert("sensitive"@[2] == 'n');
    reveal_strlit("wrapper");
    assert("wrapper"@.len() == 7);
    assert("wrapper"@[0] == 'w');
    assert("wrapper"@[1] == 'r');
    assert("wrapper"@[2] == 'a');
    reveal_strlit("locationName");
    assert("locationName"@.len() == 12);
    assert("locationName"@[0] == 'l');
    assert("locationName"@[1] == 'o');
    assert("locationName"@[2] == 'c');
    reveal_strlit("xmlNamespace");
    assert("xmlNamespace"@.len() == 12);
    assert("xmlNamespace"@[0] == 'x');
    assert("xmlNamespace"@[1] == 'm');
    assert("xmlNamespace"@[2] == 'l');
    reveal_strlit("deprecated");
    assert("deprecated"@.len() == 10);
    assert("deprecated"@[0] == 'd');
    assert("deprecated"@[1] == 'e');
    assert("deprecated"@[2] == 'p');
    reveal_strlit("deprecatedMessage");
    assert("deprecatedMessage"@.len() == 17);
    assert("deprecatedMessage"@[0] == 'd');
    assert("deprecatedMessage"@[1] == 'e');
    assert("deprecatedMessage"@[2] == 'p');
    reveal_strlit("min");
    assert("min"@.len() == 3);
    assert("min"@[0] == 'm');
    assert("min"@[1] == 'i');
    assert("min"@[2] == 'n');
    reveal_strlit("max");
    assert("max"@.len() == 3);
    assert("max"@[0] == 'm');
    assert("max"@[1] == 'a');
    assert("max"@[2] == 'x');
    reveal_strlit("enum");
    assert("enum"@.len() == 4);
    assert("enum"@[0] == 'e');
    assert("enum"@[1] == 'n');
    assert("enum"@[2] == 'u');
    reveal_strlit("pattern");
    assert("pattern"@.len() == 7);
    assert("pattern"@[0] == 'p');
    assert("pattern"@[1] == 'a');
    assert("pattern"@[2] == 't');
    reveal_strlit("timestampFormat");
    assert("timestampFormat"@.len() == 15);
    assert("timestampFormat"@[0] == 't');
    assert("timestampFormat"@[1] == 'i');
    assert("timestampFormat"@[2] == 'm');
    reveal_strlit("key");
    assert("key"@.len() == 3);
    assert("key"@[0] == 'k');
    assert("key"@[1] == 'e');
    assert("key"@[2] == 'y');
    reveal_strlit("value");
    assert("value"@.len() == 5);
    assert("value"@[0] == 'v');
    assert("value"@[1] == 'a');
    assert("value"@[2] == 'l');
    reveal_strlit("error");
    assert("error"@.len() == 5);
    assert("error"@[0] == 'e');
    assert("error"@[1] == 'r');
    assert("error"@[2] == 'r');
    reveal_strlit("exception");
    assert("exception"@.len() == 9);
    assert("exception"@[0] == 'e');
    assert("exception"@[1] == 'x');
    assert("exception"@[2] == 'c');
    reveal_strlit("fault");
    assert("fault"@.len() == 5);
    assert("fault"@[0] == 'f');
    assert("fault"@[1] == 'a');
    assert("fault"@[2] == 'u');
    reveal_strlit("required");
    assert("required"@.len() == 8);
    assert("required"@[0] == 'r');
    assert("required"@[1] == 'e');
    assert("required"@[2] == 'q');
    reveal_strlit("member");
    assert("member"@.len() == 6);
    assert("member"@[0] == 'm');
    assert("member"@[1] == 'e');
    assert("member"@[2] == 'm');
    reveal_strlit("members");
    assert("members"@.len() == 7);
    assert("members"@[0] == 'm');
    assert("members"@[1] == 'e');
    assert("members"@[2] == 'm');
    reveal_strlit("payload");
    assert("payload"@.len() == 7);
    assert("payload"@[0] == 'p');
    assert("payload"@[1] == 'a');
    assert("payload"@[2] == 'y');
    reveal_strlit("documentation");
    assert("documentation"@.len() == 13);
    assert("documentation"@[0] == 'd');
    assert("documentation"@[1] == 'o');
    assert("documentation"@[2] == 'c');
}


#[verifier::rlimit(50)]
proof fn lk_shape_xmlnamespace(x: Shape, pol: DocPolicy)
    ensures
        lookup(enc_shape(x, pol)->Obj_0, "xmlNamespace"@) == (xmlns_field(x.xml_namespace)),
{
    broadcast use lemma_lookup_append;
    broadcast use lemma_lookup_entry;
    broadcast use lemma_first_unknown_append;
    broadcast use lemma_first_unknown_entry;

    reveal_strlit("type");
    assert("type"@.len() == 4);
    assert("type"@[0] == 't');
    assert("type"@[1] == 'y');
    assert("type"@[2] == 'p');
    reveal_strlit("box");
    assert("box"@.len() == 3);
    assert("box"@[0] == 'b');
    assert("box"@[1] == 'o');
    assert("box"@[2] == 'x');
    reveal_strlit("event");
    assert("event"@.len() == 5);
    assert("event"@[0] == 'e');
    assert("event"@[1] == 'v');
    assert("event"@[2] == 'e');
    reveal_strlit("eventstream");
    assert("eventstream"@.len() == 11);
    assert("eventstream"@[0] == 'e');
    assert("eventstream"@[1] == 'v');
    assert("eventstream"@[2] == 'e');
    reveal_strlit("flattened");
    assert("flattened"@.len() == 9);
    assert("flattened"@[0] == 'f');
    assert("flattened"@[1] == 'l');
    assert("flattened"@[2] == 'a');
    reveal_strlit("sensitive");
    assert("sensitive"@.len() == 9);
    assert("sensitive"@[0] == 's');
    assert("sensitive"@[1] == 'e');
    assert("sensitive"@[2] == 'n');
    reveal_strlit("wrapper");
    assert("wrapper"@.len() == 7);
    assert("wrapper"@[0] == 'w');
    assert("wrapper"@[1] == 'r');
    assert("wrapper"@[2] == 'a');
    reveal_strlit("locationName");
    assert("locationName"@.len() == 12);
    assert("locationName"@[0] == 'l');
    assert("locationName"@[1] == 'o');
    assert("locationName"@[2] == 'c');
    reveal_strlit("xmlNamespace");
    assert("xmlNamespace"@.len() == 12);
    assert("xmlNamespace"@[0] == 'x');
    assert("xmlNamespace"@[1] == 'm');
    assert("xmlNamespace"@[2] == 'l');
    reveal_strlit("deprecated");
    assert("deprecated"@.len() == 10);
    assert("deprecated"@[0] == 'd');
    assert("deprecated"@[1] == 'e');
    assert("deprecated"@[2] == 'p');
    reveal_strlit("deprecatedMessage");
    assert("deprecatedMessage"@.len() == 17);
    assert("deprecatedMessage"@[0] == 'd');
    assert("deprecatedMessage"@[1] == 'e');
    assert("deprecatedMessage"@[2] == 'p');
    reveal_strlit("min");
    assert("min"@.len() == 3);
    assert("min"@[0] == 'm');
    assert("min"@[1] == 'i');
    assert("min"@[2] == 'n');
    reveal_strlit("max");
    assert("max"@.len() == 3);
    assert("max"@[0] == 'm');
    assert("max"@[1] == 'a');
    assert("max"@[2] == 'x');
    reveal_strlit("enum");
    assert("enum"@.len() == 4);
    assert("enum"@[0] == 'e');
    assert("enum"@[1] == 'n');
    assert("enum"@[2] == 'u');
    reveal_strlit("pattern");
    assert("pattern"@.len() == 7);
    assert("pattern"@[0] == 'p');
    assert("pattern"@[1] == 'a');
    assert("pattern"@[2] == 't');
    reveal_strlit("timestampFormat");
    assert("timestampFormat"@.len() == 15);
    assert("timestampFormat"@[0] == 't');
    assert("timestampFormat"@[1] == 'i');
    assert("timestampFormat"@[2] == 'm');
    reveal_strlit("key");
    assert("key"@.len() == 3);
    assert("key"@[0] == 'k');
    assert("key"@[1] == 'e');
    assert("key"@[2] == 'y');
    reveal_strlit("value");
    assert("value"@.len() == 5);
    assert("value"@[0] == 'v');
    assert("value"@[1] == 'a');
    assert("value"@[2] == 'l');
    reveal_strlit("error");
    assert("error"@.len() == 5);
    assert("error"@[0] == 'e');
    assert("error"@[1] == 'r');
    assert("error"@[2] == 'r');
    reveal_strlit("exception");
    assert("exception"@.len() == 9);
    assert("exception"@[0] == 'e');
    assert("exception"@[1] == 'x');
    assert("exception"@[2] == 'c');
    reveal_strlit("fault");
    assert("fault"@.len() == 5);
    assert("fault"@[0] == 'f');
    assert("fault"@[1] == 'a');
    assert("fault"@[2] == 'u');
    reveal_strlit("required");
    assert("required"@.len() == 8);
    assert("required"@[0] == 'r');
    assert("required"@[1] == 'e');
    assert("required"@[2] == 'q');
    reveal_strlit("member");
    assert("member"@.len() == 6);
    assert("member"@[0] == 'm');
    assert("member"@[1] == 'e');
    assert("member"@[2] == 'm');
    reveal_strlit("members");
    assert("members"@.len() == 7);
    assert("members"@[0] == 'm');
    assert("members"@[1] == 'e');
    assert("members"@[2] == 'm');
    reveal_strlit("payload");
    assert("payload"@.len() == 7);
    assert("payload"@[0] == 'p');
    assert("payload"@[1] == 'a');
    assert("payload"@[2] == 'y');
    reveal_strlit("documentation");
    assert("documentation"@.len() == 13);
    assert("documentation"@[0] == 'd');
    assert("documentation"@[1] == 'o');
    assert("documentation"@[2] == 'c');
}


#[verifier::rlimit(50)]
proof fn lk_shape_deprecated(x: Shape, pol: DocPolicy)
    ensures
        lookup(enc_shape(x, pol)->Obj_0, "deprecated"@) == (bool_field(x.deprecated)),
{
    broadcast use lemma_lookup_append;
    broadcast use lemma_lookup_entry;
    broadcast use lemma_first_unknown_append;
    broadcast use lemma_first_unknown_entry;

    reveal_strlit("type");
    assert("type"@.len() == 4);
    assert("type"@[0] == 't');
    assert("type"@[1] == 'y');
    assert("type"@[2] == 'p');
    reveal_strlit("box");
    assert("box"@.len() == 3);
    assert("box"@[0] == 'b');
    assert("box"@[1] == 'o');
    assert("box"@[2] == 'x');
    reveal_strlit("event");
    assert("event"@.len() == 5);
    assert("event"@[0] == 'e');
    assert("event"@[1] == 'v');
    assert("event"@[2] == 'e');
    reveal_strlit("eventstream");
    assert("eventstream"@.len() == 11);
    assert("eventstream"@[0] == 'e');
    assert("eventstream"@[1] == 'v');
    assert("eventstream"@[2] == 'e');
    reveal_strlit("flattened");
    assert("flattened"@.len() == 9);
    assert("flattened"@[0] == 'f');
    assert("flattened"@[1] == 'l');
    assert("flattened"@[2] == 'a');
    reveal_strlit("sensitive");
    assert("sensitive"@.len() == 9);
    assert("sensitive"@[0] == 's');
    assert("sensitive"@[1] == 'e');
    assert("sensitive"@[2] == 'n');
    reveal_strlit("wrapper");
    assert("wrapper"@.len() == 7);
    assert("wrapper"@[0] == 'w');
    assert("wrapper"@[1] == 'r');
    assert("wrapper"@[2] == 'a');
    reveal_strlit("locationName");
    assert("locationName"@.len() == 12);
    assert("locationName"@[0] == 'l');
    assert("locationName"@[1] == 'o');
    assert("locationName"@[2] == 'c');
    reveal_strlit("xmlNamespace");
    assert("xmlNamespace"@.len() == 12);
    assert("xmlNamespace"@[0] == 'x');
    assert("xmlNamespace"@[1] == 'm');
    assert("xmlNamespace"@[2] == 'l');
    reveal_strlit("deprecated");
    assert("deprecated"@.len() == 10);
    assert("deprecated"@[0] == 'd');
    assert("deprecated"@[1] == 'e');
    assert("deprecated"@[2] == 'p');
    reveal_strlit("deprecatedMessage");
    assert("deprecatedMessage"@.len() == 17);
    assert("deprecatedMessage"@[0] == 'd');
    assert("deprecatedMessage"@[1] == 'e');
    assert("deprecatedMessage"@[2] == 'p');
    reveal_strlit("min");
    assert("min"@.len() == 3);
    assert("min"@[0] == 'm');
    assert("min"@[1] == 'i');
    assert("min"@[2] == 'n');
    reveal_strlit("max");
    assert("max"@.len() == 3);
    assert("max"@[0] == 'm');
    assert("max"@[1] == 'a');
    assert("max"@[2] == 'x');
    reveal_strlit("enum");
    assert("enum"@.len() == 4);
    assert("enum"@[0] == 'e');
    assert("enum"@[1] == 'n');
    assert("enum"@[2] == 'u');
    reveal_strlit("pattern");
    assert("pattern"@.len() == 7);
    assert("pattern"@[0] == 'p');
    assert("pattern"@[1] == 'a');
    assert("pattern"@[2] == 't');
    reveal_strlit("timestampFormat");
    assert("timestampFormat"@.len() == 15);
    assert("timestampFormat"@[0] == 't');
    assert("timestampFormat"@[1] == 'i');
    assert("timestampFormat"@[2] == 'm');
    reveal_strlit("key");
    assert("key"@.len() == 3);
    assert("key"@[0] == 'k');
    assert("key"@[1] == 'e');
    assert("key"@[2] == 'y');
    reveal_strlit("value");
    assert("value"@.len() == 5);
    assert("value"@[0] == 'v');
    assert("value"@[1] == 'a');
    assert("value"@[2] == 'l');
    reveal_strlit("error");
    assert("error"@.len() == 5);
    assert("error"@[0] == 'e');
    assert("error"@[1] == 'r');
    assert("error"@[2] == 'r');
    reveal_strlit("exception");
    assert("exception"@.len() == 9);
    assert("exception"@[0] == 'e');
    assert("exception"@[1] == 'x');
    assert("exception"@[2] == 'c');
    reveal_strlit("fault");
    assert("fault"@.len() == 5);
    assert("fault"@[0] == 'f');
    assert("fault"@[1] == 'a');
    assert("fault"@[2] == 'u');
    reveal_strlit("required");
    assert("required"@.len() == 8);
    assert("required"@[0] == 'r');
    assert("required"@[1] == 'e');
    assert("required"@[2] == 'q');
    reveal_strlit("member");
    assert("member"@.len() == 6);
    assert("member"@[0] == 'm');
    assert("member"@[1] == 'e');
    assert("member"@[2] == 'm');
    reveal_strlit("members");
    assert("members"@.len() == 7);
    assert("members"@[0] == 'm');
    assert("members"@[1] == 'e');
    assert("members"@[2] == 'm');
    reveal_strlit("payload");
    assert("payload"@.len() == 7);
    assert("payload"@[0] == 'p');
    assert("payload"@[1] == 'a');
    assert("payload"@[2] == 'y');
    reveal_strlit("documentation");
    assert("documentation"@.len() == 13);
    assert("documentation"@[0] == 'd');
    assert("documentation"@[1] == 'o');
    assert("documentation"@[2] == 'c');
}


#[verifier::rlimit(50)]
proof fn lk_shape_deprecatedmessage(x: Shape, pol: DocPolicy)
    ensures
        lookup(enc_shape(x, pol)->Obj_0, "deprecatedMessage"@) == (str_field(x.deprecated_message)),
{
    broadcast use lemma_lookup_append;
    broadcast use lemma_lookup_entry;
    broadcast use lemma_first_unknown_append;
    broadcast use lemma_first_unknown_entry;

    reveal_strlit("type");
    assert("type"@.len() == 4);
    assert("type"@[0] == 't');
    assert("type"@[1] == 'y');
    assert("type"@[2] == 'p');
    reveal_strlit("box");
    assert("box"@.len() == 3);
    assert("box"@[0] == 'b');
    assert("box"@[1] == 'o');
    assert("box"@[2] == 'x');
    reveal_strlit("event");
    assert("event"@.len() == 5);
    assert("event"@[0] == 'e');
    assert("event"@[1] == 'v');
    assert("event"@[2] == 'e');
    reveal_strlit("eventstream");
    assert("eventstream"@.len() == 11);
    assert("eventstream"@[0] == 'e');
    assert("eventstream"@[1] == 'v');
    assert("eventstream"@[2] == 'e');
    reveal_strlit("flattened");
    assert("flattened"@.len() == 9);
    assert("flattened"@[0] == 'f');
    assert("flattened"@[1] == 'l');
    assert("flattened"@[2] == 'a');
    reveal_strlit("sensitive");
    assert("sensitive"@.len() == 9);
    assert("sensitive"@[0] == 's');
    assert("sensitive"@[1] == 'e');
    assert("sensitive"@[2] == 'n');
    reveal_strlit("wrapper");
    assert("wrapper"@.len() == 7);
    assert("wrapper"@[0] == 'w');
    assert("wrapper"@[1] == 'r');
    assert("wrapper"@[2] == 'a');
    reveal_strlit("locationName");
    assert("locationName"@.len() == 12);
    assert("locationName"@[0] == 'l');
    assert("locationName"@[1] == 'o');
    assert("locationName"@[2] == 'c');
    reveal_strlit("xmlNamespace");
    assert("xmlNamespace"@.len() == 12);
    assert("xmlNamespace"@[0] == 'x');
    assert("xmlNamespace"@[1] == 'm');
    assert("xmlNamespace"@[2] == 'l');
    reveal_strlit("deprecated");
    assert("deprecated"@.len() == 10);
    assert("deprecated"@[0] == 'd');
    assert("deprecated"@[1] == 'e');
    assert("deprecated"@[2] == 'p');
    reveal_strlit("deprecatedMessage");
    assert("deprecatedMessage"@.len() == 17);
    assert("deprecatedMessage"@[0] == 'd');
    assert("deprecatedMessage"@[1] == 'e');
    assert("deprecatedMessage"@[2] == 'p');
    reveal_strlit("min");
    assert("min"@.len() == 3);
    assert("min"@[0] == 'm');
    assert("min"@[1] == 'i');
    assert("min"@[2] == 'n');
    reveal_strlit("max");
    assert("max"@.len() == 3);
    assert("max"@[0] == 'm');
    assert("max"@[1] == 'a');
    assert("max"@[2] == 'x');
    reveal_strlit("enum");
    assert("enum"@.len() == 4);
    assert("enum"@[0] == 'e');
    assert("enum"@[1] == 'n');
    assert("enum"@[2] == 'u');
    reveal_strlit("pattern");
    assert("pattern"@.len() == 7);
    assert("pattern"@[0] == 'p');
    assert("pattern"@[1] == 'a');
    assert("pattern"@[2] == 't');
    reveal_strlit("timestampFormat");
    assert("timestampFormat"@.len() == 15);
    assert("timestampFormat"@[0] == 't');
    assert("timestampFormat"@[1] == 'i');
    assert("timestampFormat"@[2] == 'm');
    reveal_strlit("key");
    assert("key"@.len() == 3);
    assert("key"@[0] == 'k');
    assert("key"@[1] == 'e');
    assert("key"@[2] == 'y');
    reveal_strlit("value");
    assert("value"@.len() == 5);
    assert("value"@[0] == 'v');
    assert("value"@[1] == 'a');
    assert("value"@[2] == 'l');
    reveal_strlit("error");
    assert("error"@.len() == 5);
    assert("error"@[0] == 'e');
    assert("error"@[1] == 'r');
    assert("error"@[2] == 'r');
    reveal_strlit("exception");
    assert("exception"@.len() == 9);
    assert("exception"@[0] == 'e');
    assert("exception"@[1] == 'x');
    assert("exception"@[2] == 'c');
    reveal_strlit("fault");
    assert("fault"@.len() == 5);
    assert("fault"@[0] == 'f');
    assert("fault"@[1] == 'a');
    assert("fault"@[2] == 'u');
    reveal_strlit("required");
    assert("required"@.len() == 8);
    assert("required"@[0] == 'r');
    assert("required"@[1] == 'e');
    assert("required"@[2] == 'q');
    reveal_strlit("member");
    assert("member"@.len() == 6);
    assert("member"@[0] == 'm');
    assert("member"@[1] == 'e');
    assert("member"@[2] == 'm');
    reveal_strlit("members");
    assert("members"@.len() == 7);
    assert("members"@[0] == 'm');
    assert("members"@[1] == 'e');
    assert("members"@[2] == 'm');
    reveal_strlit("payload");
    assert("payload"@.len() == 7);
    assert("payload"@[0] == 'p');
    assert("payload"@[1] == 'a');
    assert("payload"@[2] == 'y');
    reveal_strlit("documentation");
    assert("documentation"@.len() == 13);
    assert("documentation"@[0] == 'd');
    assert("documentation"@[1] == 'o');
    assert("documentation"@[2] == 'c');
}


#[verifier::rlimit(50)]
proof fn lk_shape_min(x: Shape, pol: DocPolicy)
    ensures
        lookup(enc_shape(x, pol)->Obj_0, "min"@) == (int_field(x.min)),
{
    broadcast use lemma_lookup_append;
    broadcast use lemma_lookup_entry;
    broadcast use lemma_first_unknown_append;
    broadcast use lemma_first_unknown_entry;

    reveal_strlit("type");
    assert("type"@.len() == 4);
    assert("type"@[0] == 't');
    assert("type"@[1] == 'y');
    assert("type"@[2] == 'p');
    reveal_strlit("box");
    assert("box"@.len() == 3);
    assert("box"@[0] == 'b');
    assert("box"@[1] == 'o');
    assert("box"@[2] == 'x');
    reveal_strlit("event");
    assert("event"@.len() == 5);
    assert("event"@[0] == 'e');
    assert("event"@[1] == 'v');
    assert("event"@[2] == 'e');
    reveal_strlit("eventstream");
    assert("eventstream"@.len() == 11);
    assert("eventstream"@[0] == 'e');
    assert("eventstream"@[1] == 'v');
    assert("eventstream"@[2] == 'e');
    reveal_strlit("flattened");
    assert("flattened"@.len() == 9);
    assert("flattened"@[0] == 'f');
    assert("flattened"@[1] == 'l');
    assert("flattened"@[2] == 'a');
    reveal_strlit("sensitive");
    assert("sensitive"@.len() == 9);
    assert("sensitive"@[0] == 's');
    assert("sensitive"@[1] == 'e');
    assert("sensitive"@[2] == 'n');
    reveal_strlit("wrapper");
    assert("wrapper"@.len() == 7);
    assert("wrapper"@[0] == 'w');
    assert("wrapper"@[1] == 'r');
    assert("wrapper"@[2] == 'a');
    reveal_strlit("locationName");
    assert("locationName"@.len() == 12);
    assert("locationName"@[0] == 'l');
    assert("locationName"@[1] == 'o');
    assert("locationName"@[2] == 'c');
    reveal_strlit("xmlNamespace");
    assert("xmlNamespace"@.len() == 12);
    assert("xmlNamespace"@[0] == 'x');
    assert("xmlNamespace"@[1] == 'm');
    assert("xmlNamespace"@[2] == 'l');
    reveal_strlit("deprecated");
    assert("deprecated"@.len() == 10);
    assert("deprecated"@[0] == 'd');
    assert("deprecated"@[1] == 'e');
    assert("deprecated"@[2] == 'p');
    reveal_strlit("deprecatedMessage");
    assert("deprecatedMessage"@.len() == 17);
    assert("deprecatedMessage"@[0] == 'd');
    assert("deprecatedMessage"@[1] == 'e');
    assert("deprecatedMessage"@[2] == 'p');
    reveal_strlit("min");
    assert("min"@.len() == 3);
    assert("min"@[0] == 'm');
    assert("min"@[1] == 'i');
    assert("min"@[2] == 'n');
    reveal_strlit("max");
    assert("max"@.len() == 3);
    assert("max"@[0] == 'm');
    assert("max"@[1] == 'a');
    assert("max"@[2] == 'x');
    reveal_strlit("enum");
    assert("enum"@.len() == 4);
    assert("enum"@[0] == 'e');
    assert("enum"@[1] == 'n');
    assert("enum"@[2] == 'u');
    reveal_strlit("pattern");
    assert("pattern"@.len() == 7);
    assert("pattern"@[0] == 'p');
    assert("pattern"@[1] == 'a');
    assert("pattern"@[2] == 't');
    reveal_strlit("timestampFormat");
    assert("timestampFormat"@.len() == 15);
    assert("timestampFormat"@[0] == 't');
    assert("timestampFormat"@[1] == 'i');
    assert("timestampFormat"@[2] == 'm');
    reveal_strlit("key");
    assert("key"@.len() == 3);
    assert("key"@[0] == 'k');
    assert("key"@[1] == 'e');
    assert("key"@[2] == 'y');
    reveal_strlit("value");
    assert("value"@.len() == 5);
    assert("value"@[0] == 'v');
    assert("value"@[1] == 'a');
    assert("value"@[2] == 'l');
    reveal_strlit("error");
    assert("error"@.len() == 5);
    assert("error"@[0] == 'e');
    assert("error"@[1] == 'r');
    assert("error"@[2] == 'r');
    reveal_strlit("exception");
    assert("exception"@.len() == 9);
    assert("exception"@[0] == 'e');
    assert("exception"@[1] == 'x');
    assert("exception"@[2] == 'c');
    reveal_strlit("fault");
    assert("fault"@.len() == 5);
    assert("fault"@[0] == 'f');
    assert("fault"@[1] == 'a');
    assert("fault"@[2] == 'u');
    reveal_strlit("required");
    assert("required"@.len() == 8);
    assert("required"@[0] == 'r');
    assert("required"@[1] == 'e');
    assert("required"@[2] == 'q');
    reveal_strlit("member");
    assert("member"@.len() == 6);
    assert("member"@[0] == 'm');
    assert("member"@[1] == 'e');
    assert("member"@[2] == 'm');
    reveal_strlit("members");
    assert("members"@.len() == 7);
    assert("members"@[0] == 'm');
    assert("members"@[1] == 'e');
    assert("members"@[2] == 'm');
    reveal_strlit("payload");
    assert("payload"@.len() == 7);
    assert("payload"@[0] == 'p');
    assert("payload"@[1] == 'a');
    assert("payload"@[2] == 'y');
    reveal_strlit("documentation");
    assert("documentation"@.len() == 13);
    assert("documentation"@[0] == 'd');
    assert("documentation"@[1] == 'o');
    assert("documentation"@[2] == 'c');
}


#[verifier::rlimit(50)]
proof fn lk_shape_max(x: Shape, pol: DocPolicy)
    ensures
        lookup(enc_shape(x, pol)->Obj_0, "max"@) == (int_field(x.max)),
{
    broadcast use lemma_lookup_append;
    broadcast use lemma_lookup_entry;
    broadcast use lemma_first_unknown_append;
    broadcast use lemma_first_unknown_entry;

    reveal_strlit("type");
    assert("type"@.len() == 4);
    assert("type"@[0] == 't');
    assert("type"@[1] == 'y');
    assert("type"@[2] == 'p');
    reveal_strlit("box");
    assert("box"@.len() == 3);
    assert("box"@[0] == 'b');
    assert("box"@[1] == 'o');
    assert("box"@[2] == 'x');
    reveal_strlit("event");
    assert("event"@.len() == 5);
    assert("event"@[0] == 'e');
    assert("event"@[1] == 'v');
    assert("event"@[2] == 'e');
    reveal_strlit("eventstream");
    assert("eventstream"@.len() == 11);
    assert("eventstream"@[0] == 'e');
    assert("eventstream"@[1] == 'v');
    assert("eventstream"@[2] == 'e');
    reveal_strlit("flattened");
    assert("flattened"@.len() == 9);
    assert("flattened"@[0] == 'f');
    assert("flattened"@[1] == 'l');
    assert("flattened"@[2] == 'a');
    reveal_strlit("sensitive");
    assert("sensitive"@.len() == 9);
    assert("sensitive"@[0] == 's');
    assert("sensitive"@[1] == 'e');
    assert("sensitive"@[2] == 'n');
    reveal_strlit("wrapper");
    assert("wrapper"@.len() == 7);
    assert("wrapper"@[0] == 'w');
    assert("wrapper"@[1] == 'r');
    assert("wrapper"@[2] == 'a');
    reveal_strlit("locationName");
    assert("locationName"@.len() == 12);
    assert("locationName"@[0] == 'l');
    assert("locationName"@[1] == 'o');
    assert("locationName"@[2] == 'c');
    reveal_strlit("xmlNamespace");
    assert("xmlNamespace"@.len() == 12);
    assert("xmlNamespace"@[0] == 'x');
    assert("xmlNamespace"@[1] == 'm');
    assert("xmlNamespace"@[2] == 'l');
    reveal_strlit("deprecated");
    assert("deprecated"@.len() == 10);
    assert("deprecated"@[0] == 'd');
    assert("deprecated"@[1] == 'e');
    assert("deprecated"@[2] == 'p');
    reveal_strlit("deprecatedMessage");
    assert("deprecatedMessage"@.len() == 17);
    assert("deprecatedMessage"@[0] == 'd');
    assert("deprecatedMessage"@[1] == 'e');
    assert("deprecatedMessage"@[2] == 'p');
    reveal_strlit("min");
    assert("min"@.len() == 3);
    assert("min"@[0] == 'm');
    assert("min"@[1] == 'i');
    assert("min"@[2] == 'n');
    reveal_strlit("max");
    assert("max"@.len() == 3);
    assert("max"@[0] == 'm');
    assert("max"@[1] == 'a');
    assert("max"@[2] == 'x');
    reveal_strlit("enum");
    assert("enum"@.len() == 4);
    assert("enum"@[0] == 'e');
    assert("enum"@[1] == 'n');
    assert("enum"@[2] == 'u');
    reveal_strlit("pattern");
    assert("pattern"@.len() == 7);
    assert("pattern"@[0] == 'p');
    assert("pattern"@[1] == 'a');
    assert("pattern"@[2] == 't');
    reveal_strlit("timestampFormat");
    assert("timestampFormat"@.len() == 15);
    assert("timestampFormat"@[0] == 't');
    assert("timestampFormat"@[1] == 'i');
    assert("timestampFormat"@[2] == 'm');
    reveal_strlit("key");
    assert("key"@.len() == 3);
    assert("key"@[0] == 'k');
    assert("key"@[1] == 'e');
    assert("key"@[2] == 'y');
    reveal_strlit("value");
    assert("value"@.len() == 5);
    assert("value"@[0] == 'v');
    assert("value"@[1] == 'a');
    assert("value"@[2] == 'l');
    reveal_strlit("error");
    assert("error"@.len() == 5);
    assert("error"@[0] == 'e');
    assert("error"@[1] == 'r');
    assert("error"@[2] == 'r');
    reveal_strlit("exception");
    assert("exception"@.len() == 9);
    assert("exception"@[0] == 'e');
    assert("exception"@[1] == 'x');
    assert("exception"@[2] == 'c');
    reveal_strlit("fault");
    assert("fault"@.len() == 5);
    assert("fault"@[0] == 'f');
    assert("fault"@[1] == 'a');
    assert("fault"@[2] == 'u');
    reveal_strlit("required");
    assert("required"@.len() == 8);
    assert("required"@[0] == 'r');
    assert("required"@[1] == 'e');
    assert("required"@[2] == 'q');
    reveal_strlit("member");
    assert("member"@.len() == 6);
    assert("member"@[0] == 'm');
    assert("member"@[1] == 'e');
    assert("member"@[2] == 'm');
    reveal_strlit("members");
    assert("members"@.len() == 7);
    assert("members"@[0] == 'm');
    assert("members"@[1] == 'e');
    assert("members"@[2] == 'm');
    reveal_strlit("payload");
    assert("payload"@.len() == 7);
    assert("payload"@[0] == 'p');
    assert("payload"@[1] == 'a');
    assert("payload"@[2] == 'y');
    reveal_strlit("documentation");
    assert("documentation"@.len() == 13);
    assert("documentation"@[0] == 'd');
    assert("documentation"@[1] == 'o');
    assert("documentation"@[2] == 'c');
}


#[verifier::rlimit(50)]
proof fn lk_shape_enum(x: Shape, pol: DocPolicy)
    ensures
        lookup(enc_shape(x, pol)->Obj_0, "enum"@) == (strs_field(x.enum_)),
{
    broadcast use lemma_lookup_append;
    broadcast use lemma_lookup_entry;
    broadcast use lemma_first_unknown_append;
    broadcast use lemma_first_unknown_entry;

    reveal_strlit("type");
    assert("type"@.len() == 4);
    assert("type"@[0] == 't');
    assert("type"@[1] == 'y');
    assert("type"@[2] == 'p');
    reveal_strlit("box");
    assert("box"@.len() == 3);
    assert("box"@[0] == 'b');
    assert("box"@[1] == 'o');
    assert("box"@[2] == 'x');
    reveal_strlit("event");
    assert("event"@.len() == 5);
    assert("event"@[0] == 'e');
    assert("event"@[1] == 'v');
    assert("event"@[2] == 'e');
    reveal_strlit("eventstream");
    assert("eventstream"@.len() == 11);
    assert("eventstream"@[0] == 'e');
    assert("eventstream"@[1] == 'v');
    assert("eventstream"@[2] == 'e');
    reveal_strlit("flattened");
    assert("flattened"@.len() == 9);
    assert("flattened"@[0] == 'f');
    assert("flattened"@[1] == 'l');
    assert("flattened"@[2] == 'a');
    reveal_strlit("sensitive");
    assert("sensitive"@.len() == 9);
    assert("sensitive"@[0] == 's');
    assert("sensitive"@[1] == 'e');
    assert("sensitive"@[2] == 'n');
    reveal_strlit("wrapper");
    assert("wrapper"@.len() == 7);
    assert("wrapper"@[0] == 'w');
    assert("wrapper"@[1] == 'r');
    assert("wrapper"@[2] == 'a');
    reveal_strlit("locationName");
    assert("locationName"@.len() == 12);
    assert("locationName"@[0] == 'l');
    assert("locationName"@[1] == 'o');
    assert("locationName"@[2] == 'c');
    reveal_strlit("xmlNamespace");
    assert("xmlNamespace"@.len() == 12);
    assert("xmlNamespace"@[0] == 'x');
    assert("xmlNamespace"@[1] == 'm');
    assert("xmlNamespace"@[2] == 'l');
    reveal_strlit("deprecated");
    assert("deprecated"@.len() == 10);
    assert("deprecated"@[0] == 'd');
    assert("deprecated"@[1] == 'e');
    assert("deprecated"@[2] == 'p');
    reveal_strlit("deprecatedMessage");
    assert("deprecatedMessage"@.len() == 17);
    assert("deprecatedMessage"@[0] == 'd');
    assert("deprecatedMessage"@[1] == 'e');
    assert("deprecatedMessage"@[2] == 'p');
    reveal_strlit("min");
    assert("min"@.len() == 3);
    assert("min"@[0] == 'm');
    assert("min"@[1] == 'i');
    assert("min"@[2] == 'n');
    reveal_strlit("max");
    assert("max"@.len() == 3);
    assert("max"@[0] == 'm');
    assert("max"@[1] == 'a');
    assert("max"@[2] == 'x');
    reveal_strlit("enum");
    assert("enum"@.len() == 4);
    assert("enum"@[0] == 'e');
    assert("enum"@[1] == 'n');
    assert("enum"@[2] == 'u');
    reveal_strlit("pattern");
    assert("pattern"@.len() == 7);
    assert("pattern"@[0] == 'p');
    assert("pattern"@[1] == 'a');
    assert("pattern"@[2] == 't');
    reveal_strlit("timestampFormat");
    assert("timestampFormat"@.len() == 15);
    assert("timestampFormat"@[0] == 't');
    assert("timestampFormat"@[1] == 'i');
    assert("timestampFormat"@[2] == 'm');
    reveal_strlit("key");
    assert("key"@.len() == 3);
    assert("key"@[0] == 'k');
    assert("key"@[1] == 'e');
    assert("key"@[2] == 'y');
    reveal_strlit("value");
    assert("value"@.len() == 5);
    assert("value"@[0] == 'v');
    assert("value"@[1] == 'a');
    assert("value"@[2] == 'l');
    reveal_strlit("error");
    assert("error"@.len() == 5);
    assert("error"@[0] == 'e');
    assert("error"@[1] == 'r');
    assert("error"@[2] == 'r');
    reveal_strlit("exception");
    assert("exception"@.len() == 9);
    assert("exception"@[0] == 'e');
    assert("exception"@[1] == 'x');
    assert("exception"@[2] == 'c');
    reveal_strlit("fault");
    assert("fault"@.len() == 5);
    assert("fault"@[0] == 'f');
    assert("fault"@[1] == 'a');
    assert("fault"@[2] == 'u');
    reveal_strlit("required");
    assert("required"@.len() == 8);
    assert("required"@[0] == 'r');
    assert("required"@[1] == 'e');
    assert("required"@[2] == 'q');
    reveal_strlit("member");
    assert("member"@.len() == 6);
    assert("member"@[0] == 'm');
    assert("member"@[1] == 'e');
    assert("member"@[2] == 'm');
    reveal_strlit("members");
    assert("members"@.len() == 7);
    assert("members"@[0] == 'm');
    assert("members"@[1] == 'e');
    assert("members"@[2] == 'm');
    reveal_strlit("payload");
    assert("payload"@.len() == 7);
    assert("payload"@[0] == 'p');
    assert("payload"@[1] == 'a');
    assert("payload"@[2] == 'y');
    reveal_strlit("documentation");
    assert("documentation"@.len() == 13);
    assert("documentation"@[0] == 'd');
    assert("documentation"@[1] == 'o');
    assert("documentation"@[2] == 'c');
}


#[verifier::rlimit(50)]
proof fn lk_shape_pattern(x: Shape, pol: DocPolicy)
    ensures
        lookup(enc_shape(x, pol)->Obj_0, "pattern"@) == (str_field(x.pattern)),
{
    broadcast use lemma_lookup_append;
    broadcast use lemma_lookup_entry;
    broadcast use lemma_first_unknown_append;
    broadcast use lemma_first_unknown_entry;

    reveal_strlit("type");
    assert("type"@.len() == 4);
    assert("type"@[0] == 't');
    assert("type"@[1] == 'y');
    assert("type"@[2] == 'p');
    reveal_strlit("box");
    assert("box"@.len() == 3);
    assert("box"@[0] == 'b');
    assert("box"@[1] == 'o');
    assert("box"@[2] == 'x');
    reveal_strlit("event");
    assert("event"@.len() == 5);
    assert("event"@[0] == 'e');
    assert("event"@[1] == 'v');
    assert("event"@[2] == 'e');
    reveal_strlit("eventstream");
    assert("eventstream"@.len() == 11);
    assert("eventstream"@[0] == 'e');
    assert("eventstream"@[1] == 'v');
    assert("eventstream"@[2] == 'e');
    reveal_strlit("flattened");
    assert("flattened"@.len() == 9);
    assert("flattened"@[0] == 'f');
    assert("flattened"@[1] == 'l');
    assert("flattened"@[2] == 'a');
    reveal_strlit("sensitive");
    assert("sensitive"@.len() == 9);
    assert("sensitive"@[0] == 's');
    assert("sensitive"@[1] == 'e');
    assert("sensitive"@[2] == 'n');
    reveal_strlit("wrapper");
    assert("wrapper"@.len() == 7);
    assert("wrapper"@[0] == 'w');
    assert("wrapper"@[1] == 'r');
    assert("wrapper"@[2] == 'a');
    reveal_strlit("locationName");
    assert("locationName"@.len() == 12);
    assert("locationName"@[0] == 'l');
    assert("locationName"@[1] == 'o');
    assert("locationName"@[2] == 'c');
    reveal_strlit("xmlNamespace");
    assert("xmlNamespace"@.len() == 12);
    assert("xmlNamespace"@[0] == 'x');
    assert("xmlNamespace"@[1] == 'm');
    assert("xmlNamespace"@[2] == 'l');
    reveal_strlit("deprecated");
    assert("deprecated"@.len() == 10);
    assert("deprecated"@[0] == 'd');
    assert("deprecated"@[1] == 'e');
    assert("deprecated"@[2] == 'p');
    reveal_strlit("deprecatedMessage");
    assert("deprecatedMessage"@.len() == 17);
    assert("deprecatedMessage"@[0] == 'd');
    assert("deprecatedMessage"@[1] == 'e');
    assert("deprecatedMessage"@[2] == 'p');
    reveal_strlit("min");
    assert("min"@.len() == 3);
    assert("min"@[0] == 'm');
    assert("min"@[1] == 'i');
    assert("min"@[2] == 'n');
    reveal_strlit("max");
    assert("max"@.len() == 3);
    assert("max"@[0] == 'm');
    assert("max"@[1] == 'a');
    assert("max"@[2] == 'x');
    reveal_strlit("enum");
    assert("enum"@.len() == 4);
    assert("enum"@[0] == 'e');
    assert("enum"@[1] == 'n');
    assert("enum"@[2] == 'u');
    reveal_strlit("pattern");
    assert("pattern"@.len() == 7);
    assert("pattern"@[0] == 'p');
    assert("pattern"@[1] == 'a');
    assert("pattern"@[2] == 't');
    reveal_strlit("timestampFormat");
    assert("timestampFormat"@.len() == 15);
    assert("timestampFormat"@[0] == 't');
    assert("timestampFormat"@[1] == 'i');
    assert("timestampFormat"@[2] == 'm');
    reveal_strlit("key");
    assert("key"@.len() == 3);
    assert("key"@[0] == 'k');
    assert("key"@[1] == 'e');
    assert("key"@[2] == 'y');
    reveal_strlit("value");
    assert("value"@.len() == 5);
    assert("value"@[0] == 'v');
    assert("value"@[1] == 'a');
    assert("value"@[2] == 'l');
    reveal_strlit("error");
    assert("error"@.len() == 5);
    assert("error"@[0] == 'e');
    assert("error"@[1] == 'r');
    assert("error"@[2] == 'r');
    reveal_strlit("exception");
    assert("exception"@.len() == 9);
    assert("exception"@[0] == 'e');
    assert("exception"@[1] == 'x');
    assert("exception"@[2] == 'c');
    reveal_strlit("fault");
    assert("fault"@.len() == 5);
    assert("fault"@[0] == 'f');
    assert("fault"@[1] == 'a');
    assert("fault"@[2] == 'u');
    reveal_strlit("required");
    assert("required"@.len() == 8);
    assert("required"@[0] == 'r');
    assert("required"@[1] == 'e');
    assert("required"@[2] == 'q');
    reveal_strlit("member");
    assert("member"@.len() == 6);
    assert("member"@[0] == 'm');
    assert("member"@[1] == 'e');
    assert("member"@[2] == 'm');
    reveal_strlit("members");
    assert("members"@.len() == 7);
    assert("members"@[0] == 'm');
    assert("members"@[1] == 'e');
    assert("members"@[2] == 'm');
    reveal_strlit("payload");
    assert("payload"@.len() == 7);
    assert("payload"@[0] == 'p');
    assert("payload"@[1] == 'a');
    assert("payload"@[2] == 'y');
    reveal_strlit("documentation");
    assert("documentation"@.len() == 13);
    assert("documentation"@[0] == 'd');
    assert("documentation"@[1] == 'o');
    assert("documentation"@[2] == 'c');
}


#[verifier::rlimit(50)]
proof fn lk_shape_timestampformat(x: Shape, pol: DocPolicy)
    ensures
        lookup(enc_shape(x, pol)->Obj_0, "timestampFormat"@) == (str_field(x.timestamp_format)),
{
    broadcast use lemma_lookup_append;
    broadcast use lemma_lookup_entry;
    broadcast use lemma_first_unknown_append;
    broadcast use lemma_first_unknown_entry;

    reveal_strlit("type");
    assert("type"@.len() == 4);
    assert("type"@[0] == 't');
    assert("type"@[1] == 'y');
    assert("type"@[2] == 'p');
    reveal_strlit("box");
    assert("box"@.len() == 3);
    assert("box"@[0] == 'b');
    assert("box"@[1] == 'o');
    assert("box"@[2] == 'x');
    reveal_strlit("event");
    assert("event"@.len() == 5);
    assert("event"@[0] == 'e');
    assert("event"@[1] == 'v');
    assert("event"@[2] == 'e');
    reveal_strlit("eventstream");
    assert("eventstream"@.len() == 11);
    assert("eventstream"@[0] == 'e');
    assert("eventstream"@[1] == 'v');
    assert("eventstream"@[2] == 'e');
    reveal_strlit("flattened");
    assert("flattened"@.len() == 9);
    assert("flattened"@[0] == 'f');
    assert("flattened"@[1] == 'l');
    assert("flattened"@[2] == 'a');
    reveal_strlit("sensitive");
    assert("sensitive"@.len() == 9);
    assert("sensitive"@[0] == 's');
    assert("sensitive"@[1] == 'e');
    assert("sensitive"@[2] == 'n');
    reveal_strlit("wrapper");
    assert("wrapper"@.len() == 7);
    assert("wrapper"@[0] == 'w');
    assert("wrapper"@[1] == 'r');
    assert("wrapper"@[2] == 'a');
    reveal_strlit("locationName");
    assert("locationName"@.len() == 12);
    assert("locationName"@[0] == 'l');
    assert("locationName"@[1] == 'o');
    assert("locationName"@[2] == 'c');
    reveal_strlit("xmlNamespace");
    assert("xmlNamespace"@.len() == 12);
    assert("xmlNamespace"@[0] == 'x');
    assert("xmlNamespace"@[1] == 'm');
    assert("xmlNamespace"@[2] == 'l');
    reveal_strlit("deprecated");
    assert("deprecated"@.len() == 10);
    assert("deprecated"@[0] == 'd');
    assert("deprecated"@[1] == 'e');
    assert("deprecated"@[2] == 'p');
    reveal_strlit("deprecatedMessage");
    assert("deprecatedMessage"@.len() == 17);
    assert("deprecatedMessage"@[0] == 'd');
    assert("deprecatedMessage"@[1] == 'e');
    assert("deprecatedMessage"@[2] == 'p');
    reveal_strlit("min");
    assert("min"@.len() == 3);
    assert("min"@[0] == 'm');
    assert("min"@[1] == 'i');
    assert("min"@[2] == 'n');
    reveal_strlit("max");
    assert("max"@.len() == 3);
    assert("max"@[0] == 'm');
    assert("max"@[1] == 'a');
    assert("max"@[2] == 'x');
    reveal_strlit("enum");
    assert("enum"@.len() == 4);
    assert("enum"@[0] == 'e');
    assert("enum"@[1] == 'n');
    assert("enum"@[2] == 'u');
    reveal_strlit("pattern");
    assert("pattern"@.len() == 7);
    assert("pattern"@[0] == 'p');
    assert("pattern"@[1] == 'a');
    assert("pattern"@[2] == 't');
    reveal_strlit("timestampFormat");
    assert("timestampFormat"@.len() == 15);
    assert("timestampFormat"@[0] == 't');
    assert("timestampFormat"@[1] == 'i');
    assert("timestampFormat"@[2] == 'm');
    reveal_strlit("key");
    assert("key"@.len() == 3);
    assert("key"@[0] == 'k');
    assert("key"@[1] == 'e');
    assert("key"@[2] == 'y');
    reveal_strlit("value");
    assert("value"@.len() == 5);
    assert("value"@[0] == 'v');
    assert("value"@[1] == 'a');
    assert("value"@[2] == 'l');
    reveal_strlit("error");
    assert("error"@.len() == 5);
    assert("error"@[0] == 'e');
    assert("error"@[1] == 'r');
    assert("error"@[2] == 'r');
    reveal_strlit("exception");
    assert("exception"@.len() == 9);
    assert("exception"@[0] == 'e');
    assert("exception"@[1] == 'x');
    assert("exception"@[2] == 'c');
    reveal_strlit("fault");
    assert("fault"@.len() == 5);
    assert("fault"@[0] == 'f');
    assert("fault"@[1] == 'a');
    assert("fault"@[2] == 'u');
    reveal_strlit("required");
    assert("required"@.len() == 8);
    assert("required"@[0] == 'r');
    assert("required"@[1] == 'e');
    assert("required"@[2] == 'q');
    reveal_strlit("member");
    assert("member"@.len() == 6);
    assert("member"@[0] == 'm');
    assert("member"@[1] == 'e');
    assert("member"@[2] == 'm');
    reveal_strlit("members");
    assert("members"@.len() == 7);
    assert("members"@[0] == 'm');
    assert("members"@[1] == 'e');
    assert("members"@[2] == 'm');
    reveal_strlit("payload");
    assert("payload"@.len() == 7);
    assert("payload"@[0] == 'p');
    assert("payload"@[1] == 'a');
    assert("payload"@[2] == 'y');
    reveal_strlit("documentation");
    assert("documentation"@.len() == 13);
    assert("documentation"@[0] == 'd');
    assert("documentation"@[1] == 'o');
    assert("documentation"@[2] == 'c');
}


#[verifier::rlimit(50)]
proof fn lk_shape_key(x: Shape, pol: DocPolicy)
    ensures
        lookup(enc_shape(x, pol)->Obj_0, "key"@) == (match x.key {
            None => None,
            Some(r) => Some(enc_shape_ref(r, pol)),
        }),
{
    broadcast use lemma_lookup_append;
    broadcast use lemma_lookup_entry;
    broadcast use lemma_first_unknown_append;
    broadcast use lemma_first_unknown_entry;

    reveal_strlit("type");
    assert("type"@.len() == 4);
    assert("type"@[0] == 't');
    assert("type"@[1] == 'y');
    assert("type"@[2] == 'p');
    reveal_strlit("box");
    assert("box"@.len() == 3);
    assert("box"@[0] == 'b');
    assert("box"@[1] == 'o');
    assert("box"@[2] == 'x');
    reveal_strlit("event");
    assert("event"@.len() == 5);
    assert("event"@[0] == 'e');
    assert("event"@[1] == 'v');
    assert("event"@[2] == 'e');
    reveal_strlit("eventstream");
    assert("eventstream"@.len() == 11);
    assert("eventstream"@[0] == 'e');
    assert("eventstream"@[1] == 'v');
    assert("eventstream"@[2] == 'e');
    reveal_strlit("flattened");
    assert("flattened"@.len() == 9);
    assert("flattened"@[0] == 'f');
    assert("flattened"@[1] == 'l');
    assert("flattened"@[2] == 'a');
    reveal_strlit("sensitive");
    assert("sensitive"@.len() == 9);
    assert("sensitive"@[0] == 's');
    assert("sensitive"@[1] == 'e');
    assert("sensitive"@[2] == 'n');
    reveal_strlit("wrapper");
    assert("wrapper"@.len() == 7);
    assert("wrapper"@[0] == 'w');
    assert("wrapper"@[1] == 'r');
    assert("wrapper"@[2] == 'a');
    reveal_strlit("locationName");
    assert("locationName"@.len() == 12);
    assert("locationName"@[0] == 'l');
    assert("locationName"@[1] == 'o');
    assert("locationName"@[2] == 'c');
    reveal_strlit("xmlNamespace");
    assert("xmlNamespace"@.len() == 12);
    assert("xmlNamespace"@[0] == 'x');
    assert("xmlNamespace"@[1] == 'm');
    assert("xmlNamespace"@[2] == 'l');
    reveal_strlit("deprecated");
    assert("deprecated"@.len() == 10);
    assert("deprecated"@[0] == 'd');
    assert("deprecated"@[1] == 'e');
    assert("deprecated"@[2] == 'p');
    reveal_strlit("deprecatedMessage");
    assert("deprecatedMessage"@.len() == 17);
    assert("deprecatedMessage"@[0] == 'd');
    assert("deprecatedMessage"@[1] == 'e');
    assert("deprecatedMessage"@[2] == 'p');
    reveal_strlit("min");
    assert("min"@.len() == 3);
    assert("min"@[0] == 'm');
    assert("min"@[1] == 'i');
    assert("min"@[2] == 'n');
    reveal_strlit("max");
    assert("max"@.len() == 3);
    assert("max"@[0] == 'm');
    assert("max"@[1] == 'a');
    assert("max"@[2] == 'x');
    reveal_strlit("enum");
    assert("enum"@.len() == 4);
    assert("enum"@[0] == 'e');
    assert("enum"@[1] == 'n');
    assert("enum"@[2] == 'u');
    reveal_strlit("pattern");
    assert("pattern"@.len() == 7);
    assert("pattern"@[0] == 'p');
    assert("pattern"@[1] == 'a');
    assert("pattern"@[2] == 't');
    reveal_strlit("timestampFormat");
    assert("timestampFormat"@.len() == 15);
    assert("timestampFormat"@[0] == 't');
    assert("timestampFormat"@[1] == 'i');
    assert("timestampFormat"@[2] == 'm');
    reveal_strlit("key");
    assert("key"@.len() == 3);
    assert("key"@[0] == 'k');
    assert("key"@[1] == 'e');
    assert("key"@[2] == 'y');
    reveal_strlit("value");
    assert("value"@.len() == 5);
    assert("value"@[0] == 'v');
    assert("value"@[1] == 'a');
    assert("value"@[2] == 'l');
    reveal_strlit("error");
    assert("error"@.len() == 5);
    assert("error"@[0] == 'e');
    assert("error"@[1] == 'r');
    assert("error"@[2] == 'r');
    reveal_strlit("exception");
    assert("exception"@.len() == 9);
    assert("exception"@[0] == 'e');
    assert("exception"@[1] == 'x');
    assert("exception"@[2] == 'c');
    reveal_strlit("fault");
    assert("fault"@.len() == 5);
    assert("fault"@[0] == 'f');
    assert("fault"@[1] == 'a');
    assert("fault"@[2] == 'u');
    reveal_strlit("required");
    assert("required"@.len() == 8);
    assert("required"@[0] == 'r');
    assert("required"@[1] == 'e');
    assert("required"@[2] == 'q');
    reveal_strlit("member");
    assert("member"@.len() == 6);
    assert("member"@[0] == 'm');
    assert("member"@[1] == 'e');
    assert("member"@[2] == 'm');
    reveal_strlit("members");
    assert("members"@.len() == 7);
    assert("members"@[0] == 'm');
    assert("members"@[1] == 'e');
    assert("members"@[2] == 'm');
    reveal_strlit("payload");
    assert("payload"@.len() == 7);
    assert("payload"@[0] == 'p');
    assert("payload"@[1] == 'a');
    assert("payload"@[2] == 'y');
    reveal_strlit("documentation");
    assert("documentation"@.len() == 13);
    assert("documentation"@[0] == 'd');
    assert("documentation"@[1] == 'o');
    assert("documentation"@[2] == 'c');
}


#[verifier::rlimit(50)]
proof fn lk_shape_value(x: Shape, pol: DocPolicy)
    ensures
        lookup(enc_shape(x, pol)->Obj_0, "value"@) == (match x.value {
            None => None,
            Some(r) => Some(enc_shape_ref(r, pol)),
        }),
{
    broadcast use lemma_lookup_append;
    broadcast use lemma_lookup_entry;
    broadcast use lemma_first_unknown_append;
    broadcast use lemma_first_unknown_entry;

    reveal_strlit("type");
    assert("type"@.len() == 4);
    assert("type"@[0] == 't');
    assert("type"@[1] == 'y');
    assert("type"@[2] == 'p');
    reveal_strlit("box");
    assert("box"@.len() == 3);
    assert("box"@[0] == 'b');
    assert("box"@[1] == 'o');
    assert("box"@[2] == 'x');
    reveal_strlit("event");
    assert("event"@.len() == 5);
    assert("event"@[0] == 'e');
    assert("event"@[1] == 'v');
    assert("event"@[2] == 'e');
    reveal_strlit("eventstream");
    assert("eventstream"@.len() == 11);
    assert("eventstream"@[0] == 'e');
    assert("eventstream"@[1] == 'v');
    assert("eventstream"@[2] == 'e');
    reveal_strlit("flattened");
    assert("flattened"@.len() == 9);
    assert("flattened"@[0] == 'f');
    assert("flattened"@[1] == 'l');
    assert("flattened"@[2] == 'a');
    reveal_strlit("sensitive");
    assert("sensitive"@.len() == 9);
    assert("sensitive"@[0] == 's');
    assert("sensitive"@[1] == 'e');
    assert("sensitive"@[2] == 'n');
    reveal_strlit("wrapper");
    assert("wrapper"@.len() == 7);
    assert("wrapper"@[0] == 'w');
    assert("wrapper"@[1] == 'r');
    assert("wrapper"@[2] == 'a');
    reveal_strlit("locationName");
    assert("locationName"@.len() == 12);
    assert("locationName"@[0] == 'l');
    assert("locationName"@[1] == 'o');
    assert("locationName"@[2] == 'c');
    reveal_strlit("xmlNamespace");
    assert("xmlNamespace"@.len() == 12);
    assert("xmlNamespace"@[0] == 'x');
    assert("xmlNamespace"@[1] == 'm');
    assert("xmlNamespace"@[2] == 'l');
    reveal_strlit("deprecated");
    assert("deprecated"@.len() == 10);
    assert("deprecated"@[0] == 'd');
    assert("deprecated"@[1] == 'e');
    assert("deprecated"@[2] == 'p');
    reveal_strlit("deprecatedMessage");
    assert("deprecatedMessage"@.len() == 17);
    assert("deprecatedMessage"@[0] == 'd');
    assert("deprecatedMessage"@[1] == 'e');
    assert("deprecatedMessage"@[2] == 'p');
    reveal_strlit("min");
    assert("min"@.len() == 3);
    assert("min"@[0] == 'm');
    assert("min"@[1] == 'i');
    assert("min"@[2] == 'n');
    reveal_strlit("max");
    assert("max"@.len() == 3);
    assert("max"@[0] == 'm');
    assert("max"@[1] == 'a');
    assert("max"@[2] == 'x');
    reveal_strlit("enum");
    assert("enum"@.len() == 4);
    assert("enum"@[0] == 'e');
    assert("enum"@[1] == 'n');
    assert("enum"@[2] == 'u');
    reveal_strlit("pattern");
    assert("pattern"@.len() == 7);
    assert("pattern"@[0] == 'p');
    assert("pattern"@[1] == 'a');
    assert("pattern"@[2] == 't');
    reveal_strlit("timestampFormat");
    assert("timestampFormat"@.len() == 15);
    assert("timestampFormat"@[0] == 't');
    assert("timestampFormat"@[1] == 'i');
    assert("timestampFormat"@[2] == 'm');
    reveal_strlit("key");
    assert("key"@.len() == 3);
    assert("key"@[0] == 'k');
    assert("key"@[1] == 'e');
    assert("key"@[2] == 'y');
    reveal_strlit("value");
    assert("value"@.len() == 5);
    assert("value"@[0] == 'v');
    assert("value"@[1] == 'a');
    assert("value"@[2] == 'l');
    reveal_strlit("error");
    assert("error"@.len() == 5);
    assert("error"@[0] == 'e');
    assert("error"@[1] == 'r');
    assert("error"@[2] == 'r');
    reveal_strlit("exception");
    assert("exception"@.len() == 9);
    assert("exception"@[0] == 'e');
    assert("exception"@[1] == 'x');
    assert("exception"@[2] == 'c');
    reveal_strlit("fault");
    assert("fault"@.len() == 5);
    assert("fault"@[0] == 'f');
    assert("fault"@[1] == 'a');
    assert("fault"@[2] == 'u');
    reveal_strlit("required");
    assert("required"@.len() == 8);
    assert("required"@[0] == 'r');
    assert("required"@[1] == 'e');
    assert("required"@[2] == 'q');
    reveal_strlit("member");
    assert("member"@.len() == 6);
    assert("member"@[0] == 'm');
    assert("member"@[1] == 'e');
    assert("member"@[2] == 'm');
    reveal_strlit("members");
    assert("members"@.len() == 7);
    assert("members"@[0] == 'm');
    assert("members"@[1] == 'e');
    assert("members"@[2] == 'm');
    reveal_strlit("payload");
    assert("payload"@.len() == 7);
    assert("payload"@[0] == 'p');
    assert("payload"@[1] == 'a');
    assert("payload"@[2] == 'y');
    reveal_strlit("documentation");
    assert("documentation"@.len() == 13);
    assert("documentation"@[0] == 'd');
    assert("documentation"@[1] == 'o');
    assert("documentation"@[2] == 'c');
}


#[verifier::rlimit(50)]
proof fn lk_shape_error(x: Shape, pol: DocPolicy)
    ensures
        lookup(enc_shape(x, pol)->Obj_0, "error"@) == (match x.error {
            None => None,
            Some(e) => Some(enc_error(e)),
        }),
{
    broadcast use lemma_lookup_append;
    broadcast use lemma_lookup_entry;
    broadcast use lemma_first_unknown_append;
    broadcast use lemma_first_unknown_entry;

    reveal_strlit("type");
    assert("type"@.len() == 4);
    assert("type"@[0] == 't');
    assert("type"@[1] == 'y');
    assert("type"@[2] == 'p');
    reveal_strlit("box");
    assert("box"@.len() == 3);
    assert("box"@[0] == 'b');
    assert("box"@[1] == 'o');
    assert("box"@[2] == 'x');
    reveal_strlit("event");
    assert("event"@.len() == 5);
    assert("event"@[0] == 'e');
    assert("event"@[1] == 'v');
    assert("event"@[2] == 'e');
    reveal_strlit("eventstream");
    assert("eventstream"@.len() == 11);
    assert("eventstream"@[0] == 'e');
    assert("eventstream"@[1] == 'v');
    assert("eventstream"@[2] == 'e');
    reveal_strlit("flattened");
    assert("flattened"@.len() == 9);
    assert("flattened"@[0] == 'f');
    assert("flattened"@[1] == 'l');
    assert("flattened"@[2] == 'a');
    reveal_strlit("sensitive");
    assert("sensitive"@.len() == 9);
    assert("sensitive"@[0] == 's');
    assert("sensitive"@[1] == 'e');
    assert("sensitive"@[2] == 'n');
    reveal_strlit("wrapper");
    assert("wrapper"@.len() == 7);
    assert("wrapper"@[0] == 'w');
    assert("wrapper"@[1] == 'r');
    assert("wrapper"@[2] == 'a');
    reveal_strlit("locationName");
    assert("locationName"@.len() == 12);
    assert("locationName"@[0] == 'l');
    assert("locationName"@[1] == 'o');
    assert("locationName"@[2] == 'c');
    reveal_strlit("xmlNamespace");
    assert("xmlNamespace"@.len() == 12);
    assert("xmlNamespace"@[0] == 'x');
    assert("xmlNamespace"@[1] == 'm');
    assert("xmlNamespace"@[2] == 'l');
    reveal_strlit("deprecated");
    assert("deprecated"@.len() == 10);
    assert("deprecated"@[0] == 'd');
    assert("deprecated"@[1] == 'e');
    assert("deprecated"@[2] == 'p');
    reveal_strlit("deprecatedMessage");
    assert("deprecatedMessage"@.len() == 17);
    assert("deprecatedMessage"@[0] == 'd');
    assert("deprecatedMessage"@[1] == 'e');
    assert("deprecatedMessage"@[2] == 'p');
    reveal_strlit("min");
    assert("min"@.len() == 3);
    assert("min"@[0] == 'm');
    assert("min"@[1] == 'i');
    assert("min"@[2] == 'n');
    reveal_strlit("max");
    assert("max"@.len() == 3);
    assert("max"@[0] == 'm');
    assert("max"@[1] == 'a');
    assert("max"@[2] == 'x');
    reveal_strlit("enum");
    assert("enum"@.len() == 4);
    assert("enum"@[0] == 'e');
    assert("enum"@[1] == 'n');
    assert("enum"@[2] == 'u');
    reveal_strlit("pattern");
    assert("pattern"@.len() == 7);
    assert("pattern"@[0] == 'p');
    assert("pattern"@[1] == 'a');
    assert("pattern"@[2] == 't');
    reveal_strlit("timestampFormat");
    assert("timestampFormat"@.len() == 15);
    assert("timestampFormat"@[0] == 't');
    assert("timestampFormat"@[1] == 'i');
    assert("timestampFormat"@[2] == 'm');
    reveal_strlit("key");
    assert("key"@.len() == 3);
    assert("key"@[0] == 'k');
    assert("key"@[1] == 'e');
    assert("key"@[2] == 'y');
    reveal_strlit("value");
    assert("value"@.len() == 5);
    assert("value"@[0] == 'v');
    assert("value"@[1] == 'a');
    assert("value"@[2] == 'l');
    reveal_strlit("error");
    assert("error"@.len() == 5);
    assert("error"@[0] == 'e');
    assert("error"@[1] == 'r');
    assert("error"@[2] == 'r');
    reveal_strlit("exception");
    assert("exception"@.len() == 9);
    assert("exception"@[0] == 'e');
    assert("exception"@[1] == 'x');
    assert("exception"@[2] == 'c');
    reveal_strlit("fault");
    assert("fault"@.len() == 5);
    assert("fault"@[0] == 'f');
    assert("fault"@[1] == 'a');
    assert("fault"@[2] == 'u');
    reveal_strlit("required");
    assert("required"@.len() == 8);
    assert("required"@[0] == 'r');
    assert("required"@[1] == 'e');
    assert("required"@[2] == 'q');
    reveal_strlit("member");
    assert("member"@.len() == 6);
    assert("member"@[0] == 'm');
    assert("member"@[1] == 'e');
    assert("member"@[2] == 'm');
    reveal_strlit("members");
    assert("members"@.len() == 7);
    assert("members"@[0] == 'm');
    assert("members"@[1] == 'e');
    assert("members"@[2] == 'm');
    reveal_strlit("payload");
    assert("payload"@.len() == 7);
    assert("payload"@[0] == 'p');
    assert("payload"@[1] == 'a');
    assert("payload"@[2] == 'y');
    reveal_strlit("documentation");
    assert("documentation"@.len() == 13);
    assert("documentation"@[0] == 'd');
    assert("documentation"@[1] == 'o');
    assert("documentation"@[2] == 'c');
}


#[verifier::rlimit(50)]
proof fn lk_shape_exception(x: Shape, pol: DocPolicy)
    ensures
        lookup(enc_shape(x, pol)->Obj_0, "exception"@) == (bool_field(x.exception)),
{
    broadcast use lemma_lookup_append;
    broadcast use lemma_lookup_entry;
    broadcast use lemma_first_unknown_append;
    broadcast use lemma_first_unknown_entry;

    reveal_strlit("type");
    assert("type"@.len() == 4);
    assert("type"@[0] == 't');
    assert("type"@[1] == 'y');
    assert("type"@[2] == 'p');
    reveal_strlit("box");
    assert("box"@.len() == 3);
    assert("box"@[0] == 'b');
    assert("box"@[1] == 'o');
    assert("box"@[2] == 'x');
    reveal_strlit("event");
    assert("event"@.len() == 5);
    assert("event"@[0] == 'e');
    assert("event"@[1] == 'v');
    assert("event"@[2] == 'e');
    reveal_strlit("eventstream");
    assert("eventstream"@.len() == 11);
    assert("eventstream"@[0] == 'e');
    assert("eventstream"@[1] == 'v');
    assert("eventstream"@[2] == 'e');
    reveal_strlit("flattened");
    assert("flattened"@.len() == 9);
    assert("flattened"@[0] == 'f');
    assert("flattened"@[1] == 'l');
    assert("flattened"@[2] == 'a');
    reveal_strlit("sensitive");
    assert("sensitive"@.len() == 9);
    assert("sensitive"@[0] == 's');
    assert("sensitive"@[1] == 'e');
    assert("sensitive"@[2] == 'n');
    reveal_strlit("wrapper");
    assert("wrapper"@.len() == 7);
    assert("wrapper"@[0] == 'w');
    assert("wrapper"@[1] == 'r');
    assert("wrapper"@[2] == 'a');
    reveal_strlit("locationName");
    assert("locationName"@.len() == 12);
    assert("locationName"@[0] == 'l');
    assert("locationName"@[1] == 'o');
    assert("locationName"@[2] == 'c');
    reveal_strlit("xmlNamespace");
    assert("xmlNamespace"@.len() == 12);
    assert("xmlNamespace"@[0] == 'x');
    assert("xmlNamespace"@[1] == 'm');
    assert("xmlNamespace"@[2] == 'l');
    reveal_strlit("deprecated");
    assert("deprecated"@.len() == 10);
    assert("deprecated"@[0] == 'd');
    assert("deprecated"@[1] == 'e');
    assert("deprecated"@[2] == 'p');
    reveal_strlit("deprecatedMessage");
    assert("deprecatedMessage"@.len() == 17);
    assert("deprecatedMessage"@[0] == 'd');
    assert("deprecatedMessage"@[1] == 'e');
    assert("deprecatedMessage"@[2] == 'p');
    reveal_strlit("min");
    assert("min"@.len() == 3);
    assert("min"@[0] == 'm');
    assert("min"@[1] == 'i');
    assert("min"@[2] == 'n');
    reveal_strlit("max");
    assert("max"@.len() == 3);
    assert("max"@[0] == 'm');
    assert("max"@[1] == 'a');
    assert("max"@[2] == 'x');
    reveal_strlit("enum");
    assert("enum"@.len() == 4);
    assert("enum"@[0] == 'e');
    assert("enum"@[1] == 'n');
    assert("enum"@[2] == 'u');
    reveal_strlit("pattern");
    assert("pattern"@.len() == 7);
    assert("pattern"@[0] == 'p');
    assert("pattern"@[1] == 'a');
    assert("pattern"@[2] == 't');
    reveal_strlit("timestampFormat");
    assert("timestampFormat"@.len() == 15);
    assert("timestampFormat"@[0] == 't');
    assert("timestampFormat"@[1] == 'i');
    assert("timestampFormat"@[2] == 'm');
    reveal_strlit("key");
    assert("key"@.len() == 3);
    assert("key"@[0] == 'k');
    assert("key"@[1] == 'e');
    assert("key"@[2] == 'y');
    reveal_strlit("value");
    assert("value"@.len() == 5);
    assert("value"@[0] == 'v');
    assert("value"@[1] == 'a');
    assert("value"@[2] == 'l');
    reveal_strlit("error");
    assert("error"@.len() == 5);
    assert("error"@[0] == 'e');
    assert("error"@[1] == 'r');
    assert("error"@[2] == 'r');
    reveal_strlit("exception");
    assert("exception"@.len() == 9);
    assert("exception"@[0] == 'e');
    assert("exception"@[1] == 'x');
    assert("exception"@[2] == 'c');
    reveal_strlit("fault");
    assert("fault"@.len() == 5);
    assert("fault"@[0] == 'f');
    assert("fault"@[1] == 'a');
    assert("fault"@[2] == 'u');
    reveal_strlit("required");
    assert("required"@.len() == 8);
    assert("required"@[0] == 'r');
    assert("required"@[1] == 'e');
    assert("required"@[2] == 'q');
    reveal_strlit("member");
    assert("member"@.len() == 6);
    assert("member"@[0] == 'm');
    assert("member"@[1] == 'e');
    assert("member"@[2] == 'm');
    reveal_strlit("members");
    assert("members"@.len() == 7);
    assert("members"@[0] == 'm');
    assert("members"@[1] == 'e');
    assert("members"@[2] == 'm');
    reveal_strlit("payload");
    assert("payload"@.len() == 7);
    assert("payload"@[0] == 'p');
    assert("payload"@[1] == 'a');
    assert("payload"@[2] == 'y');
    reveal_strlit("documentation");
    assert("documentation"@.len() == 13);
    assert("documentation"@[0] == 'd');
    assert("documentation"@[1] == 'o');
    assert("documentation"@[2] == 'c');
}


#[verifier::rlimit(50)]
proof fn lk_shape_fault(x: Shape, pol: DocPolicy)
    ensures
        lookup(enc_shape(x, pol)->Obj_0, "fault"@) == (bool_field(x.fault)),
{
    broadcast use lemma_lookup_append;
    broadcast use lemma_lookup_entry;
    broadcast use lemma_first_unknown_append;
    broadcast use lemma_first_unknown_entry;

    reveal_strlit("type");
    assert("type"@.len() == 4);
    assert("type"@[0] == 't');
    assert("type"@[1] == 'y');
    assert("type"@[2] == 'p');
    reveal_strlit("box");
    assert("box"@.len() == 3);
    assert("box"@[0] == 'b');
    assert("box"@[1] == 'o');
    assert("box"@[2] == 'x');
    reveal_strlit("event");
    assert("event"@.len() == 5);
    assert("event"@[0] == 'e');
    assert("event"@[1] == 'v');
    assert("event"@[2] == 'e');
    reveal_strlit("eventstream");
    assert("eventstream"@.len() == 11);
    assert("eventstream"@[0] == 'e');
    assert("eventstream"@[1] == 'v');
    assert("eventstream"@[2] == 'e');
    reveal_strlit("flattened");
    assert("flattened"@.len() == 9);
    assert("flattened"@[0] == 'f');
    assert("flattened"@[1] == 'l');
    assert("flattened"@[2] == 'a');
    reveal_strlit("sensitive");
    assert("sensitive"@.len() == 9);
    assert("sensitive"@[0] == 's');
    assert("sensitive"@[1] == 'e');
    assert("sensitive"@[2] == 'n');
    reveal_strlit("wrapper");
    assert("wrapper"@.len() == 7);
    assert("wrapper"@[0] == 'w');
    assert("wrapper"@[1] == 'r');
    assert("wrapper"@[2] == 'a');
    reveal_strlit("locationName");
    assert("locationName"@.len() == 12);
    assert("locationName"@[0] == 'l');
    assert("locationName"@[1] == 'o');
    assert("locationName"@[2] == 'c');
    reveal_strlit("xmlNamespace");
    assert("xmlNamespace"@.len() == 12);
    assert("xmlNamespace"@[0] == 'x');
    assert("xmlNamespace"@[1] == 'm');
    assert("xmlNamespace"@[2] == 'l');
    reveal_strlit("deprecated");
    assert("deprecated"@.len() == 10);
    assert("deprecated"@[0] == 'd');
    assert("deprecated"@[1] == 'e');
    assert("deprecated"@[2] == 'p');
    reveal_strlit("deprecatedMessage");
    assert("deprecatedMessage"@.len() == 17);
    assert("deprecatedMessage"@[0] == 'd');
    assert("deprecatedMessage"@[1] == 'e');
    assert("deprecatedMessage"@[2] == 'p');
    reveal_strlit("min");
    assert("min"@.len() == 3);
    assert("min"@[0] == 'm');
    assert("min"@[1] == 'i');
    assert("min"@[2] == 'n');
    reveal_strlit("max");
    assert("max"@.len() == 3);
    assert("max"@[0] == 'm');
    assert("max"@[1] == 'a');
    assert("max"@[2] == 'x');
    reveal_strlit("enum");
    assert("enum"@.len() == 4);
    assert("enum"@[0] == 'e');
    assert("enum"@[1] == 'n');
    assert("enum"@[2] == 'u');
    reveal_strlit("pattern");
    assert("pattern"@.len() == 7);
    assert("pattern"@[0] == 'p');
    assert("pattern"@[1] == 'a');
    assert("pattern"@[2] == 't');
    reveal_strlit("timestampFormat");
    assert("timestampFormat"@.len() == 15);
    assert("timestampFormat"@[0] == 't');
    assert("timestampFormat"@[1] == 'i');
    assert("timestampFormat"@[2] == 'm');
    reveal_strlit("key");
    assert("key"@.len() == 3);
    assert("key"@[0] == 'k');
    assert("key"@[1] == 'e');
    assert("key"@[2] == 'y');
    reveal_strlit("value");
    assert("value"@.len() == 5);
    assert("value"@[0] == 'v');
    assert("value"@[1] == 'a');
    assert("value"@[2] == 'l');
    reveal_strlit("error");
    assert("error"@.len() == 5);
    assert("error"@[0] == 'e');
    assert("error"@[1] == 'r');
    assert("error"@[2] == 'r');
    reveal_strlit("exception");
    assert("exception"@.len() == 9);
    assert("exception"@[0] == 'e');
    assert("exception"@[1] == 'x');
    assert("exception"@[2] == 'c');
    reveal_strlit("fault");
    assert("fault"@.len() == 5);
    assert("fault"@[0] == 'f');
    assert("fault"@[1] == 'a');
    assert("fault"@[2] == 'u');
    reveal_strlit("required");
    assert("required"@.len() == 8);
    assert("required"@[0] == 'r');
    assert("required"@[1] == 'e');
    assert("required"@[2] == 'q');
    reveal_strlit("member");
    assert("member"@.len() == 6);
    assert("member"@[0] == 'm');
    assert("member"@[1] == 'e');
    assert("member"@[2] == 'm');
    reveal_strlit("members");
    assert("members"@.len() == 7);
    assert("members"@[0] == 'm');
    assert("members"@[1] == 'e');
    assert("members"@[2] == 'm');
    reveal_strlit("payload");
    assert("payload"@.len() == 7);
    assert("payload"@[0] == 'p');
    assert("payload"@[1] == 'a');
    assert("payload"@[2] == 'y');
    reveal_strlit("documentation");
    assert("documentation"@.len() == 13);
    assert("documentation"@[0] == 'd');
    assert("documentation"@[1] == 'o');
    assert("documentation"@[2] == 'c');
}


#[verifier::rlimit(50)]
proof fn lk_shape_required(x: Shape, pol: DocPolicy)
    ensures
        lookup(enc_shape(x, pol)->Obj_0, "required"@) == (strs_field(x.required)),
{
    broadcast use lemma_lookup_append;
    broadcast use lemma_lookup_entry;
    broadcast use lemma_first_unknown_append;
    broadcast use lemma_first_unknown_entry;

    reveal_strlit("type");
    assert("type"@.len() == 4);
    assert("type"@[0] == 't');
    assert("type"@[1] == 'y');
    assert("type"@[2] == 'p');
    reveal_strlit("box");
    assert("box"@.len() == 3);
    assert("box"@[0] == 'b');
    assert("box"@[1] == 'o');
    assert("box"@[2] == 'x');
    reveal_strlit("event");
    assert("event"@.len() == 5);
    assert("event"@[0] == 'e');
    assert("event"@[1] == 'v');
    assert("event"@[2] == 'e');
    reveal_strlit("eventstream");
    assert("eventstream"@.len() == 11);
    assert("eventstream"@[0] == 'e');
    assert("eventstream"@[1] == 'v');
    assert("eventstream"@[2] == 'e');
    reveal_strlit("flattened");
    assert("flattened"@.len() == 9);
    assert("flattened"@[0] == 'f');
    assert("flattened"@[1] == 'l');
    assert("flattened"@[2] == 'a');
    reveal_strlit("sensitive");
    assert("sensitive"@.len() == 9);
    assert("sensitive"@[0] == 's');
    assert("sensitive"@[1] == 'e');
    assert("sensitive"@[2] == 'n');
    reveal_strlit("wrapper");
    assert("wrapper"@.len() == 7);
    assert("wrapper"@[0] == 'w');
    assert("wrapper"@[1] == 'r');
    assert("wrapper"@[2] == 'a');
    reveal_strlit("locationName");
    assert("locationName"@.len() == 12);
    assert("locationName"@[0] == 'l');
    assert("locationName"@[1] == 'o');
    assert("locationName"@[2] == 'c');
    reveal_strlit("xmlNamespace");
    assert("xmlNamespace"@.len() == 12);
    assert("xmlNamespace"@[0] == 'x');
    assert("xmlNamespace"@[1] == 'm');
    assert("xmlNamespace"@[2] == 'l');
    reveal_strlit("deprecated");
    assert("deprecated"@.len() == 10);
    assert("deprecated"@[0] == 'd');
    assert("deprecated"@[1] == 'e');
    assert("deprecated"@[2] == 'p');
    reveal_strlit("deprecatedMessage");
    assert("deprecatedMessage"@.len() == 17);
    assert("deprecatedMessage"@[0] == 'd');
    assert("deprecatedMessage"@[1] == 'e');
    assert("deprecatedMessage"@[2] == 'p');
    reveal_strlit("min");
    assert("min"@.len() == 3);
    assert("min"@[0] == 'm');
    assert("min"@[1] == 'i');
    assert("min"@[2] == 'n');
    reveal_strlit("max");
    assert("max"@.len() == 3);
    assert("max"@[0] == 'm');
    assert("max"@[1] == 'a');
    assert("max"@[2] == 'x');
    reveal_strlit("enum");
    assert("enum"@.len() == 4);
    assert("enum"@[0] == 'e');
    assert("enum"@[1] == 'n');
    assert("enum"@[2] == 'u');
    reveal_strlit("pattern");
    assert("pattern"@.len() == 7);
    assert("pattern"@[0] == 'p');
    assert("pattern"@[1] == 'a');
    assert("pattern"@[2] == 't');
    reveal_strlit("timestampFormat");
    assert("timestampFormat"@.len() == 15);
    assert("timestampFormat"@[0] == 't');
    assert("timestampFormat"@[1] == 'i');
    assert("timestampFormat"@[2] == 'm');
    reveal_strlit("key");
    assert("key"@.len() == 3);
    assert("key"@[0] == 'k');
    assert("key"@[1] == 'e');
    assert("key"@[2] == 'y');
    reveal_strlit("value");
    assert("value"@.len() == 5);
    assert("value"@[0] == 'v');
    assert("value"@[1] == 'a');
    assert("value"@[2] == 'l');
    reveal_strlit("error");
    assert("error"@.len() == 5);
    assert("error"@[0] == 'e');
    assert("error"@[1] == 'r');
    assert("error"@[2] == 'r');
    reveal_strlit("exception");
    assert("exception"@.len() == 9);
    assert("exception"@[0] == 'e');
    assert("exception"@[1] == 'x');
    assert("exception"@[2] == 'c');
    reveal_strlit("fault");
    assert("fault"@.len() == 5);
    assert("fault"@[0] == 'f');
    assert("fault"@[1] == 'a');
    assert("fault"@[2] == 'u');
    reveal_strlit("required");
    assert("required"@.len() == 8);
    assert("required"@[0] == 'r');
    assert("required"@[1] == 'e');
    assert("required"@[2] == 'q');
    reveal_strlit("member");
    assert("member"@.len() == 6);
    assert("member"@[0] == 'm');
    assert("member"@[1] == 'e');
    assert("member"@[2] == 'm');
    reveal_strlit("members");
    assert("members"@.len() == 7);
    assert("members"@[0] == 'm');
    assert("members"@[1] == 'e');
    assert("members"@[2] == 'm');
    reveal_strlit("payload");
    assert("payload"@.len() == 7);
    assert("payload"@[0] == 'p');
    assert("payload"@[1] == 'a');
    assert("payload"@[2] == 'y');
    reveal_strlit("documentation");
    assert("documentation"@.len() == 13);
    assert("documentation"@[0] == 'd');
    assert("documentation"@[1] == 'o');
    assert("documentation"@[2] == 'c');
}


#[verifier::rlimit(50)]
proof fn lk_shape_member(x: Shape, pol: DocPolicy)
    ensures
        lookup(enc_shape(x, pol)->Obj_0, "member"@) == (match x.member {
            None => None,
            Some(r) => Some(enc_shape_ref(r, pol)),
        }),
{
    broadcast use lemma_lookup_append;
    broadcast use lemma_lookup_entry;
    broadcast use lemma_first_unknown_append;
    broadcast use lemma_first_unknown_entry;

    reveal_strlit("type");
    assert("type"@.len() == 4);
    assert("type"@[0] == 't');
    assert("type"@[1] == 'y');
    assert("type"@[2] == 'p');
    reveal_strlit("box");
    assert("box"@.len() == 3);
    assert("box"@[0] == 'b');
    assert("box"@[1] == 'o');
    assert("box"@[2] == 'x');
    reveal_strlit("event");
    assert("event"@.len() == 5);
    assert("event"@[0] == 'e');
    assert("event"@[1] == 'v');
    assert("event"@[2] == 'e');
    reveal_strlit("eventstream");
    assert("eventstream"@.len() == 11);
    assert("eventstream"@[0] == 'e');
    assert("eventstream"@[1] == 'v');
    assert("eventstream"@[2] == 'e');
    reveal_strlit("flattened");
    assert("flattened"@.len() == 9);
    assert("flattened"@[0] == 'f');
    assert("flattened"@[1] == 'l');
    assert("flattened"@[2] == 'a');
    reveal_strlit("sensitive");
    assert("sensitive"@.len() == 9);
    assert("sensitive"@[0] == 's');
    assert("sensitive"@[1] == 'e');
    assert("sensitive"@[2] == 'n');
    reveal_strlit("wrapper");
    assert("wrapper"@.len() == 7);
    assert("wrapper"@[0] == 'w');
    assert("wrapper"@[1] == 'r');
    assert("wrapper"@[2] == 'a');
    reveal_strlit("locationName");
    assert("locationName"@.len() == 12);
    assert("locationName"@[0] == 'l');
    assert("locationName"@[1] == 'o');
    assert("locationName"@[2] == 'c');
    reveal_strlit("xmlNamespace");
    assert("xmlNamespace"@.len() == 12);
    assert("xmlNamespace"@[0] == 'x');
    assert("xmlNamespace"@[1] == 'm');
    assert("xmlNamespace"@[2] == 'l');
    reveal_strlit("deprecated");
    assert("deprecated"@.len() == 10);
    assert("deprecated"@[0] == 'd');
    assert("deprecated"@[1] == 'e');
    assert("deprecated"@[2] == 'p');
    reveal_strlit("deprecatedMessage");
    assert("deprecatedMessage"@.len() == 17);
    assert("deprecatedMessage"@[0] == 'd');
    assert("deprecatedMessage"@[1] == 'e');
    assert("deprecatedMessage"@[2] == 'p');
    reveal_strlit("min");
    assert("min"@.len() == 3);
    assert("min"@[0] == 'm');
    assert("min"@[1] == 'i');
    assert("min"@[2] == 'n');
    reveal_strlit("max");
    assert("max"@.len() == 3);
    assert("max"@[0] == 'm');
    assert("max"@[1] == 'a');
    assert("max"@[2] == 'x');
    reveal_strlit("enum");
    assert("enum"@.len() == 4);
    assert("enum"@[0] == 'e');
    assert("enum"@[1] == 'n');
    assert("enum"@[2] == 'u');
    reveal_strlit("pattern");
    assert("pattern"@.len() == 7);
    assert("pattern"@[0] == 'p');
    assert("pattern"@[1] == 'a');
    assert("pattern"@[2] == 't');
    reveal_strlit("timestampFormat");
    assert("timestampFormat"@.len() == 15);
    assert("timestampFormat"@[0] == 't');
    assert("timestampFormat"@[1] == 'i');
    assert("timestampFormat"@[2] == 'm');
    reveal_strlit("key");
    assert("key"@.len() == 3);
    assert("key"@[0] == 'k');
    assert("key"@[1] == 'e');
    assert("key"@[2] == 'y');
    reveal_strlit("value");
    assert("value"@.len() == 5);
    assert("value"@[0] == 'v');
    assert("value"@[1] == 'a');
    assert("value"@[2] == 'l');
    reveal_strlit("error");
    assert("error"@.len() == 5);
    assert("error"@[0] == 'e');
    assert("error"@[1] == 'r');
    assert("error"@[2] == 'r');
    reveal_strlit("exception");
    assert("exception"@.len() == 9);
    assert("exception"@[0] == 'e');
    assert("exception"@[1] == 'x');
    assert("exception"@[2] == 'c');
    reveal_strlit("fault");
    assert("fault"@.len() == 5);
    assert("fault"@[0] == 'f');
    assert("fault"@[1] == 'a');
    assert("fault"@[2] == 'u');
    reveal_strlit("required");
    assert("required"@.len() == 8);
    assert("required"@[0] == 'r');
    assert("required"@[1] == 'e');
    assert("required"@[2] == 'q');
    reveal_strlit("member");
    assert("member"@.len() == 6);
    assert("member"@[0] == 'm');
    assert("member"@[1] == 'e');
    assert("member"@[2] == 'm');
    reveal_strlit("members");
    assert("members"@.len() == 7);
    assert("members"@[0] == 'm');
    assert("members"@[1] == 'e');
    assert("members"@[2] == 'm');
    reveal_strlit("payload");
    assert("payload"@.len() == 7);
    assert("payload"@[0] == 'p');
    assert("payload"@[1] == 'a');
    assert("payload"@[2] == 'y');
    reveal_strlit("documentation");
    assert("documentation"@.len() == 13);
    assert("documentation"@[0] == 'd');
    assert("documentation"@[1] == 'o');
    assert("documentation"@[2] == 'c');
}


#[verifier::rlimit(50)]
proof fn lk_shape_members(x: Shape, pol: DocPolicy)
    ensures
        lookup(enc_shape(x, pol)->Obj_0, "members"@) == (ref_map_field(x.members, pol)),
{
    broadcast use lemma_lookup_append;
    broadcast use lemma_lookup_entry;
    broadcast use lemma_first_unknown_append;
    broadcast use lemma_first_unknown_entry;

    reveal_strlit("type");
    assert("type"@.len() == 4);
    assert("type"@[0] == 't');
    assert("type"@[1] == 'y');
    assert("type"@[2] == 'p');
    reveal_strlit("box");
    assert("box"@.len() == 3);
    assert("box"@[0] == 'b');
    assert("box"@[1] == 'o');
    assert("box"@[2] == 'x');
    reveal_strlit("event");
    assert("event"@.len() == 5);
    assert("event"@[0] == 'e');
    assert("event"@[1] == 'v');
    assert("event"@[2] == 'e');
    reveal_strlit("eventstream");
    assert("eventstream"@.len() == 11);
    assert("eventstream"@[0] == 'e');
    assert("eventstream"@[1] == 'v');
    assert("eventstream"@[2] == 'e');
    reveal_strlit("flattened");
    assert("flattened"@.len() == 9);
    assert("flattened"@[0] == 'f');
    assert("flattened"@[1] == 'l');
    assert("flattened"@[2] == 'a');
    reveal_strlit("sensitive");
    assert("sensitive"@.len() == 9);
    assert("sensitive"@[0] == 's');
    assert("sensitive"@[1] == 'e');
    assert("sensitive"@[2] == 'n');
    reveal_strlit("wrapper");
    assert("wrapper"@.len() == 7);
    assert("wrapper"@[0] == 'w');
    assert("wrapper"@[1] == 'r');
    assert("wrapper"@[2] == 'a');
    reveal_strlit("locationName");
    assert("locationName"@.len() == 12);
    assert("locationName"@[0] == 'l');
    assert("locationName"@[1] == 'o');
    assert("locationName"@[2] == 'c');
    reveal_strlit("xmlNamespace");
    assert("xmlNamespace"@.len() == 12);
    assert("xmlNamespace"@[0] == 'x');
    assert("xmlNamespace"@[1] == 'm');
    assert("xmlNamespace"@[2] == 'l');
    reveal_strlit("deprecated");
    assert("deprecated"@.len() == 10);
    assert("deprecated"@[0] == 'd');
    assert("deprecated"@[1] == 'e');
    assert("deprecated"@[2] == 'p');
    reveal_strlit("deprecatedMessage");
    assert("deprecatedMessage"@.len() == 17);
    assert("deprecatedMessage"@[0] == 'd');
    assert("deprecatedMessage"@[1] == 'e');
    assert("deprecatedMessage"@[2] == 'p');
    reveal_strlit("min");
    assert("min"@.len() == 3);
    assert("min"@[0] == 'm');
    assert("min"@[1] == 'i');
    assert("min"@[2] == 'n');
    reveal_strlit("max");
    assert("max"@.len() == 3);
    assert("max"@[0] == 'm');
    assert("max"@[1] == 'a');
    assert("max"@[2] == 'x');
    reveal_strlit("enum");
    assert("enum"@.len() == 4);
    assert("enum"@[0] == 'e');
    assert("enum"@[1] == 'n');
    assert("enum"@[2] == 'u');
    reveal_strlit("pattern");
    assert("pattern"@.len() == 7);
    assert("pattern"@[0] == 'p');
    assert("pattern"@[1] == 'a');
    assert("pattern"@[2] == 't');
    reveal_strlit("timestampFormat");
    assert("timestampFormat"@.len() == 15);
    assert("timestampFormat"@[0] == 't');
    assert("timestampFormat"@[1] == 'i');
    assert("timestampFormat"@[2] == 'm');
    reveal_strlit("key");
    assert("key"@.len() == 3);
    assert("key"@[0] == 'k');
    assert("key"@[1] == 'e');
    assert("key"@[2] == 'y');
    reveal_strlit("value");
    assert("value"@.len() == 5);
    assert("value"@[0] == 'v');
    assert("value"@[1] == 'a');
    assert("value"@[2] == 'l');
    reveal_strlit("error");
    assert("error"@.len() == 5);
    assert("error"@[0] == 'e');
    assert("error"@[1] == 'r');
    assert("error"@[2] == 'r');
    reveal_strlit("exception");
    assert("exception"@.len() == 9);
    assert("exception"@[0] == 'e');
    assert("exception"@[1] == 'x');
    assert("exception"@[2] == 'c');
    reveal_strlit("fault");
    assert("fault"@.len() == 5);
    assert("fault"@[0] == 'f');
    assert("fault"@[1] == 'a');
    assert("fault"@[2] == 'u');
    reveal_strlit("required");
    assert("required"@.len() == 8);
    assert("required"@[0] == 'r');
    assert("required"@[1] == 'e');
    assert("required"@[2] == 'q');
    reveal_strlit("member");
    assert("member"@.len() == 6);
    assert("member"@[0] == 'm');
    assert("member"@[1] == 'e');
    assert("member"@[2] == 'm');
    reveal_strlit("members");
    assert("members"@.len() == 7);
    assert("members"@[0] == 'm');
    assert("members"@[1] == 'e');
    assert("members"@[2] == 'm');
    reveal_strlit("payload");
    assert("payload"@.len() == 7);
    assert("payload"@[0] == 'p');
    assert("payload"@[1] == 'a');
    assert("payload"@[2] == 'y');
    reveal_strlit("documentation");
    assert("documentation"@.len() == 13);
    assert("documentation"@[0] == 'd');
    assert("documentation"@[1] == 'o');
    assert("documentation"@[2] == 'c');
}


#[verifier::rlimit(50)]
proof fn lk_shape_payload(x: Shape, pol: DocPolicy)
    ensures
        lookup(enc_shape(x, pol)->Obj_0, "payload"@) == (str_field(x.payload)),
{
    broadcast use lemma_lookup_append;
    broadcast use lemma_lookup_entry;
    broadcast use lemma_first_unknown_append;
    broadcast use lemma_first_unknown_entry;

    reveal_strlit("type");
    assert("type"@.len() == 4);
    assert("type"@[0] == 't');
    assert("type"@[1] == 'y');
    assert("type"@[2] == 'p');
    reveal_strlit("box");
    assert("box"@.len() == 3);
    assert("box"@[0] == 'b');
    assert("box"@[1] == 'o');
    assert("box"@[2] == 'x');
    reveal_strlit("event");
    assert("event"@.len() == 5);
    assert("event"@[0] == 'e');
    assert("event"@[1] == 'v');
    assert("event"@[2] == 'e');
    reveal_strlit("eventstream");
    assert("eventstream"@.len() == 11);
    assert("eventstream"@[0] == 'e');
    assert("eventstream"@[1] == 'v');
    assert("eventstream"@[2] == 'e');
    reveal_strlit("flattened");
    assert("flattened"@.len() == 9);
    assert("flattened"@[0] == 'f');
    assert("flattened"@[1] == 'l');
    assert("flattened"@[2] == 'a');
    reveal_strlit("sensitive");
    assert("sensitive"@.len() == 9);
    assert("sensitive"@[0] == 's');
    assert("sensitive"@[1] == 'e');
    assert("sensitive"@[2] == 'n');
    reveal_strlit("wrapper");
    assert("wrapper"@.len() == 7);
    assert("wrapper"@[0] == 'w');
    assert("wrapper"@[1] == 'r');
    assert("wrapper"@[2] == 'a');
    reveal_strlit("locationName");
    assert("locationName"@.len() == 12);
    assert("locationName"@[0] == 'l');
    assert("locationName"@[1] == 'o');
    assert("locationName"@[2] == 'c');
    reveal_strlit("xmlNamespace");
    assert("xmlNamespace"@.len() == 12);
    assert("xmlNamespace"@[0] == 'x');
    assert("xmlNamespace"@[1] == 'm');
    assert("xmlNamespace"@[2] == 'l');
    reveal_strlit("deprecated");
    assert("deprecated"@.len() == 10);
    assert("deprecated"@[0] == 'd');
    assert("deprecated"@[1] == 'e');
    assert("deprecated"@[2] == 'p');
    reveal_strlit("deprecatedMessage");
    assert("deprecatedMessage"@.len() == 17);
    assert("deprecatedMessage"@[0] == 'd');
    assert("deprecatedMessage"@[1] == 'e');
    assert("deprecatedMessage"@[2] == 'p');
    reveal_strlit("min");
    assert("min"@.len() == 3);
    assert("min"@[0] == 'm');
    assert("min"@[1] == 'i');
    assert("min"@[2] == 'n');
    reveal_strlit("max");
    assert("max"@.len() == 3);
    assert("max"@[0] == 'm');
    assert("max"@[1] == 'a');
    assert("max"@[2] == 'x');
    reveal_strlit("enum");
    assert("enum"@.len() == 4);
    assert("enum"@[0] == 'e');
    assert("enum"@[1] == 'n');
    assert("enum"@[2] == 'u');
    reveal_strlit("pattern");
    assert("pattern"@.len() == 7);
    assert("pattern"@[0] == 'p');
    assert("pattern"@[1] == 'a');
    assert("pattern"@[2] == 't');
    reveal_strlit("timestampFormat");
    assert("timestampFormat"@.len() == 15);
    assert("timestampFormat"@[0] == 't');
    assert("timestampFormat"@[1] == 'i');
    assert("timestampFormat"@[2] == 'm');
    reveal_strlit("key");
    assert("key"@.len() == 3);
    assert("key"@[0] == 'k');
    assert("key"@[1] == 'e');
    assert("key"@[2] == 'y');
    reveal_strlit("value");
    assert("value"@.len() == 5);
    assert("value"@[0] == 'v');
    assert("value"@[1] == 'a');
    assert("value"@[2] == 'l');
    reveal_strlit("error");
    assert("error"@.len() == 5);
    assert("error"@[0] == 'e');
    assert("error"@[1] == 'r');
    assert("error"@[2] == 'r');
    reveal_strlit("exception");
    assert("exception"@.len() == 9);
    assert("exception"@[0] == 'e');
    assert("exception"@[1] == 'x');
    assert("exception"@[2] == 'c');
    reveal_strlit("fault");
    assert("fault"@.len() == 5);
    assert("fault"@[0] == 'f');
    assert("fault"@[1] == 'a');
    assert("fault"@[2] == 'u');
    reveal_strlit("required");
    assert("required"@.len() == 8);
    assert("required"@[0] == 'r');
    assert("required"@[1] == 'e');
    assert("required"@[2] == 'q');
    reveal_strlit("member");
    assert("member"@.len() == 6);
    assert("member"@[0] == 'm');
    assert("member"@[1] == 'e');
    assert("member"@[2] == 'm');
    reveal_strlit("members");
    assert("members"@.len() == 7);
    assert("members"@[0] == 'm');
    assert("members"@[1] == 'e');
    assert("members"@[2] == 'm');
    reveal_strlit("payload");
    assert("payload"@.len() == 7);
    assert("payload"@[0] == 'p');
    assert("payload"@[1] == 'a');
    assert("payload"@[2] == 'y');
    reveal_strlit("documentation");
    assert("documentation"@.len() == 13);
    assert("documentation"@[0] == 'd');
    assert("documentation"@[1] == 'o');
    assert("documentation"@[2] == 'c');
}


#[verifier::rlimit(50)]
proof fn lk_shape_documentation(x: Shape, pol: DocPolicy)
    ensures
        lookup(enc_shape(x, pol)->Obj_0, "documentation"@) == (doc_field(x.documentation.documentation, pol)),
{
    broadcast use lemma_lookup_append;
    broadcast use lemma_lookup_entry;
    broadcast use lemma_first_unknown_append;
    broadcast use lemma_first_unknown_entry;

    reveal_strlit("type");
    assert("type"@.len() == 4);
    assert("type"@[0] == 't');
    assert("type"@[1] == 'y');
    assert("type"@[2] == 'p');
    reveal_strlit("box");
    assert("box"@.len() == 3);
    assert("box"@[0] == 'b');
    assert("box"@[1] == 'o');
    assert("box"@[2] == 'x');
    reveal_strlit("event");
    assert("event"@.len() == 5);
    assert("event"@[0] == 'e');
    assert("event"@[1] == 'v');
    assert("event"@[2] == 'e');
    reveal_strlit("eventstream");
    assert("eventstream"@.len() == 11);
    assert("eventstream"@[0] == 'e');
    assert("eventstream"@[1] == 'v');
    assert("eventstream"@[2] == 'e');
    reveal_strlit("flattened");
    assert("flattened"@.len() == 9);
    assert("flattened"@[0] == 'f');
    assert("flattened"@[1] == 'l');
    assert("flattened"@[2] == 'a');
    reveal_strlit("sensitive");
    assert("sensitive"@.len() == 9);
    assert("sensitive"@[0] == 's');
    assert("sensitive"@[1] == 'e');
    assert("sensitive"@[2] == 'n');
    reveal_strlit("wrapper");
    assert("wrapper"@.len() == 7);
    assert("wrapper"@[0] == 'w');
    assert("wrapper"@[1] == 'r');
    assert("wrapper"@[2] == 'a');
    reveal_strlit("locationName");
    assert("locationName"@.len() == 12);
    assert("locationName"@[0] == 'l');
    assert("locationName"@[1] == 'o');
    assert("locationName"@[2] == 'c');
    reveal_strlit("xmlNamespace");
    assert("xmlNamespace"@.len() == 12);
    assert("xmlNamespace"@[0] == 'x');
    assert("xmlNamespace"@[1] == 'm');
    assert("xmlNamespace"@[2] == 'l');
    reveal_strlit("deprecated");
    assert("deprecated"@.len() == 10);
    assert("deprecated"@[0] == 'd');
    assert("deprecated"@[1] == 'e');
    assert("deprecated"@[2] == 'p');
    reveal_strlit("deprecatedMessage");
    assert("deprecatedMessage"@.len() == 17);
    assert("deprecatedMessage"@[0] == 'd');
    assert("deprecatedMessage"@[1] == 'e');
    assert("deprecatedMessage"@[2] == 'p');
    reveal_strlit("min");
    assert("min"@.len() == 3);
    assert("min"@[0] == 'm');
    assert("min"@[1] == 'i');
    assert("min"@[2] == 'n');
    reveal_strlit("max");
    assert("max"@.len() == 3);
    assert("max"@[0] == 'm');
    assert("max"@[1] == 'a');
    assert("max"@[2] == 'x');
    reveal_strlit("enum");
    assert("enum"@.len() == 4);
    assert("enum"@[0] == 'e');
    assert("enum"@[1] == 'n');
    assert("enum"@[2] == 'u');
    reveal_strlit("pattern");
    assert("pattern"@.len() == 7);
    assert("pattern"@[0] == 'p');
    assert("pattern"@[1] == 'a');
    assert("pattern"@[2] == 't');
    reveal_strlit("timestampFormat");
    assert("timestampFormat"@.len() == 15);
    assert("timestampFormat"@[0] == 't');
    assert("timestampFormat"@[1] == 'i');
    assert("timestampFormat"@[2] == 'm');
    reveal_strlit("key");
    assert("key"@.len() == 3);
    assert("key"@[0] == 'k');
    assert("key"@[1] == 'e');
    assert("key"@[2] == 'y');
    reveal_strlit("value");
    assert("value"@.len() == 5);
    assert("value"@[0] == 'v');
    assert("value"@[1] == 'a');
    assert("value"@[2] == 'l');
    reveal_strlit("error");
    assert("error"@.len() == 5);
    assert("error"@[0] == 'e');
    assert("error"@[1] == 'r');
    assert("error"@[2] == 'r');
    reveal_strlit("exception");
    assert("exception"@.len() == 9);
    assert("exception"@[0] == 'e');
    assert("exception"@[1] == 'x');
    assert("exception"@[2] == 'c');
    reveal_strlit("fault");
    assert("fault"@.len() == 5);
    assert("fault"@[0] == 'f');
    assert("fault"@[1] == 'a');
    assert("fault"@[2] == 'u');
    reveal_strlit("required");
    assert("required"@.len() == 8);
    assert("required"@[0] == 'r');
    assert("required"@[1] == 'e');
    assert("required"@[2] == 'q');
    reveal_strlit("member");
    assert("member"@.len() == 6);
    assert("member"@[0] == 'm');
    assert("member"@[1] == 'e');
    assert("member"@[2] == 'm');
    reveal_strlit("members");
    assert("members"@.len() == 7);
    assert("members"@[0] == 'm');
    assert("members"@[1] == 'e');
    assert("members"@[2] == 'm');
    reveal_strlit("payload");
    assert("payload"@.len() == 7);
    assert("payload"@[0] == 'p');
    assert("payload"@[1] == 'a');
    assert("payload"@[2] == 'y');
    reveal_strlit("documentation");
    assert("documentation"@.len() == 13);
    assert("documentation"@[0] == 'd');
    assert("documentation"@[1] == 'o');
    assert("documentation"@[2] == 'c');
}


#[verifier::rlimit(50)]
proof fn nounknown_shape(x: Shape, pol: DocPolicy)
    ensures
        first_unknown(enc_shape(x, pol)->Obj_0, shape_allowed()) is None,
{
    broadcast use lemma_lookup_append;
    broadcast use lemma_lookup_entry;
    broadcast use lemma_first_unknown_append;
    broadcast use lemma_first_unknown_entry;

    reveal_strlit("type");
    assert("type"@.len() == 4);
    assert("type"@[0] == 't');
    assert("type"@[1] == 'y');
    assert("type"@[2] == 'p');
    reveal_strlit("box");
    assert("box"@.len() == 3);
    assert("box"@[0] == 'b');
    assert("box"@[1] == 'o');
    assert("box"@[2] == 'x');
    reveal_strlit("event");
    assert("event"@.len() == 5);
    assert("event"@[0] == 'e');
    assert("event"@[1] == 'v');
    assert("event"@[2] == 'e');
    reveal_strlit("eventstream");
    assert("eventstream"@.len() == 11);
    assert("eventstream"@[0] == 'e');
    assert("eventstream"@[1] == 'v');
    assert("eventstream"@[2] == 'e');
    reveal_strlit("flattened");
    assert("flattened"@.len() == 9);
    assert("flattened"@[0] == 'f');
    assert("flattened"@[1] == 'l');
    assert("flattened"@[2] == 'a');
    reveal_strlit("sensitive");
    assert("sensitive"@.len() == 9);
    assert("sensitive"@[0] == 's');
    assert("sensitive"@[1] == 'e');
    assert("sensitive"@[2] == 'n');
    reveal_strlit("wrapper");
    assert("wrapper"@.len() == 7);
    assert("wrapper"@[0] == 'w');
    assert("wrapper"@[1] == 'r');
    assert("wrapper"@[2] == 'a');
    reveal_strlit("locationName");
    assert("locationName"@.len() == 12);
    assert("locationName"@[0] == 'l');
    assert("locationName"@[1] == 'o');
    assert("locationName"@[2] == 'c');
    reveal_strlit("xmlNamespace");
    assert("xmlNamespace"@.len() == 12);
    assert("xmlNamespace"@[0] == 'x');
    assert("xmlNamespace"@[1] == 'm');
    assert("xmlNamespace"@[2] == 'l');
    reveal_strlit("deprecated");
    assert("deprecated"@.len() == 10);
    assert("deprecated"@[0] == 'd');
    assert("deprecated"@[1] == 'e');
    assert("deprecated"@[2] == 'p');
    reveal_strlit("deprecatedMessage");
    assert("deprecatedMessage"@.len() == 17);
    assert("deprecatedMessage"@[0] == 'd');
    assert("deprecatedMessage"@[1] == 'e');
    assert("deprecatedMessage"@[2] == 'p');
    reveal_strlit("min");
    assert("min"@.len() == 3);
    assert("min"@[0] == 'm');
    assert("min"@[1] == 'i');
    assert("min"@[2] == 'n');
    reveal_strlit("max");
    assert("max"@.len() == 3);
    assert("max"@[0] == 'm');
    assert("max"@[1] == 'a');
    assert("max"@[2] == 'x');
    reveal_strlit("enum");
    assert("enum"@.len() == 4);
    assert("enum"@[0] == 'e');
    assert("enum"@[1] == 'n');
    assert("enum"@[2] == 'u');
    reveal_strlit("pattern");
    assert("pattern"@.len() == 7);
    assert("pattern"@[0] == 'p');
    assert("pattern"@[1] == 'a');
    assert("pattern"@[2] == 't');
    reveal_strlit("timestampFormat");
    assert("timestampFormat"@.len() == 15);
    assert("timestampFormat"@[0] == 't');
    assert("timestampFormat"@[1] == 'i');
    assert("timestampFormat"@[2] == 'm');
    reveal_strlit("key");
    assert("key"@.len() == 3);
    assert("key"@[0] == 'k');
    assert("key"@[1] == 'e');
    assert("key"@[2] == 'y');
    reveal_strlit("value");
    assert("value"@.len() == 5);
    assert("value"@[0] == 'v');
    assert("value"@[1] == 'a');
    assert("value"@[2] == 'l');
    reveal_strlit("error");
    assert("error"@.len() == 5);
    assert("error"@[0] == 'e');
    assert("error"@[1] == 'r');
    assert("error"@[2] == 'r');
    reveal_strlit("exception");
    assert("exception"@.len() == 9);
    assert("exception"@[0] == 'e');
    assert("exception"@[1] == 'x');
    assert("exception"@[2] == 'c');
    reveal_strlit("fault");
    assert("fault"@.len() == 5);
    assert("fault"@[0] == 'f');
    assert("fault"@[1] == 'a');
    assert("fault"@[2] == 'u');
    reveal_strlit("required");
    assert("required"@.len() == 8);
    assert("required"@[0] == 'r');
    assert("required"@[1] == 'e');
    assert("required"@[2] == 'q');
    reveal_strlit("member");
    assert("member"@.len() == 6);
    assert("member"@[0] == 'm');
    assert("member"@[1] == 'e');
    assert("member"@[2] == 'm');
    reveal_strlit("members");
    assert("members"@.len() == 7);
    assert("members"@[0] == 'm');
    assert("members"@[1] == 'e');
    assert("members"@[2] == 'm');
    reveal_strlit("payload");
    assert("payload"@.len() == 7);
    assert("payload"@[0] == 'p');
    assert("payload"@[1] == 'a');
    assert("payload"@[2] == 'y');
    reveal_strlit("documentation");
    assert("documentation"@.len() == 13);
    assert("documentation"@[0] == 'd');
    assert("documentation"@[1] == 'o');
    assert("documentation"@[2] == 'c');
}


proof fn lk_service_version(x: Service, pol: DocPolicy)
    ensures
        lookup(enc_service(x, pol)->Obj_0, "version"@) == (str_field(x.version)),
{
    broadcast use lemma_lookup_append;
    broadcast use lemma_lookup_entry;
    broadcast use lemma_first_unknown_append;
    broadcast use lemma_first_unknown_entry;

    reveal_strlit("version");
    assert("version"@ =~= seq!['v', 'e', 'r', 's', 'i', 'o', 'n']);
    reveal_strlit("documentation");
    assert("documentation"@ =~= seq!['d', 'o', 'c', 'u', 'm', 'e', 'n', 't', 'a', 't', 'i', 'o', 'n']);
    reveal_strlit("metadata");
    assert("metadata"@ =~= seq!['m', 'e', 't', 'a', 'd', 'a', 't', 'a']);
    reveal_strlit("operations");
    assert("operations"@ =~= seq!['o', 'p', 'e', 'r', 'a', 't', 'i', 'o', 'n', 's']);
    reveal_strlit("shapes");
    assert("shapes"@ =~= seq!['s', 'h', 'a', 'p', 'e', 's']);
}


proof fn lk_service_documentation(x: Service, pol: DocPolicy)
    ensures
        lookup(enc_service(x, pol)->Obj_0, "documentation"@) == (doc_field(x.documentation.documentation, pol)),
{
    broadcast use lemma_lookup_append;
    broadcast use lemma_lookup_entry;
    broadcast use lemma_first_unknown_append;
    broadcast use lemma_first_unknown_entry;

    reveal_strlit("version");
    assert("version"@ =~= seq!['v', 'e', 'r', 's', 'i', 'o', 'n']);
    reveal_strlit("documentation");
    assert("documentation"@ =~= seq!['d', 'o', 'c', 'u', 'm', 'e', 'n', 't', 'a', 't', 'i', 'o', 'n']);
    reveal_strlit("metadata");
    assert("metadata"@ =~= seq!['m', 'e', 't', 'a', 'd', 'a', 't', 'a']);
    reveal_strlit("operations");
    assert("operations"@ =~= seq!['o', 'p', 'e', 'r', 'a', 't', 'i', 'o', 'n', 's']);
    reveal_strlit("shapes");
    assert("shapes"@ =~= seq!['s', 'h', 'a', 'p', 'e', 's']);
}


proof fn lk_service_metadata(x: Service, pol: DocPolicy)
    ensures
        lookup(enc_service(x, pol)->Obj_0, "metadata"@) == (match x.metadata {
            None => None,
            Some(m) => Some(enc_metadata(m)),
        }),
{
    broadcast use lemma_lookup_append;
    broadcast use lemma_lookup_entry;
    broadcast use lemma_first_unknown_append;
    broadcast use lemma_first_unknown_entry;

    reveal_strlit("version");
    assert("version"@ =~= seq!['v', 'e', 'r', 's', 'i', 'o', 'n']);
    reveal_strlit("documentation");
    assert("documentation"@ =~= seq!['d', 'o', 'c', 'u', 'm', 'e', 'n', 't', 'a', 't', 'i', 'o', 'n']);
    reveal_strlit("metadata");
    assert("metadata"@ =~= seq!['m', 'e', 't', 'a', 'd', 'a', 't', 'a']);
    reveal_strlit("operations");
    assert("operations"@ =~= seq!['o', 'p', 'e', 'r', 'a', 't', 'i', 'o', 'n', 's']);
    reveal_strlit("shapes");
    assert("shapes"@ =~= seq!['s', 'h', 'a', 'p', 'e', 's']);
}


proof fn lk_service_operations(x: Service, pol: DocPolicy)
    ensures
        lookup(enc_service(x, pol)->Obj_0, "operations"@) == (op_map_field(x.operations, pol)),
{
    broadcast use lemma_lookup_append;
    broadcast use lemma_lookup_entry;
    broadcast use lemma_first_unknown_append;
    broadcast use lemma_first_unknown_entry;

    reveal_strlit("version");
    assert("version"@ =~= seq!['v', 'e', 'r', 's', 'i', 'o', 'n']);
    reveal_strlit("documentation");
    assert("documentation"@ =~= seq!['d', 'o', 'c', 'u', 'm', 'e', 'n', 't', 'a', 't', 'i', 'o', 'n']);
    reveal_strlit("metadata");
    assert("metadata"@ =~= seq!['m', 'e', 't', 'a', 'd', 'a', 't', 'a']);
    reveal_strlit("operations");
    assert("operations"@ =~= seq!['o', 'p', 'e', 'r', 'a', 't', 'i', 'o', 'n', 's']);
    reveal_strlit("shapes");
    assert("shapes"@ =~= seq!['s', 'h', 'a', 'p', 'e', 's']);
}


proof fn lk_service_shapes(x: Service, pol: DocPolicy)
    ensures
        lookup(enc_service(x, pol)->Obj_0, "shapes"@) == (shape_map_field(x.shapes, pol)),
{
    broadcast use lemma_lookup_append;
    broadcast use lemma_lookup_entry;
    broadcast use lemma_first_unknown_append;
    broadcast use lemma_first_unknown_entry;

    reveal_strlit("version");
    assert("version"@ =~= seq!['v', 'e', 'r', 's', 'i', 'o', 'n']);
    reveal_strlit("documentation");
    assert("documentation"@ =~= seq!['d', 'o', 'c', 'u', 'm', 'e', 'n', 't', 'a', 't', 'i', 'o', 'n']);
    reveal_strlit("metadata");
    assert("metadata"@ =~= seq!['m', 'e', 't', 'a', 'd', 'a', 't', 'a']);
    reveal_strlit("operations");
    assert("operations"@ =~= seq!['o', 'p', 'e', 'r', 'a', 't', 'i', 'o', 'n', 's']);
    reveal_strlit("shapes");
    assert("shapes"@ =~= seq!['s', 'h', 'a', 'p', 'e', 's']);
}


proof fn nounknown_service(x: Service, pol: DocPolicy)
    ensures
        first_unknown(enc_service(x, pol)->Obj_0, service_allowed()) is None,
{
    broadcast use lemma_lookup_append;
    broadcast use lemma_lookup_entry;
    broadcast use lemma_first_unknown_append;
    broadcast use lemma_first_unknown_entry;

    reveal_strlit("version");
    assert("version"@ =~= seq!['v', 'e', 'r', 's', 'i', 'o', 'n']);
    reveal_strlit("documentation");
    assert("documentation"@ =~= seq!['d', 'o', 'c', 'u', 'm', 'e', 'n', 't', 'a', 't', 'i', 'o', 'n']);
    reveal_strlit("metadata");
    assert("metadata"@ =~= seq!['m', 'e', 't', 'a', 'd', 'a', 't', 'a']);
    reveal_strlit("operations");
    assert("operations"@ =~= seq!['o', 'p', 'e', 'r', 'a', 't', 'i', 'o', 'n', 's']);
    reveal_strlit("shapes");
    assert("shapes"@ =~= seq!['s', 'h', 'a', 'p', 'e', 's']);
}


proof fn lemma_map_scan_ok_shape_ref(pairs: Seq<(Seq<char>, JsonVal)>, seen: Set<Seq<char>>)
    requires
        forall|i: int| 0 <= i < pairs.len() ==> ok_shape_ref((#[trigger] pairs[i]).1),
        forall|i: int, j: int|
            0 <= i < j < pairs.len() ==> (#[trigger] pairs[i]).0 != (#[trigger] pairs[j]).0,
        forall|i: int| 0 <= i < pairs.len() ==> !seen.contains((#[trigger] pairs[i]).0),
    ensures
        map_scan_shape_ref(pairs, seen) is None,
    decreases pairs.len(),
{
    if pairs.len() > 0 {
        let rest = pairs.skip(1);
        assert forall|i: int| 0 <= i < rest.len() implies ok_shape_ref((#[trigger] rest[i]).1) by {
            assert(rest[i] == pairs[i + 1]);
        }
        assert forall|i: int, j: int|
            0 <= i < j < rest.len() implies (#[trigger] rest[i]).0 != (#[trigger] rest[j]).0 by {
            assert(rest[i] == pairs[i + 1]);
            assert(rest[j] == pairs[j + 1]);
        }
        assert forall|i: int| 0 <= i < rest.len() implies !seen.insert(pairs[0].0).contains(
            (#[trigger] rest[i]).0,
        ) by {
            assert(rest[i] == pairs[i + 1]);
        }
        lemma_map_scan_ok_shape_ref(rest, seen.insert(pairs[0].0));
    }
}


proof fn lemma_map_scan_ok_operation(pairs: Seq<(Seq<char>, JsonVal)>, seen: Set<Seq<char>>)
    requires
        forall|i: int| 0 <= i < pairs.len() ==> ok_operation((#[trigger] pairs[i]).1),
        forall|i: int, j: int|
            0 <= i < j < pairs.len() ==> (#[trigger] pairs[i]).0 != (#[trigger] pairs[j]).0,
        forall|i: int| 0 <= i < pairs.len() ==> !seen.contains((#[trigger] pairs[i]).0),
    ensures
        map_scan_operation(pairs, seen) is None,
    decreases pairs.len(),
{
    if pairs.len() > 0 {
        let rest = pairs.skip(1);
        assert forall|i: int| 0 <= i < rest.len() implies ok_operation((#[trigger] rest[i]).1) by {
            assert(rest[i] == pairs[i + 1]);
        }
        assert forall|i: int, j: int|
            0 <= i < j < rest.len() implies (#[trigger] rest[i]).0 != (#[trigger] rest[j]).0 by {
            assert(rest[i] == pairs[i + 1]);
            assert(rest[j] == pairs[j + 1]);
        }
        assert forall|i: int| 0 <= i < rest.len() implies !seen.insert(pairs[0].0).contains(
            (#[trigger] rest[i]).0,
        ) by {
            assert(rest[i] == pairs[i + 1]);
        }
        lemma_map_scan_ok_operation(rest, seen.insert(pairs[0].0));
    }
}


proof fn lemma_map_scan_ok_shape(pairs: Seq<(Seq<char>, JsonVal)>, seen: Set<Seq<char>>)
    requires
        forall|i: int| 0 <= i < pairs.len() ==> ok_shape((#[trigger] pairs[i]).1),
        forall|i: int, j: int|
            0 <= i < j < pairs.len() ==> (#[trigger] pairs[i]).0 != (#[trigger] pairs[j]).0,
        forall|i: int| 0 <= i < pairs.len() ==> !seen.contains((#[trigger] pairs[i]).0),
    ensures
        map_scan_shape(pairs, seen) is None,
    decreases pairs.len(),
{
    if pairs.len() > 0 {
        let rest = pairs.skip(1);
        assert forall|i: int| 0 <= i < rest.len() implies ok_shape((#[trigger] rest[i]).1) by {
            assert(rest[i] == pairs[i + 1]);
        }
        assert forall|i: int, j: int|
            0 <= i < j < rest.len() implies (#[trigger] rest[i]).0 != (#[trigger] rest[j]).0 by {
            assert(rest[i] == pairs[i + 1]);
            assert(rest[j] == pairs[j + 1]);
        }
        assert forall|i: int| 0 <= i < rest.len() implies !seen.insert(pairs[0].0).contains(
            (#[trigger] rest[i]).0,
        ) by {
            assert(rest[i] == pairs[i + 1]);
        }
        lemma_map_scan_ok_shape(rest, seen.insert(pairs[0].0));
    }
}


/// Encoding a `Metadata` decodes back to an equal value.
#[verifier::rlimit(100)]
pub proof fn lemma_round_trip_metadata(x: Metadata, y: Metadata)
    ensures
        ok_metadata(enc_metadata(x)),
        rel_metadata(enc_metadata(x), y) ==> eq_metadata(y, x),
{
    lk_metadata_apiversion(x);
    lk_metadata_jsonversion(x);
    lk_metadata_endpointprefix(x);
    lk_metadata_globalendpoint(x);
    lk_metadata_protocol(x);
    lk_metadata_serviceabbreviation(x);
    lk_metadata_servicefullname(x);
    lk_metadata_serviceid(x);
    lk_metadata_checksumformat(x);
    lk_metadata_timestampformat(x);
    lk_metadata_signatureversion(x);
    lk_metadata_signingname(x);
    lk_metadata_targetprefix(x);
    lk_metadata_xmlnamespace(x);
    lk_metadata_uid(x);
    nounknown_metadata(x);
}


/// Encoding a `ShapeRef` with documentation included decodes back to an
/// equal value.
#[verifier::rlimit(100)]
pub proof fn lemma_round_trip_shape_ref(x: ShapeRef, y: ShapeRef)
    ensures
        ok_shape_ref(enc_shape_ref(x, DocPolicy::Include)),
        rel_shape_ref(enc_shape_ref(x, DocPolicy::Include), y) ==> eq_shape_ref(y, x),
{
    lk_shape_ref_shape(x, DocPolicy::Include);
    lk_shape_ref_box(x, DocPolicy::Include);
    lk_shape_ref_deprecated(x, DocPolicy::Include);
    lk_shape_ref_eventpayload(x, DocPolicy::Include);
    lk_shape_ref_flattened(x, DocPolicy::Include);
    lk_shape_ref_idempotencytoken(x, DocPolicy::Include);
    lk_shape_ref_streaming(x, DocPolicy::Include);
    lk_shape_ref_location(x, DocPolicy::Include);
    lk_shape_ref_locationname(x, DocPolicy::Include);
    lk_shape_ref_queryname(x, DocPolicy::Include);
    lk_shape_ref_xmlattribute(x, DocPolicy::Include);
    lk_shape_ref_xmlnamespace(x, DocPolicy::Include);
    lk_shape_ref_documentation(x, DocPolicy::Include);
    nounknown_shape_ref(x, DocPolicy::Include);
    match x.xml_namespace {
        Some(n) => {
            lemma_round_trip_xml_namespace(n, n);
        },
        None => {},
    }
    if rel_shape_ref(enc_shape_ref(x, DocPolicy::Include), y) {
        match (x.xml_namespace, y.xml_namespace) {
            (Some(a), Some(b)) => {
                lemma_round_trip_xml_namespace(a, b);
            },
            _ => {},
        }
    }
}


/// Encoding an `Operation` with documentation included decodes back to an
/// equal value.
#[verifier::rlimit(100)]
pub proof fn lemma_round_trip_operation(x: Operation, y: Operation)
    ensures
        ok_operation(enc_operation(x, DocPolicy::Include)),
        rel_operation(enc_operation(x, DocPolicy::Include), y) ==> eq_operation(y, x),
{
    lk_operation_name(x, DocPolicy::Include);
    lk_operation_alias(x, DocPolicy::Include);
    lk_operation_deprecated(x, DocPolicy::Include);
    lk_operation_endpointdiscovery(x, DocPolicy::Include);
    lk_operation_endpointoperation(x, DocPolicy::Include);
    lk_operation_idempotent(x, DocPolicy::Include);
    lk_operation_http(x, DocPolicy::Include);
    lk_operation_input(x, DocPolicy::Include);
    lk_operation_output(x, DocPolicy::Include);
    lk_operation_errors(x, DocPolicy::Include);
    lk_operation_documentation(x, DocPolicy::Include);
    lk_operation_documentationurl(x, DocPolicy::Include);
    nounknown_operation(x, DocPolicy::Include);
    match x.endpointdiscovery {
        Some(d) => {
            lemma_round_trip_endpoint_discovery(d);
        },
        None => {},
    }
    match x.http {
        Some(h) => {
            lemma_round_trip_http_operation(h, h);
        },
        None => {},
    }
    match x.input {
        Some(m) => {
            lemma_round_trip_message(m, m);
        },
        None => {},
    }
    match x.output {
        Some(m) => {
            lemma_round_trip_message(m, m);
        },
        None => {},
    }
    match x.errors {
        Some(xa) => {
            let arr = refs_field(x.errors, DocPolicy::Include)->Some_0->Arr_0;
            assert forall|j: int| 0 <= j < arr.len() implies ok_shape_ref(#[trigger] arr[j]) by {
                assert(arr[j] == enc_shape_ref(xa@[j], DocPolicy::Include));
                lemma_round_trip_shape_ref(xa@[j], xa@[j]);
            }
        },
        None => {},
    }
    if rel_operation(enc_operation(x, DocPolicy::Include), y) {
        match (x.http, y.http) {
            (Some(a), Some(b)) => {
                lemma_round_trip_http_operation(a, b);
            },
            _ => {},
        }
        match (x.input, y.input) {
            (Some(a), Some(b)) => {
                lemma_round_trip_message(a, b);
            },
            _ => {},
        }
        match (x.output, y.output) {
            (Some(a), Some(b)) => {
                lemma_round_trip_message(a, b);
            },
            _ => {},
        }
        match (x.errors, y.errors) {
            (Some(xa), Some(ya)) => {
                let arr = refs_field(x.errors, DocPolicy::Include)->Some_0->Arr_0;
                assert forall|j: int| 0 <= j < xa@.len() implies eq_shape_ref(
                    #[trigger] ya@[j],
                    xa@[j],
                ) by {
                    assert(arr[j] == enc_shape_ref(xa@[j], DocPolicy::Include));
                    assert(rel_shape_ref(arr[j], ya@[j]));
                    lemma_round_trip_shape_ref(xa@[j], ya@[j]);
                }
            },
            _ => {},
        }
    }
}


/// Encoding a `Shape` whose members map binds every key once, with
/// documentation included, decodes back to an equal value. A members map
/// with a key bound twice is the one tree the encoding of which the strict
/// decoder refuses, with a duplicate-key error.
#[verifier::rlimit(100)]
pub proof fn lemma_round_trip_shape(x: Shape, y: Shape)
    requires
        wf_shape(x),
    ensures
        ok_shape(enc_shape(x, DocPolicy::Include)),
        rel_shape(enc_shape(x, DocPolicy::Include), y) ==> eq_shape(y, x),
{
    lk_shape_type(x, DocPolicy::Include);
    lk_shape_box(x, DocPolicy::Include);
    lk_shape_event(x, DocPolicy::Include);
    lk_shape_eventstream(x, DocPolicy::Include);
    lk_shape_flattened(x, DocPolicy::Include);
    lk_shape_sensitive(x, DocPolicy::Include);
    lk_shape_wrapper(x, DocPolicy::Include);
    lk_shape_locationname(x, DocPolicy::Include);
    lk_shape_xmlnamespace(x, DocPolicy::Include);
    lk_shape_deprecated(x, DocPolicy::Include);
    lk_shape_deprecatedmessage(x, DocPolicy::Include);
    lk_shape_min(x, DocPolicy::Include);
    lk_shape_max(x, DocPolicy::Include);
    lk_shape_enum(x, DocPolicy::Include);
    lk_shape_pattern(x, DocPolicy::Include);
    lk_shape_timestampformat(x, DocPolicy::Include);
    lk_shape_key(x, DocPolicy::Include);
    lk_shape_value(x, DocPolicy::Include);
    lk_shape_error(x, DocPolicy::Include);
    lk_shape_exception(x, DocPolicy::Include);
    lk_shape_fault(x, DocPolicy::Include);
    lk_shape_required(x, DocPolicy::Include);
    lk_shape_member(x, DocPolicy::Include);
    lk_shape_members(x, DocPolicy::Include);
    lk_shape_payload(x, DocPolicy::Include);
    lk_shape_documentation(x, DocPolicy::Include);
    nounknown_shape(x, DocPolicy::Include);
    match x.xml_namespace {
        Some(n) => {
            lemma_round_trip_xml_namespace(n, n);
        },
        None => {},
    }
    match x.key {
        Some(r) => {
            lemma_round_trip_shape_ref(r, r);
        },
        None => {},
    }
    match x.value {
        Some(r) => {
            lemma_round_trip_shape_ref(r, r);
        },
        None => {},
    }
    match x.error {
        Some(e) => {
            lemma_round_trip_error(e, e);
        },
        None => {},
    }
    match x.member {
        Some(r) => {
            lemma_round_trip_shape_ref(r, r);
        },
        None => {},
    }
    match x.members {
        Some(xm) => {
            let pairs = ref_map_field(x.members, DocPolicy::Include)->Some_0->Obj_0;
            assert forall|j: int| 0 <= j < pairs.len() implies ok_shape_ref(
                (#[trigger] pairs[j]).1,
            ) by {
                assert(pairs[j] == (xm@[j].0@, enc_shape_ref(xm@[j].1, DocPolicy::Include)));
                lemma_round_trip_shape_ref(xm@[j].1, xm@[j].1);
            }
            assert forall|i: int, j: int|
                0 <= i < j < pairs.len() implies (#[trigger] pairs[i]).0 != (
            #[trigger] pairs[j]).0 by {
                assert(pairs[i] == (xm@[i].0@, enc_shape_ref(xm@[i].1, DocPolicy::Include)));
                assert(pairs[j] == (xm@[j].0@, enc_shape_ref(xm@[j].1, DocPolicy::Include)));
            }
            lemma_map_scan_ok_shape_ref(pairs, Set::empty());
        },
        None => {},
    }
    if rel_shape(enc_shape(x, DocPolicy::Include), y) {
        match (x.xml_namespace, y.xml_namespace) {
            (Some(a), Some(b)) => {
                lemma_round_trip_xml_namespace(a, b);
            },
            _ => {},
        }
        match (x.key, y.key) {
            (Some(a), Some(b)) => {
                lemma_round_trip_shape_ref(a, b);
            },
            _ => {},
        }
        match (x.value, y.value) {
            (Some(a), Some(b)) => {
                lemma_round_trip_shape_ref(a, b);
            },
            _ => {},
        }
        match (x.error, y.error) {
            (Some(a), Some(b)) => {
                lemma_round_trip_error(a, b);
            },
            _ => {},
        }
        match (x.member, y.member) {
            (Some(a), Some(b)) => {
                lemma_round_trip_shape_ref(a, b);
            },
            _ => {},
        }
        match (x.enum_, y.enum_) {
            (Some(l), Some(_)) => {
                assert(got_opt_strs(enc_shape(x, DocPolicy::Include)->Obj_0, "enum"@) matches Some(g)
                    && g =~= l@.map_values(|s: String| s@));
            },
            _ => {},
        }
        match (x.required, y.required) {
            (Some(l), Some(_)) => {
                assert(got_opt_strs(enc_shape(x, DocPolicy::Include)->Obj_0, "required"@) matches Some(g)
                    && g =~= l@.map_values(|s: String| s@));
            },
            _ => {},
        }
        match (x.members, y.members) {
            (Some(xm), Some(ym)) => {
                let pairs = ref_map_field(x.members, DocPolicy::Include)->Some_0->Obj_0;
                assert forall|j: int|
                    0 <= j < xm@.len() implies (#[trigger] ym@[j]).0@ == xm@[j].0@ && eq_shape_ref(
                    ym@[j].1,
                    xm@[j].1,
                ) by {
                    assert(pairs[j] == (xm@[j].0@, enc_shape_ref(xm@[j].1, DocPolicy::Include)));
                    assert(ym@[j].0@ == pairs[j].0);
                    assert(rel_shape_ref(pairs[j].1, ym@[j].1));
                    lemma_round_trip_shape_ref(xm@[j].1, ym@[j].1);
                }
            },
            _ => {},
        }
    }
}


/// Round trip of a whole service document whose maps bind every key once:
/// encoding with documentation included always decodes, and any decode of
/// the encoding is value-equal to the tree that was encoded. A map with a
/// key bound twice is the one kind of tree the encoding of which the
/// strict decoder refuses, with a duplicate-key error.
#[verifier::rlimit(100)]
pub proof fn lemma_round_trip_service(x: Service, y: Service)
    requires
        wf_service(x),
    ensures
        ok_service(enc_service(x, DocPolicy::Include)),
        rel_service(enc_service(x, DocPolicy::Include), y) ==> eq_service(y, x),
{
    lk_service_version(x, DocPolicy::Include);
    lk_service_documentation(x, DocPolicy::Include);
    lk_service_metadata(x, DocPolicy::Include);
    lk_service_operations(x, DocPolicy::Include);
    lk_service_shapes(x, DocPolicy::Include);
    nounknown_service(x, DocPolicy::Include);
    match x.metadata {
        Some(m) => {
            lemma_round_trip_metadata(m, m);
        },
        None => {},
    }
    match x.operations {
        Some(xm) => {
            let pairs = op_map_field(x.operations, DocPolicy::Include)->Some_0->Obj_0;
            assert forall|j: int| 0 <= j < pairs.len() implies ok_operation(
                (#[trigger] pairs[j]).1,
            ) by {
                assert(pairs[j] == (xm@[j].0@, enc_operation(xm@[j].1, DocPolicy::Include)));
                lemma_round_trip_operation(xm@[j].1, xm@[j].1);
            }
            assert forall|i: int, j: int|
                0 <= i < j < pairs.len() implies (#[trigger] pairs[i]).0 != (
            #[trigger] pairs[j]).0 by {
                assert(pairs[i] == (xm@[i].0@, enc_operation(xm@[i].1, DocPolicy::Include)));
                assert(pairs[j] == (xm@[j].0@, enc_operation(xm@[j].1, DocPolicy::Include)));
            }
            lemma_map_scan_ok_operation(pairs, Set::empty());
        },
        None => {},
    }
    match x.shapes {
        Some(xm) => {
            let pairs = shape_map_field(x.shapes, DocPolicy::Include)->Some_0->Obj_0;
            assert forall|j: int| 0 <= j < pairs.len() implies ok_shape((#[trigger] pairs[j]).1) by {
                assert(pairs[j] == (xm@[j].0@, enc_shape(xm@[j].1, DocPolicy::Include)));
                assert(wf_shape(xm@[j].1));
                lemma_round_trip_shape(xm@[j].1, xm@[j].1);
            }
            assert forall|i: int, j: int|
                0 <= i < j < pairs.len() implies (#[trigger] pairs[i]).0 != (
            #[trigger] pairs[j]).0 by {
                assert(pairs[i] == (xm@[i].0@, enc_shape(xm@[i].1, DocPolicy::Include)));
                assert(pairs[j] == (xm@[j].0@, enc_shape(xm@[j].1, DocPolicy::Include)));
            }
            lemma_map_scan_ok_shape(pairs, Set::empty());
        },
        None => {},
    }
    if rel_service(enc_service(x, DocPolicy::Include), y) {
        match (x.metadata, y.metadata) {
            (Some(a), Some(b)) => {
                lemma_round_trip_metadata(a, b);
            },
            _ => {},
        }
        match (x.operations, y.operations) {
            (Some(xm), Some(ym)) => {
                let pairs = op_map_field(x.operations, DocPolicy::Include)->Some_0->Obj_0;
                assert forall|j: int|
                    0 <= j < xm@.len() implies (#[trigger] ym@[j]).0@ == xm@[j].0@ && eq_operation(
                    ym@[j].1,
                    xm@[j].1,
                ) by {
                    assert(pairs[j] == (xm@[j].0@, enc_operation(xm@[j].1, DocPolicy::Include)));
                    assert(rel_operation(pairs[j].1, ym@[j].1));
                    lemma_round_trip_operation(xm@[j].1, ym@[j].1);
                }
            },
            _ => {},
        }
        match (x.shapes, y.shapes) {
            (Some(xm), Some(ym)) => {
                let pairs = shape_map_field(x.shapes, DocPolicy::Include)->Some_0->Obj_0;
                assert forall|j: int|
                    0 <= j < xm@.len() implies (#[trigger] ym@[j]).0@ == xm@[j].0@ && eq_shape(
                    ym@[j].1,
                    xm@[j].1,
                ) by {
                    assert(pairs[j] == (xm@[j].0@, enc_shape(xm@[j].1, DocPolicy::Include)));
                    assert(rel_shape(pairs[j].1, ym@[j].1));
                    assert(wf_shape(xm@[j].1));
                    lemma_round_trip_shape(xm@[j].1, ym@[j].1);
                }
            },
            _ => {},
        }
    }
}


/// Documentation suppression for a `ShapeRef`: under `Strip` the documentation
/// field is not emitted at all, every other field is emitted exactly when
/// it is under `Include`, and every field not holding a nested entity
/// keeps the very same value.
#[verifier::rlimit(100)]
pub proof fn lemma_doc_suppression_shape_ref(x: ShapeRef)
    ensures
        lookup(enc_shape_ref(x, DocPolicy::Strip)->Obj_0, "documentation"@) is None,
        lookup(enc_shape_ref(x, DocPolicy::Strip)->Obj_0, "shape"@) == lookup(
            enc_shape_ref(x, DocPolicy::Include)->Obj_0,
            "shape"@,
        ),
        lookup(enc_shape_ref(x, DocPolicy::Strip)->Obj_0, "box"@) == lookup(
            enc_shape_ref(x, DocPolicy::Include)->Obj_0,
            "box"@,
        ),
        lookup(enc_shape_ref(x, DocPolicy::Strip)->Obj_0, "deprecated"@) == lookup(
            enc_shape_ref(x, DocPolicy::Include)->Obj_0,
            "deprecated"@,
        ),
        lookup(enc_shape_ref(x, DocPolicy::Strip)->Obj_0, "eventpayload"@) == lookup(
            enc_shape_ref(x, DocPolicy::Include)->Obj_0,
            "eventpayload"@,
        ),
        lookup(enc_shape_ref(x, DocPolicy::Strip)->Obj_0, "flattened"@) == lookup(
            enc_shape_ref(x, DocPolicy::Include)->Obj_0,
            "flattened"@,
        ),
        lookup(enc_shape_ref(x, DocPolicy::Strip)->Obj_0, "idempotencyToken"@) == lookup(
            enc_shape_ref(x, DocPolicy::Include)->Obj_0,
            "idempotencyToken"@,
        ),
        lookup(enc_shape_ref(x, DocPolicy::Strip)->Obj_0, "streaming"@) == lookup(
            enc_shape_ref(x, DocPolicy::Include)->Obj_0,
            "streaming"@,
        ),
        lookup(enc_shape_ref(x, DocPolicy::Strip)->Obj_0, "location"@) == lookup(
            enc_shape_ref(x, DocPolicy::Include)->Obj_0,
            "location"@,
        ),
        lookup(enc_shape_ref(x, DocPolicy::Strip)->Obj_0, "locationName"@) == lookup(
            enc_shape_ref(x, DocPolicy::Include)->Obj_0,
            "locationName"@,
        ),
        lookup(enc_shape_ref(x, DocPolicy::Strip)->Obj_0, "queryName"@) == lookup(
            enc_shape_ref(x, DocPolicy::Include)->Obj_0,
            "queryName"@,
        ),
        lookup(enc_shape_ref(x, DocPolicy::Strip)->Obj_0, "xmlAttribute"@) == lookup(
            enc_shape_ref(x, DocPolicy::Include)->Obj_0,
            "xmlAttribute"@,
        ),
        (lookup(enc_shape_ref(x, DocPolicy::Strip)->Obj_0, "xmlNamespace"@) is Some) == (lookup(
            enc_shape_ref(x, DocPolicy::Include)->Obj_0,
            "xmlNamespace"@,
        ) is Some),
{
    lk_shape_ref_shape(x, DocPolicy::Strip);
    lk_shape_ref_box(x, DocPolicy::Strip);
    lk_shape_ref_deprecated(x, DocPolicy::Strip);
    lk_shape_ref_eventpayload(x, DocPolicy::Strip);
    lk_shape_ref_flattened(x, DocPolicy::Strip);
    lk_shape_ref_idempotencytoken(x, DocPolicy::Strip);
    lk_shape_ref_streaming(x, DocPolicy::Strip);
    lk_shape_ref_location(x, DocPolicy::Strip);
    lk_shape_ref_locationname(x, DocPolicy::Strip);
    lk_shape_ref_queryname(x, DocPolicy::Strip);
    lk_shape_ref_xmlattribute(x, DocPolicy::Strip);
    lk_shape_ref_xmlnamespace(x, DocPolicy::Strip);
    lk_shape_ref_documentation(x, DocPolicy::Strip);
    nounknown_shape_ref(x, DocPolicy::Strip);
    lk_shape_ref_shape(x, DocPolicy::Include);
    lk_shape_ref_box(x, DocPolicy::Include);
    lk_shape_ref_deprecated(x, DocPolicy::Include);
    lk_shape_ref_eventpayload(x, DocPolicy::Include);
    lk_shape_ref_flattened(x, DocPolicy::Include);
    lk_shape_ref_idempotencytoken(x, DocPolicy::Include);
    lk_shape_ref_streaming(x, DocPolicy::Include);
    lk_shape_ref_location(x, DocPolicy::Include);
    lk_shape_ref_locationname(x, DocPolicy::Include);
    lk_shape_ref_queryname(x, DocPolicy::Include);
    lk_shape_ref_xmlattribute(x, DocPolicy::Include);
    lk_shape_ref_xmlnamespace(x, DocPolicy::Include);
    lk_shape_ref_documentation(x, DocPolicy::Include);
    nounknown_shape_ref(x, DocPolicy::Include);
}


/// Documentation suppression for a `Shape`: under `Strip` the documentation
/// field is not emitted at all, every other field is emitted exactly when
/// it is under `Include`, and every field not holding a nested entity
/// keeps the very same value.
#[verifier::rlimit(100)]
pub proof fn lemma_doc_suppression_shape(x: Shape)
    ensures
        lookup(enc_shape(x, DocPolicy::Strip)->Obj_0, "documentation"@) is None,
        lookup(enc_shape(x, DocPolicy::Strip)->Obj_0, "type"@) == lookup(
            enc_shape(x, DocPolicy::Include)->Obj_0,
            "type"@,
        ),
        lookup(enc_shape(x, DocPolicy::Strip)->Obj_0, "box"@) == lookup(
            enc_shape(x, DocPolicy::Include)->Obj_0,
            "box"@,
        ),
        lookup(enc_shape(x, DocPolicy::Strip)->Obj_0, "event"@) == lookup(
            enc_shape(x, DocPolicy::Include)->Obj_0,
            "event"@,
        ),
        lookup(enc_shape(x, DocPolicy::Strip)->Obj_0, "eventstream"@) == lookup(
            enc_shape(x, DocPolicy::Include)->Obj_0,
            "eventstream"@,
        ),
        lookup(enc_shape(x, DocPolicy::Strip)->Obj_0, "flattened"@) == lookup(
            enc_shape(x, DocPolicy::Include)->Obj_0,
            "flattened"@,
        ),
        lookup(enc_shape(x, DocPolicy::Strip)->Obj_0, "sensitive"@) == lookup(
            enc_shape(x, DocPolicy::Include)->Obj_0,
            "sensitive"@,
        ),
        lookup(enc_shape(x, DocPolicy::Strip)->Obj_0, "wrapper"@) == lookup(
            enc_shape(x, DocPolicy::Include)->Obj_0,
            "wrapper"@,
        ),
        lookup(enc_shape(x, DocPolicy::Strip)->Obj_0, "locationName"@) == lookup(
            enc_shape(x, DocPolicy::Include)->Obj_0,
            "locationName"@,
        ),
        (lookup(enc_shape(x, DocPolicy::Strip)->Obj_0, "xmlNamespace"@) is Some) == (lookup(
            enc_shape(x, DocPolicy::Include)->Obj_0,
            "xmlNamespace"@,
        ) is Some),
        lookup(enc_shape(x, DocPolicy::Strip)->Obj_0, "deprecated"@) == lookup(
            enc_shape(x, DocPolicy::Include)->Obj_0,
            "deprecated"@,
        ),
        lookup(enc_shape(x, DocPolicy::Strip)->Obj_0, "deprecatedMessage"@) == lookup(
            enc_shape(x, DocPolicy::Include)->Obj_0,
            "deprecatedMessage"@,
        ),
        lookup(enc_shape(x, DocPolicy::Strip)->Obj_0, "min"@) == lookup(
            enc_shape(x, DocPolicy::Include)->Obj_0,
            "min"@,
        ),
        lookup(enc_shape(x, DocPolicy::Strip)->Obj_0, "max"@) == lookup(
            enc_shape(x, DocPolicy::Include)->Obj_0,
            "max"@,
        ),
        lookup(enc_shape(x, DocPolicy::Strip)->Obj_0, "enum"@) == lookup(
            enc_shape(x, DocPolicy::Include)->Obj_0,
            "enum"@,
        ),
        lookup(enc_shape(x, DocPolicy::Strip)->Obj_0, "pattern"@) == lookup(
            enc_shape(x, DocPolicy::Include)->Obj_0,
            "pattern"@,
        ),
        lookup(enc_shape(x, DocPolicy::Strip)->Obj_0, "timestampFormat"@) == lookup(
            enc_shape(x, DocPolicy::Include)->Obj_0,
            "timestampFormat"@,
        ),
        (lookup(enc_shape(x, DocPolicy::Strip)->Obj_0, "key"@) is Some) == (lookup(
            enc_shape(x, DocPolicy::Include)->Obj_0,
            "key"@,
        ) is Some),
        (lookup(enc_shape(x, DocPolicy::Strip)->Obj_0, "value"@) is Some) == (lookup(
            enc_shape(x, DocPolicy::Include)->Obj_0,
            "value"@,
        ) is Some),
        (lookup(enc_shape(x, DocPolicy::Strip)->Obj_0, "error"@) is Some) == (lookup(
            enc_shape(x, DocPolicy::Include)->Obj_0,
            "error"@,
        ) is Some),
        lookup(enc_shape(x, DocPolicy::Strip)->Obj_0, "exception"@) == lookup(
            enc_shape(x, DocPolicy::Include)->Obj_0,
            "exception"@,
        ),
        lookup(enc_shape(x, DocPolicy::Strip)->Obj_0, "fault"@) == lookup(
            enc_shape(x, DocPolicy::Include)->Obj_0,
            "fault"@,
        ),
        lookup(enc_shape(x, DocPolicy::Strip)->Obj_0, "required"@) == lookup(
            enc_shape(x, DocPolicy::Include)->Obj_0,
            "required"@,
        ),
        (lookup(enc_shape(x, DocPolicy::Strip)->Obj_0, "member"@) is Some) == (lookup(
            enc_shape(x, DocPolicy::Include)->Obj_0,
            "member"@,
        ) is Some),
        (lookup(enc_shape(x, DocPolicy::Strip)->Obj_0, "members"@) is Some) == (lookup(
            enc_shape(x, DocPolicy::Include)->Obj_0,
            "members"@,
        ) is Some),
        lookup(enc_shape(x, DocPolicy::Strip)->Obj_0, "payload"@) == lookup(
            enc_shape(x, DocPolicy::Include)->Obj_0,
            "payload"@,
        ),
{
    lk_shape_type(x, DocPolicy::Strip);
    lk_shape_box(x, DocPolicy::Strip);
    lk_shape_event(x, DocPolicy::Strip);
    lk_shape_eventstream(x, DocPolicy::Strip);
    lk_shape_flattened(x, DocPolicy::Strip);
    lk_shape_sensitive(x, DocPolicy::Strip);
    lk_shape_wrapper(x, DocPolicy::Strip);
    lk_shape_locationname(x, DocPolicy::Strip);
    lk_shape_xmlnamespace(x, DocPolicy::Strip);
    lk_shape_deprecated(x, DocPolicy::Strip);
    lk_shape_deprecatedmessage(x, DocPolicy::Strip);
    lk_shape_min(x, DocPolicy::Strip);
    lk_shape_max(x, DocPolicy::Strip);
    lk_shape_enum(x, DocPolicy::Strip);
    lk_shape_pattern(x, DocPolicy::Strip);
    lk_shape_timestampformat(x, DocPolicy::Strip);
    lk_shape_key(x, DocPolicy::Strip);
    lk_shape_value(x, DocPolicy::Strip);
    lk_shape_error(x, DocPolicy::Strip);
    lk_shape_exception(x, DocPolicy::Strip);
    lk_shape_fault(x, DocPolicy::Strip);
    lk_shape_required(x, DocPolicy::Strip);
    lk_shape_member(x, DocPolicy::Strip);
    lk_shape_members(x, DocPolicy::Strip);
    lk_shape_payload(x, DocPolicy::Strip);
    lk_shape_documentation(x, DocPolicy::Strip);
    nounknown_shape(x, DocPolicy::Strip);
    lk_shape_type(x, DocPolicy::Include);
    lk_shape_box(x, DocPolicy::Include);
    lk_shape_event(x, DocPolicy::Include);
    lk_shape_eventstream(x, DocPolicy::Include);
    lk_shape_flattened(x, DocPolicy::Include);
    lk_shape_sensitive(x, DocPolicy::Include);
    lk_shape_wrapper(x, DocPolicy::Include);
    lk_shape_locationname(x, DocPolicy::Include);
    lk_shape_xmlnamespace(x, DocPolicy::Include);
    lk_shape_deprecated(x, DocPolicy::Include);
    lk_shape_deprecatedmessage(x, DocPolicy::Include);
    lk_shape_min(x, DocPolicy::Include);
    lk_shape_max(x, DocPolicy::Include);
    lk_shape_enum(x, DocPolicy::Include);
    lk_shape_pattern(x, DocPolicy::Include);
    lk_shape_timestampformat(x, DocPolicy::Include);
    lk_shape_key(x, DocPolicy::Include);
    lk_shape_value(x, DocPolicy::Include);
    lk_shape_error(x, DocPolicy::Include);
    lk_shape_exception(x, DocPolicy::Include);
    lk_shape_fault(x, DocPolicy::Include);
    lk_shape_required(x, DocPolicy::Include);
    lk_shape_member(x, DocPolicy::Include);
    lk_shape_members(x, DocPolicy::Include);
    lk_shape_payload(x, DocPolicy::Include);
    lk_shape_documentation(x, DocPolicy::Include);
    nounknown_shape(x, DocPolicy::Include);
}

} // verus!
