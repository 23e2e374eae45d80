//! The entity schema of a service model document.
//!
//! Every entity is a record of named fields; a field is required or
//! optional, and an absent optional field is simply not represented in
//! encoded output. `Documentation` and `DocumentationUrl` are mixin
//! fragments: on the wire their fields appear as direct siblings of the
//! entity that carries them, never as nested objects.
//!
//! Internal field names use underscores (with a trailing underscore where
//! the wire name is a Rust keyword, such as `type` or `box`); the wire
//! names are fixed by the decoder's and encoder's contracts.
//!
//! Maps (`operations`, `shapes`, `members`) are kept as entry lists in
//! their wire order; the schema attaches no meaning to the order, and the
//! decoder refuses a map that binds one key twice.

use vstd::prelude::*;

verus! {

/// Whether encoding keeps or suppresses documentation fragments.
///
/// With `Strip`, every `Documentation` and `DocumentationUrl` fragment is
/// treated as absent at the output boundary; the decoded data itself is
/// untouched.
#[derive(Clone, Copy, PartialEq, Eq, Debug)]
pub enum DocPolicy {
    Include,
    Strip,
}

/// Prose documentation carried by an entity, flattened on the wire as a
/// sibling field named `documentation`.
#[derive(Debug, Clone, PartialEq, Eq)]
pub struct Documentation {
    pub documentation: Option<String>,
}

/// A documentation link, flattened on the wire as a sibling field named
/// `documentationUrl`.
#[derive(Debug, Clone, PartialEq, Eq)]
pub struct DocumentationUrl {
    pub documentation_url: Option<String>,
}

/// Service-wide descriptors. All fields optional strings.
#[derive(Debug, Clone, PartialEq, Eq)]
pub struct Metadata {
    pub api_version: Option<String>,
    pub json_version: Option<String>,
    pub endpoint_prefix: Option<String>,
    pub global_endpoint: Option<String>,
    pub protocol: Option<String>,
    pub service_abbreviation: Option<String>,
    pub service_full_name: Option<String>,
    pub service_id: Option<String>,
    pub checksum_format: Option<String>,
    pub timestamp_format: Option<String>,
    pub signature_version: Option<String>,
    pub signing_name: Option<String>,
    pub target_prefix: Option<String>,
    pub xml_namespace: Option<String>,
    pub uid: Option<String>,
}

/// HTTP binding of an operation: `method` and `requestUri` are required.
#[derive(Debug, Clone, PartialEq, Eq)]
pub struct HttpOperation {
    pub method: String,
    pub request_uri: String,
    pub response_code: Option<i32>,
}

/// XML serialization hint: `uri` is required.
#[derive(Debug, Clone, PartialEq, Eq)]
pub struct XmlNamespace {
    pub prefix: Option<String>,
    pub uri: String,
}

/// Input or output envelope of an operation: `shape` is required.
#[derive(Debug, Clone, PartialEq, Eq)]
pub struct Message {
    pub shape: String,
    pub location_name: Option<String>,
    pub xml_namespace: Option<XmlNamespace>,
    pub result_wrapper: Option<String>,
    pub documentation: Documentation,
}

/// Marker entity with no fields; on the wire an empty object.
#[derive(Debug, Clone, PartialEq, Eq)]
pub struct EndpointDiscovery {}

/// A typed reference to a shape plus binding metadata: `shape` is required.
#[derive(Debug, Clone, PartialEq, Eq)]
pub struct ShapeRef {
    pub shape: String,
    pub box_: Option<bool>,
    pub deprecated: Option<bool>,
    pub eventpayload: Option<bool>,
    pub flattened: Option<bool>,
    pub idempotency_token: Option<bool>,
    pub streaming: Option<bool>,
    pub location: Option<String>,
    pub location_name: Option<String>,
    pub query_name: Option<String>,
    pub xml_attribute: Option<bool>,
    pub xml_namespace: Option<XmlNamespace>,
    pub documentation: Documentation,
}

/// HTTP error binding on a shape: `httpStatusCode` is required.
#[derive(Debug, Clone, PartialEq, Eq)]
pub struct Error {
    pub code: Option<String>,
    pub http_status_code: i32,
    pub sender_fault: Option<bool>,
}

/// One API call: `name` is required.
#[derive(Debug, Clone, PartialEq, Eq)]
pub struct Operation {
    pub name: String,
    pub alias: Option<String>,
    pub deprecated: Option<bool>,
    pub endpointdiscovery: Option<EndpointDiscovery>,
    pub endpointoperation: Option<bool>,
    pub idempotent: Option<bool>,
    pub http: Option<HttpOperation>,
    pub input: Option<Message>,
    pub output: Option<Message>,
    pub errors: Option<Vec<ShapeRef>>,
    pub documentation: Documentation,
    pub documentation_url: DocumentationUrl,
}

/// A type definition, discriminated by its required `type` field. Which of
/// the optional fields are meaningful depends on `type_` in practice, but
/// the schema deliberately accepts any combination.
#[derive(Debug, Clone, PartialEq, Eq)]
pub struct Shape {
    pub type_: String,
    pub box_: Option<bool>,
    pub event: Option<bool>,
    pub eventstream: Option<bool>,
    pub flattened: Option<bool>,
    pub sensitive: Option<bool>,
    pub wrapper: Option<bool>,
    pub location_name: Option<String>,
    pub xml_namespace: Option<XmlNamespace>,
    pub deprecated: Option<bool>,
    pub deprecated_message: Option<String>,
    pub min: Option<i32>,
    pub max: Option<i32>,
    pub enum_: Option<Vec<String>>,
    pub pattern: Option<String>,
    pub timestamp_format: Option<String>,
    pub key: Option<ShapeRef>,
    pub value: Option<ShapeRef>,
    pub error: Option<Error>,
    pub exception: Option<bool>,
    pub fault: Option<bool>,
    pub required: Option<Vec<String>>,
    pub member: Option<ShapeRef>,
    pub members: Option<Vec<(String, ShapeRef)>>,
    pub payload: Option<String>,
    pub documentation: Documentation,
}

/// The root document.
#[derive(Debug, Clone, PartialEq, Eq)]
pub struct Service {
    pub version: Option<String>,
    pub documentation: Documentation,
    pub metadata: Option<Metadata>,
    pub operations: Option<Vec<(String, Operation)>>,
    pub shapes: Option<Vec<(String, Shape)>>,
}

/// View of an optional string field.
pub open spec fn ov_str(v: Option<String>) -> Option<Seq<char>> {
    match v {
        None => None,
        Some(s) => Some(s@),
    }
}

/// View of an optional string-list field.
pub open spec fn ov_strs(v: Option<Vec<String>>) -> Option<Seq<Seq<char>>> {
    match v {
        None => None,
        Some(l) => Some(l@.map_values(|s: String| s@)),
    }
}

/// Value equality of two entity trees, field by field, comparing strings
/// by their character sequences.
pub open spec fn eq_documentation(a: Documentation, b: Documentation) -> bool {
    ov_str(a.documentation) == ov_str(b.documentation)
}

pub open spec fn eq_documentation_url(a: DocumentationUrl, b: DocumentationUrl) -> bool {
    ov_str(a.documentation_url) == ov_str(b.documentation_url)
}

pub open spec fn eq_metadata(a: Metadata, b: Metadata) -> bool {
    &&& ov_str(a.api_version) == ov_str(b.api_version)
    &&& ov_str(a.json_version) == ov_str(b.json_version)
    &&& ov_str(a.endpoint_prefix) == ov_str(b.endpoint_prefix)
    &&& ov_str(a.global_endpoint) == ov_str(b.global_endpoint)
    &&& ov_str(a.protocol) == ov_str(b.protocol)
    &&& ov_str(a.service_abbreviation) == ov_str(b.service_abbreviation)
    &&& ov_str(a.service_full_name) == ov_str(b.service_full_name)
    &&& ov_str(a.service_id) == ov_str(b.service_id)
    &&& ov_str(a.checksum_format) == ov_str(b.checksum_format)
    &&& ov_str(a.timestamp_format) == ov_str(b.timestamp_format)
    &&& ov_str(a.signature_version) == ov_str(b.signature_version)
    &&& ov_str(a.signing_name) == ov_str(b.signing_name)
    &&& ov_str(a.target_prefix) == ov_str(b.target_prefix)
    &&& ov_str(a.xml_namespace) == ov_str(b.xml_namespace)
    &&& ov_str(a.uid) == ov_str(b.uid)
}

pub open spec fn eq_http_operation(a: HttpOperation, b: HttpOperation) -> bool {
    &&& a.method@ == b.method@
    &&& a.request_uri@ == b.request_uri@
    &&& a.response_code == b.response_code
}

pub open spec fn eq_xml_namespace(a: XmlNamespace, b: XmlNamespace) -> bool {
    &&& ov_str(a.prefix) == ov_str(b.prefix)
    &&& a.uri@ == b.uri@
}

pub open spec fn eq_opt_xml_namespace(a: Option<XmlNamespace>, b: Option<XmlNamespace>) -> bool {
    match (a, b) {
        (None, None) => true,
        (Some(x), Some(y)) => eq_xml_namespace(x, y),
        _ => false,
    }
}

pub open spec fn eq_message(a: Message, b: Message) -> bool {
    &&& a.shape@ == b.shape@
    &&& ov_str(a.location_name) == ov_str(b.location_name)
    &&& eq_opt_xml_namespace(a.xml_namespace, b.xml_namespace)
    &&& ov_str(a.result_wrapper) == ov_str(b.result_wrapper)
    &&& eq_documentation(a.documentation, b.documentation)
}

pub open spec fn eq_opt_message(a: Option<Message>, b: Option<Message>) -> bool {
    match (a, b) {
        (None, None) => true,
        (Some(x), Some(y)) => eq_message(x, y),
        _ => false,
    }
}

pub open spec fn eq_shape_ref(a: ShapeRef, b: ShapeRef) -> bool {
    &&& a.shape@ == b.shape@
    &&& a.box_ == b.box_
    &&& a.deprecated == b.deprecated
    &&& a.eventpayload == b.eventpayload
    &&& a.flattened == b.flattened
    &&& a.idempotency_token == b.idempotency_token
    &&& a.streaming == b.streaming
    &&& ov_str(a.location) == ov_str(b.location)
    &&& ov_str(a.location_name) == ov_str(b.location_name)
    &&& ov_str(a.query_name) == ov_str(b.query_name)
    &&& a.xml_attribute == b.xml_attribute
    &&& eq_opt_xml_namespace(a.xml_namespace, b.xml_namespace)
    &&& eq_documentation(a.documentation, b.documentation)
}

pub open spec fn eq_opt_shape_ref(a: Option<ShapeRef>, b: Option<ShapeRef>) -> bool {
    match (a, b) {
        (None, None) => true,
        (Some(x), Some(y)) => eq_shape_ref(x, y),
        _ => false,
    }
}

pub open spec fn eq_shape_ref_list(a: Option<Vec<ShapeRef>>, b: Option<Vec<ShapeRef>>) -> bool {
    match (a, b) {
        (None, None) => true,
        (Some(x), Some(y)) => {
            &&& x@.len() == y@.len()
            &&& forall|i: int| 0 <= i < x@.len() ==> eq_shape_ref(#[trigger] x@[i], y@[i])
        },
        _ => false,
    }
}

pub open spec fn eq_error(a: Error, b: Error) -> bool {
    &&& ov_str(a.code) == ov_str(b.code)
    &&& a.http_status_code == b.http_status_code
    &&& a.sender_fault == b.sender_fault
}

pub open spec fn eq_opt_error(a: Option<Error>, b: Option<Error>) -> bool {
    match (a, b) {
        (None, None) => true,
        (Some(x), Some(y)) => eq_error(x, y),
        _ => false,
    }
}

pub open spec fn eq_operation(a: Operation, b: Operation) -> bool {
    &&& a.name@ == b.name@
    &&& ov_str(a.alias) == ov_str(b.alias)
    &&& a.deprecated == b.deprecated
    &&& (a.endpointdiscovery is Some) == (b.endpointdiscovery is Some)
    &&& a.endpointoperation == b.endpointoperation
    &&& a.idempotent == b.idempotent
    &&& match (a.http, b.http) {
        (None, None) => true,
        (Some(x), Some(y)) => eq_http_operation(x, y),
        _ => false,
    }
    &&& eq_opt_message(a.input, b.input)
    &&& eq_opt_message(a.output, b.output)
    &&& eq_shape_ref_list(a.errors, b.errors)
    &&& eq_documentation(a.documentation, b.documentation)
    &&& eq_documentation_url(a.documentation_url, b.documentation_url)
}

pub open spec fn eq_shape(a: Shape, b: Shape) -> bool {
    &&& a.type_@ == b.type_@
    &&& a.box_ == b.box_
    &&& a.event == b.event
    &&& a.eventstream == b.eventstream
    &&& a.flattened == b.flattened
    &&& a.sensitive == b.sensitive
    &&& a.wrapper == b.wrapper
    &&& ov_str(a.location_name) == ov_str(b.location_name)
    &&& eq_opt_xml_namespace(a.xml_namespace, b.xml_namespace)
    &&& a.deprecated == b.deprecated
    &&& ov_str(a.deprecated_message) == ov_str(b.deprecated_message)
    &&& a.min == b.min
    &&& a.max == b.max
    &&& ov_strs(a.enum_) == ov_strs(b.enum_)
    &&& ov_str(a.pattern) == ov_str(b.pattern)
    &&& ov_str(a.timestamp_format) == ov_str(b.timestamp_format)
    &&& eq_opt_shape_ref(a.key, b.key)
    &&& eq_opt_shape_ref(a.value, b.value)
    &&& eq_opt_error(a.error, b.error)
    &&& a.exception == b.exception
    &&& a.fault == b.fault
    &&& ov_strs(a.required) == ov_strs(b.required)
    &&& eq_opt_shape_ref(a.member, b.member)
    &&& match (a.members, b.members) {
        (None, None) => true,
        (Some(x), Some(y)) => {
            &&& x@.len() == y@.len()
            &&& forall|i: int|
                0 <= i < x@.len() ==> (#[trigger] x@[i]).0@ == y@[i].0@ && eq_shape_ref(
                    x@[i].1,
                    y@[i].1,
                )
        },
        _ => false,
    }
    &&& ov_str(a.payload) == ov_str(b.payload)
    &&& eq_documentation(a.documentation, b.documentation)
}

pub open spec fn eq_metadata_opt(a: Option<Metadata>, b: Option<Metadata>) -> bool {
    match (a, b) {
        (None, None) => true,
        (Some(x), Some(y)) => eq_metadata(x, y),
        _ => false,
    }
}

pub open spec fn eq_service(a: Service, b: Service) -> bool {
    &&& ov_str(a.version) == ov_str(b.version)
    &&& eq_documentation(a.documentation, b.documentation)
    &&& eq_metadata_opt(a.metadata, b.metadata)
    &&& match (a.operations, b.operations) {
        (None, None) => true,
        (Some(x), Some(y)) => {
            &&& x@.len() == y@.len()
            &&& forall|i: int|
                0 <= i < x@.len() ==> (#[trigger] x@[i]).0@ == y@[i].0@ && eq_operation(
                    x@[i].1,
                    y@[i].1,
                )
        },
        _ => false,
    }
    &&& match (a.shapes, b.shapes) {
        (None, None) => true,
        (Some(x), Some(y)) => {
            &&& x@.len() == y@.len()
            &&& forall|i: int|
                0 <= i < x@.len() ==> (#[trigger] x@[i]).0@ == y@[i].0@ && eq_shape(
                    x@[i].1,
                    y@[i].1,
                )
        },
        _ => false,
    }
}

/// Every key of an entry-list map is bound once.
pub open spec fn keys_unique<T>(m: Seq<(String, T)>) -> bool {
    forall|i: int, j: int|
        0 <= i < j < m.len() ==> (#[trigger] m[i]).0@ != (#[trigger] m[j]).0@
}

/// A shape whose members map binds every key once.
pub open spec fn wf_shape(x: Shape) -> bool {
    match x.members {
        None => true,
        Some(m) => keys_unique(m@),
    }
}

/// A service whose maps bind every key once, shapes included.
pub open spec fn wf_service(x: Service) -> bool {
    &&& match x.operations {
        None => true,
        Some(m) => keys_unique(m@),
    }
    &&& match x.shapes {
        None => true,
        Some(m) => keys_unique(m@) && forall|i: int|
            0 <= i < m@.len() ==> wf_shape((#[trigger] m@[i]).1),
    }
}

} // verus!
