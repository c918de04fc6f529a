use crate::diagnostics::strings_view;
use crate::schema::SchemaFailure;
use crate::validator::ValidationIssue;
use std::str::FromStr;
use vstd::prelude::*;

verus! {

/// `cedar_policy::Authorizer`, held opaque.
#[verifier::external_type_specification]
#[verifier::external_body]
pub struct ExAuthorizer(cedar_policy::Authorizer);

/// `cedar_policy::PolicySet`, held opaque.
#[verifier::external_type_specification]
#[verifier::external_body]
pub struct ExPolicySet(cedar_policy::PolicySet);

/// `cedar_policy::Schema`, held opaque.
#[verifier::external_type_specification]
#[verifier::external_body]
pub struct ExSchema(cedar_policy::Schema);

/// `cedar_policy::Validator`, held opaque.
#[verifier::external_type_specification]
#[verifier::external_body]
pub struct ExValidator(cedar_policy::Validator);

/// `cedar_policy::EntityUid`, held opaque.
#[verifier::external_type_specification]
#[verifier::external_body]
pub struct ExEntityUid(cedar_policy::EntityUid);

/// `cedar_policy::Context`, held opaque.
#[verifier::external_type_specification]
#[verifier::external_body]
pub struct ExContext(cedar_policy::Context);

/// `cedar_policy::Entities`, held opaque.
#[verifier::external_type_specification]
#[verifier::external_body]
pub struct ExEntities(cedar_policy::Entities);

/// `cedar_policy::Request`, held opaque.
#[verifier::external_type_specification]
#[verifier::external_body]
pub struct ExRequest(cedar_policy::Request);

/// `cedar_policy::Response`, held opaque.
#[verifier::external_type_specification]
#[verifier::external_body]
pub struct ExResponse(cedar_policy::Response);

/// `serde_json::Value`, held opaque.
#[verifier::external_type_specification]
#[verifier::external_body]
pub struct ExValue(serde_json::Value);

/// `serde_json::Map`, held opaque.
#[verifier::external_type_specification]
#[verifier::external_body]
#[verifier::reject_recursive_types(K)]
#[verifier::reject_recursive_types(V)]
pub struct ExMap<K, V>(serde_json::Map<K, V>);

/// `cedar_policy::frontend::utils::InterfaceResult`, held opaque.
#[verifier::external_type_specification]
#[verifier::external_body]
pub struct ExInterfaceResult(cedar_policy::frontend::utils::InterfaceResult);

/// What parsing a policy text gives: `None` when it parses, else the message
/// of each parse error, in the parser's order.
pub uninterp spec fn policy_parse_errors(text: Seq<char>) -> Option<Seq<Seq<char>>>;

/// Relies on `<cedar_policy::PolicySet as FromStr>::from_str`: it parses the
/// text alone, and on failure hands back its list of parse errors.
#[verifier::external_body]
pub(crate) fn policy_set_from_text(text: &str) -> (r: Result<cedar_policy::PolicySet, Vec<String>>)
    ensures
        r is Ok <==> policy_parse_errors(text@) is None,
        r is Err ==> policy_parse_errors(text@) == Some(strings_view(r->Err_0@)),
{
    cedar_policy::PolicySet::from_str(text).map_err(|e| e.0.iter().map(|x| x.to_string()).collect())
}

/// Whether a schema text is accepted by the engine.
pub uninterp spec fn schema_text_accepted(text: Seq<char>) -> bool;

/// Relies on `<cedar_policy::Schema as FromStr>::from_str`: it reads the text
/// alone. Each kind of schema error is handed back as its own variant: a parse
/// error kind with the message of each parse error, any other kind with its
/// message.
#[verifier::external_body]
pub(crate) fn schema_from_text(text: &str) -> (r: Result<cedar_policy::Schema, SchemaFailure>)
    ensures
        r is Ok <==> schema_text_accepted(text@),
{
    let msgs = |e: cedar_policy::ParseErrors| e.0.iter().map(|x| x.to_string()).collect();
    cedar_policy::Schema::from_str(text).map_err(|err| match err {
        cedar_policy::SchemaError::EntityTypeParse(e) => SchemaFailure::EntityTypeParse(msgs(e)),
        cedar_policy::SchemaError::NamespaceParse(e) => SchemaFailure::NamespaceParse(msgs(e)),
        cedar_policy::SchemaError::CommonTypeParseError(e) => SchemaFailure::CommonTypeParse(msgs(e)),
        cedar_policy::SchemaError::ExtensionTypeParse(e) => SchemaFailure::ExtensionTypeParse(msgs(e)),
        other => SchemaFailure::Other(other.to_string()),
    })
}

/// Relies on `cedar_policy::Validator::validate` in permissive mode: each
/// validation error as its kind's message and its source range, if any.
#[verifier::external_body]
pub(crate) fn validation_issues(
    v: &cedar_policy::Validator,
    p: &cedar_policy::PolicySet,
) -> (r: Vec<ValidationIssue>) {
    let result = v.validate(p, cedar_policy::ValidationMode::Permissive);
    result.validation_errors().map(|e| ValidationIssue {
        message: e.error_kind().to_string(),
        range: e.location().range_start().zip(e.location().range_end()),
    }).collect()
}

/// The error message of reading a text as a JSON object, `None` when it is one.
pub uninterp spec fn json_object_error(text: Seq<char>) -> Option<Seq<char>>;

/// Relies on `serde_json::from_str` into a JSON object: it reads the text
/// alone, and on failure (bad JSON, or JSON that is not an object) gives its
/// error's message.
#[verifier::external_body]
pub(crate) fn json_object_from_text(text: &str) -> (r: Result<serde_json::Map<String, serde_json::Value>, String>)
    ensures
        r is Ok <==> json_object_error(text@) is None,
        r is Err ==> json_object_error(text@) == Some(r->Err_0@),
{
    serde_json::from_str::<serde_json::Map<String, serde_json::Value>>(text).map_err(|e| e.to_string())
}

/// Relies on `serde_json::Map::get`: a copy of the member of that name.
#[verifier::external_body]
pub(crate) fn json_member(m: &serde_json::Map<String, serde_json::Value>, name: &str) -> (r: Option<serde_json::Value>) {
    m.get(name).cloned()
}

/// Relies on `cedar_policy::EntityUid::from_json`, with its error message.
#[verifier::external_body]
pub(crate) fn entity_uid_from_json(v: serde_json::Value) -> (r: Result<cedar_policy::EntityUid, String>) {
    cedar_policy::EntityUid::from_json(v).map_err(|e| e.to_string())
}

/// Relies on `cedar_policy::Context::from_json_value`, which checks against
/// the action's context in the schema when both are given.
#[verifier::external_body]
pub(crate) fn context_from_json(
    v: serde_json::Value,
    schema_action: Option<(&cedar_policy::Schema, &cedar_policy::EntityUid)>,
) -> (r: Result<cedar_policy::Context, String>) {
    cedar_policy::Context::from_json_value(v, schema_action).map_err(|e| e.to_string())
}

/// Relies on `cedar_policy::Entities::from_json_value`, schema-aware when a
/// schema is given.
#[verifier::external_body]
pub(crate) fn entities_from_json(
    v: serde_json::Value,
    schema: Option<&cedar_policy::Schema>,
) -> (r: Result<cedar_policy::Entities, String>) {
    cedar_policy::Entities::from_json_value(v, schema).map_err(|e| e.to_string())
}

/// Relies on `cedar_policy::Response::decision`: whether it is `Allow`.
#[verifier::external_body]
pub(crate) fn response_allows(r: &cedar_policy::Response) -> (b: bool) {
    r.decision() == cedar_policy::Decision::Allow
}

/// Relies on `cedar_policy::Diagnostics::reason`: the ids of the policies
/// behind the decision, as text.
#[verifier::external_body]
pub(crate) fn response_reasons(r: &cedar_policy::Response) -> (ids: Vec<String>) {
    r.diagnostics().reason().map(|id| id.to_string()).collect()
}

/// Relies on `cedar_policy::Diagnostics::errors`: the messages of the errors
/// met while evaluating.
#[verifier::external_body]
pub(crate) fn response_errors(r: &cedar_policy::Response) -> (ms: Vec<String>) {
    r.diagnostics().errors().map(|e| e.to_string()).collect()
}

/// Relies on `cedar_policy::frontend::is_authorized::json_is_authorized`: the
/// engine's own reading and answer of a JSON call bundling request, policies
/// and entities.
#[verifier::external_body]
pub(crate) fn frontend_answer(input: &str) -> (r: cedar_policy::frontend::utils::InterfaceResult) {
    cedar_policy::frontend::is_authorized::json_is_authorized(input)
}

/// Relies on `serde_json::to_string`: the answer as JSON text, `None` where
/// serialization fails. The answer is an internally tagged enum, which serde
/// writes as a JSON object.
#[verifier::external_body]
pub(crate) fn answer_to_json(a: &cedar_policy::frontend::utils::InterfaceResult) -> (r: Option<String>)
    ensures
        r is Some ==> r->Some_0@.len() > 0 && r->Some_0@[0] == '{',
{
    serde_json::to_string(a).ok()
}

/// Relies on `cedar_policy::Authorizer::new`: a fresh authorizer.
pub assume_specification[ cedar_policy::Authorizer::new ]() -> cedar_policy::Authorizer;

/// Relies on `cedar_policy::Validator::new`: a validator that owns the schema.
pub assume_specification[ cedar_policy::Validator::new ](
    schema: cedar_policy::Schema,
) -> cedar_policy::Validator;

/// Relies on `Clone` of `cedar_policy::Schema`: a copy of the schema.
pub assume_specification[ <cedar_policy::Schema as Clone>::clone ](
    s: &cedar_policy::Schema,
) -> cedar_policy::Schema;

/// Relies on `cedar_policy::Context::empty`: the context with no fields.
pub assume_specification[ cedar_policy::Context::empty ]() -> cedar_policy::Context;

/// Relies on `cedar_policy::Entities::empty`: the store with no entities.
pub assume_specification[ cedar_policy::Entities::empty ]() -> cedar_policy::Entities;

/// Relies on `cedar_policy::Request::new`: a request of the given parts.
pub assume_specification[ cedar_policy::Request::new ](
    principal: Option<cedar_policy::EntityUid>,
    action: Option<cedar_policy::EntityUid>,
    resource: Option<cedar_policy::EntityUid>,
    context: cedar_policy::Context,
) -> cedar_policy::Request;

/// Relies on `cedar_policy::Authorizer::is_authorized`: evaluates the
/// request against the policies and entities.
#[verifier::external_body]
pub(crate) fn evaluate(
    a: &cedar_policy::Authorizer,
    r: &cedar_policy::Request,
    p: &cedar_policy::PolicySet,
    e: &cedar_policy::Entities,
) -> (resp: cedar_policy::Response) {
    a.is_authorized(r, p, e)
}

/// Relies on `serde_json::Value::is_null`: whether the value is `null`.
pub assume_specification[ serde_json::Value::is_null ](v: &serde_json::Value) -> bool;

} // verus!

