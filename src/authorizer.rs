use crate::diagnostics::{
    diagnostics_from_messages, lemma_messages_are_errors, message_view, messages_view,
    strings_view, Diagnostic, DiagnosticView, Diagnostics, Severity,
};
use crate::engine::{
    context_from_json, entities_from_json, entity_uid_from_json, evaluate, json_object_error, json_object_from_text, json_member,
    response_allows, response_errors, response_reasons,
};
use crate::handle::{AuthorizerHandle, Handle, PolicySetHandle, SchemaHandle};
use crate::raw_string::{RawString, RawStrings, RawVec};
use vstd::prelude::*;
use vstd::string::StringExecFns;

verus! {

/// The outcome of an authorization: allowed or not, and the ids of the
/// policies that decided it.
pub struct Decision {
    pub allow: bool,
    pub reasons: RawStrings,
}

impl Decision {
    pub fn new(allow: bool, reasons: RawStrings) -> (r: Decision)
        ensures
            r.allow == allow,
            r.reasons == reasons,
    {
        Decision { allow: allow, reasons: reasons }
    }
}

/// A new authorizer.
pub fn new_authorizer() -> (r: AuthorizerHandle)
    ensures
        r.ptr is Some,
{
    Handle::new(cedar_policy::Authorizer::new())
}

/// What became of one input of a request: not given, read, or refused with
/// a message.
pub enum FieldOutcome<T> {
    Absent,
    Parsed(T),
    Failed(String),
}

/// The message a field contributes: one if it failed, none otherwise.
pub open spec fn failure_of<T>(o: FieldOutcome<T>) -> Seq<Seq<char>> {
    match o {
        FieldOutcome::Failed(m) => seq![m@],
        _ => Seq::empty(),
    }
}

/// The messages of all failed inputs, in the order principal, action,
/// resource, context, entities.
pub open spec fn request_failures(
    principal: FieldOutcome<cedar_policy::EntityUid>,
    action: FieldOutcome<cedar_policy::EntityUid>,
    resource: FieldOutcome<cedar_policy::EntityUid>,
    context: FieldOutcome<cedar_policy::Context>,
    entities: FieldOutcome<cedar_policy::Entities>,
) -> Seq<Seq<char>> {
    failure_of(principal) + failure_of(action) + failure_of(resource) + failure_of(context)
        + failure_of(entities)
}

/// An identifier that was read, if any.
pub open spec fn parsed_of<T>(o: FieldOutcome<T>) -> Option<T> {
    match o {
        FieldOutcome::Parsed(x) => Some(x),
        _ => None,
    }
}

/// The inputs of a request that was read in full.
pub struct RequestParts {
    pub principal: Option<cedar_policy::EntityUid>,
    pub action: Option<cedar_policy::EntityUid>,
    pub resource: Option<cedar_policy::EntityUid>,
    pub context: cedar_policy::Context,
    pub entities: cedar_policy::Entities,
}

/// Gathers the inputs of a request. Every failed input is reported, none is
/// dropped; only when none failed are the parts handed on.
pub fn assemble_request(
    principal: FieldOutcome<cedar_policy::EntityUid>,
    action: FieldOutcome<cedar_policy::EntityUid>,
    resource: FieldOutcome<cedar_policy::EntityUid>,
    context: FieldOutcome<cedar_policy::Context>,
    entities: FieldOutcome<cedar_policy::Entities>,
) -> (r: Result<RequestParts, Diagnostics>)
    ensures
        r is Err <==> request_failures(principal, action, resource, context, entities).len() > 0,
        r is Err ==> r->Err_0@ == messages_view(
            request_failures(principal, action, resource, context, entities),
        ),
        r is Ok ==> r->Ok_0.principal == parsed_of(principal),
        r is Ok ==> r->Ok_0.action == parsed_of(action),
        r is Ok ==> r->Ok_0.resource == parsed_of(resource),
        r is Ok && context is Parsed ==> r->Ok_0.context == context->Parsed_0,
        r is Ok && entities is Parsed ==> r->Ok_0.entities == entities->Parsed_0,
{
    let ghost failures = request_failures(principal, action, resource, context, entities);
    let mut messages: Vec<String> = Vec::new();
    let p = match principal {
        FieldOutcome::Absent => None,
        FieldOutcome::Parsed(x) => Some(x),
        FieldOutcome::Failed(m) => {
            messages.push(m);
            None
        },
    };
    let a = match action {
        FieldOutcome::Absent => None,
        FieldOutcome::Parsed(x) => Some(x),
        FieldOutcome::Failed(m) => {
            messages.push(m);
            None
        },
    };
    let r = match resource {
        FieldOutcome::Absent => None,
        FieldOutcome::Parsed(x) => Some(x),
        FieldOutcome::Failed(m) => {
            messages.push(m);
            None
        },
    };
    let c = match context {
        FieldOutcome::Absent => cedar_policy::Context::empty(),
        FieldOutcome::Parsed(x) => x,
        FieldOutcome::Failed(m) => {
            messages.push(m);
            cedar_policy::Context::empty()
        },
    };
    let e = match entities {
        FieldOutcome::Absent => cedar_policy::Entities::empty(),
        FieldOutcome::Parsed(x) => x,
        FieldOutcome::Failed(m) => {
            messages.push(m);
            cedar_policy::Entities::empty()
        },
    };
    assert(strings_view(messages@) =~= failures);
    if messages.len() != 0 {
        return Err(diagnostics_from_messages(&messages));
    }
    Ok(RequestParts { principal: p, action: a, resource: r, context: c, entities: e })
}

/// When a request has malformed principal, action and resource, and its
/// context and entities were read or absent, exactly three failures are
/// reported, and so the request is not evaluated.
pub proof fn lemma_malformed_identifiers_reported(
    principal: FieldOutcome<cedar_policy::EntityUid>,
    action: FieldOutcome<cedar_policy::EntityUid>,
    resource: FieldOutcome<cedar_policy::EntityUid>,
    context: FieldOutcome<cedar_policy::Context>,
    entities: FieldOutcome<cedar_policy::Entities>,
)
    requires
        principal is Failed,
        action is Failed,
        resource is Failed,
        !(context is Failed),
        !(entities is Failed),
    ensures
        request_failures(principal, action, resource, context, entities).len() == 3,
{
}

/// Settles an evaluated request. Errors met while evaluating take the place
/// of the decision: they are reported and `decision` is left as it was.
/// Otherwise `decision` takes the outcome and no diagnostic is returned.
pub fn settle_decision(
    allow: bool,
    reasons: &Vec<String>,
    errors: &Vec<String>,
    decision: &mut Decision,
) -> (r: Diagnostics)
    ensures
        errors@.len() > 0 ==> r@ == messages_view(strings_view(errors@)),
        errors@.len() > 0 ==> *final(decision) == *old(decision),
        errors@.len() == 0 ==> r@.len() == 0,
        errors@.len() == 0 ==> final(decision).allow == allow,
        errors@.len() == 0 ==> final(decision).reasons@ == strings_view(reasons@),
{
    if errors.len() != 0 {
        return diagnostics_from_messages(errors);
    }
    let mut ids: Vec<RawString> = Vec::new();
    let mut i: usize = 0;
    while i < reasons.len()
        invariant
            i <= reasons@.len(),
            ids@.len() == i,
            forall|j: int| 0 <= j < i ==> #[trigger] ids@[j]@ == reasons@[j]@,
        decreases reasons@.len() - i,
    {
        ids.push(RawString::from_string(reasons[i].clone()));
        i = i + 1;
    }
    let ids = RawVec::from_vec(ids);
    assert(ids@ =~= strings_view(reasons@));
    *decision = Decision::new(allow, ids);
    let r = Diagnostics::empty();
    r
}

/// The message for an input that could not be read.
pub fn failure_message(what: &str, err: &str) -> (r: String)
    ensures
        r@ == "Failed to parse "@ + what@ + ": "@ + err@,
{
    let mut m = String::from_str("Failed to parse ");
    m.append(what);
    m.append(": ");
    m.append(err);
    m
}

/// The member of the request of that name, unless it is missing or null.
fn request_member(call: &serde_json::Map<String, serde_json::Value>, name: &str) -> Option<serde_json::Value> {
    match json_member(call, name) {
        None => None,
        Some(v) => if v.is_null() {
            None
        } else {
            Some(v)
        },
    }
}

/// What a context is checked against: the schema and the action, when there
/// is a schema and the action was read; else nothing.
pub fn context_shape<'a>(
    schema: Option<&'a cedar_policy::Schema>,
    action: &'a FieldOutcome<cedar_policy::EntityUid>,
) -> (r: Option<(&'a cedar_policy::Schema, &'a cedar_policy::EntityUid)>)
    ensures
        r is Some <==> schema is Some && action is Parsed,
        r is Some ==> r->Some_0.0 == schema->Some_0 && *r->Some_0.1 == action->Parsed_0,
{
    match (schema, action) {
        (Some(sc), FieldOutcome::Parsed(uid)) => Some((sc, uid)),
        _ => None,
    }
}

/// Reads one entity identifier of the request.
fn uid_field(call: &serde_json::Map<String, serde_json::Value>, name: &str) -> FieldOutcome<cedar_policy::EntityUid> {
    match request_member(call, name) {
        None => FieldOutcome::Absent,
        Some(v) => match entity_uid_from_json(v) {
            Ok(uid) => FieldOutcome::Parsed(uid),
            Err(e) => FieldOutcome::Failed(failure_message(name, e.as_str())),
        },
    }
}

/// Decides a request given as JSON text against a policy set, with an
/// optional schema (a null handle for none). Malformed inputs are all
/// reported and then nothing is evaluated; errors met while evaluating are
/// reported in place of the decision. Whenever a diagnostic is returned,
/// `decision` is left as it was.
pub fn is_authorized(
    a: &AuthorizerHandle,
    request_json: &str,
    p: &PolicySetHandle,
    s: &SchemaHandle,
    decision: &mut Decision,
) -> (r: Diagnostics)
    requires
        a.ptr is Some,
        p.ptr is Some,
    ensures
        r@.len() > 0 ==> *final(decision) == *old(decision),
        json_object_error(request_json@) is Some ==> r@ == seq![
            message_view(json_object_error(request_json@)->Some_0),
        ],
        forall|k: int| 0 <= k < r@.len() ==> #[trigger] r@[k].severity == Severity::Error,
{
    let call = match json_object_from_text(request_json) {
        Ok(m) => m,
        Err(e) => {
            let r = RawVec::from_vec(vec![Diagnostic::from_str(e)]);
            assert(r@ =~= seq![message_view(json_object_error(request_json@)->Some_0)]);
            return r;
        },
    };
    let principal = uid_field(&call, "principal");
    let action = uid_field(&call, "action");
    let resource = uid_field(&call, "resource");
    let schema = s.as_ref();
    let context = match request_member(&call, "context") {
        None => FieldOutcome::Absent,
        Some(v) => {
            let schema_action = context_shape(schema, &action);
            match context_from_json(v, schema_action) {
                Ok(c) => FieldOutcome::Parsed(c),
                Err(e) => FieldOutcome::Failed(failure_message("context", e.as_str())),
            }
        },
    };
    let entities = match request_member(&call, "entities") {
        None => FieldOutcome::Absent,
        Some(v) => match entities_from_json(v, schema) {
            Ok(es) => FieldOutcome::Parsed(es),
            Err(e) => FieldOutcome::Failed(failure_message("entities", e.as_str())),
        },
    };
    let ghost failures = request_failures(principal, action, resource, context, entities);
    let parts = match assemble_request(principal, action, resource, context, entities) {
        Ok(parts) => parts,
        Err(diags) => {
            proof {
                lemma_messages_are_errors(failures);
            }
            return diags;
        },
    };
    let (authorizer, policies) = match (a.as_ref(), p.as_ref()) {
        (Some(x), Some(y)) => (x, y),
        _ => {
            proof {
                assert(false);
            }
            return Diagnostics::empty();
        },
    };
    let request = cedar_policy::Request::new(
        parts.principal,
        parts.action,
        parts.resource,
        parts.context,
    );
    let response = evaluate(authorizer, &request, policies, &parts.entities);
    let errors = response_errors(&response);
    let reasons = response_reasons(&response);
    proof {
        lemma_messages_are_errors(strings_view(errors@));
    }
    settle_decision(response_allows(&response), &reasons, &errors, decision)
}

} // verus!
