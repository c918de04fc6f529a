//! A boundary around the cedar policy engine: owned strings, vectors and
//! opaque handles that a caller outside Rust can hold and release, and the
//! marshaling of the engine's errors into flat diagnostics.

mod authorizer;
mod diagnostics;
mod engine;
mod frontend;
mod handle;
mod policy_set;
mod raw_string;
mod schema;
mod validator;

pub use authorizer::{
    assemble_request, context_shape, failure_message, failure_of, is_authorized,
    lemma_malformed_identifiers_reported, new_authorizer, parsed_of, request_failures,
    settle_decision, Decision, FieldOutcome, RequestParts,
};
pub use diagnostics::{
    diagnostics_from_errors, diagnostics_from_messages, engine_view, error_view, free_diagnostics,
    free_labels, labels_from_source, lemma_messages_are_errors, message_view, messages_view, opt_text, severity_of,
    source_span, source_spans, strings_view, Diagnostic, DiagnosticView, Diagnostics,
    EngineDiagnostic, EngineError, EngineSeverity, LabeledSpan, Labels, Severity, SourceLabel,
};
pub use engine::{json_object_error, policy_parse_errors, schema_text_accepted};
pub use frontend::json_is_authorized;
pub use handle::{
    free_authorizer, free_policy_set, free_schema, free_validator, AuthorizerHandle, Handle,
    PolicySetHandle, SchemaHandle, ValidatorHandle,
};
pub use policy_set::{lemma_parse_policies_stable, parse_policies, policy_diagnostics};
pub use raw_string::{free_raw_strings, free_string, RawString, RawStrings, RawVec};
pub use schema::{diagnostics_from_schema_failure, parse_schema, schema_failure_view, SchemaFailure};
pub use validator::{
    diagnostic_from_issue, diagnostics_from_issues, is_validation_diagnostic, issue_span,
    issue_view, new_validator, validate, ValidationIssue,
};
