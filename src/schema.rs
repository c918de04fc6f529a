use crate::diagnostics::{
    diagnostics_from_messages, messages_view, strings_view, Diagnostic, DiagnosticView,
    Diagnostics,
};
use crate::engine::{schema_from_text, schema_text_accepted};
use crate::handle::{Handle, SchemaHandle};
use crate::raw_string::RawVec;
use vstd::prelude::*;

verus! {

/// Why a schema text was refused: one of the parse error kinds, with the
/// message of each parse error, or a schema error of another kind with its
/// message.
pub enum SchemaFailure {
    EntityTypeParse(Vec<String>),
    NamespaceParse(Vec<String>),
    CommonTypeParse(Vec<String>),
    ExtensionTypeParse(Vec<String>),
    Other(String),
}

/// The diagnostics for a refused schema: the parse errors of a parse error
/// kind are flattened, one diagnostic each; any other schema error is a
/// single message diagnostic.
pub open spec fn schema_failure_view(f: SchemaFailure) -> Seq<DiagnosticView> {
    match f {
        SchemaFailure::EntityTypeParse(ms) => messages_view(strings_view(ms@)),
        SchemaFailure::NamespaceParse(ms) => messages_view(strings_view(ms@)),
        SchemaFailure::CommonTypeParse(ms) => messages_view(strings_view(ms@)),
        SchemaFailure::ExtensionTypeParse(ms) => messages_view(strings_view(ms@)),
        SchemaFailure::Other(m) => messages_view(seq![m@]),
    }
}

/// Flattens a schema failure into diagnostics.
pub fn diagnostics_from_schema_failure(f: &SchemaFailure) -> (r: Diagnostics)
    ensures
        r@ == schema_failure_view(*f),
{
    match f {
        SchemaFailure::EntityTypeParse(ms) => diagnostics_from_messages(ms),
        SchemaFailure::NamespaceParse(ms) => diagnostics_from_messages(ms),
        SchemaFailure::CommonTypeParse(ms) => diagnostics_from_messages(ms),
        SchemaFailure::ExtensionTypeParse(ms) => diagnostics_from_messages(ms),
        SchemaFailure::Other(m) => {
            let r = RawVec::from_vec(vec![Diagnostic::from_str(m.clone())]);
            assert(r@ =~= schema_failure_view(*f));
            r
        },
    }
}

/// Parses schema text. On success the schema is stored in `s` and no
/// diagnostic is returned; on failure `s` is left as it was and the failure
/// is reported as `diagnostics_from_schema_failure` flattens it.
pub fn parse_schema(input: &str, s: &mut SchemaHandle) -> (r: Diagnostics)
    ensures
        schema_text_accepted(input@) ==> final(s).ptr is Some && r@.len() == 0,
        !schema_text_accepted(input@) ==> *final(s) == *old(s),
        !schema_text_accepted(input@) ==> exists|f: SchemaFailure| r@ == schema_failure_view(f),
{
    match schema_from_text(input) {
        Ok(schema) => {
            *s = Handle::new(schema);
            let r = Diagnostics::empty();
            r
        },
        Err(f) => diagnostics_from_schema_failure(&f),
    }
}

} // verus!
