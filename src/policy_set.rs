use crate::diagnostics::{diagnostics_from_messages, messages_view, DiagnosticView, Diagnostics};
use crate::engine::{policy_parse_errors, policy_set_from_text};
use crate::handle::{Handle, PolicySetHandle};
use vstd::prelude::*;

verus! {

/// The diagnostics for a policy text: none when it parses, else one per
/// parse error.
pub open spec fn policy_diagnostics(text: Seq<char>) -> Seq<DiagnosticView> {
    match policy_parse_errors(text) {
        None => Seq::empty(),
        Some(ms) => messages_view(ms),
    }
}

/// Parses policy text into a policy set. On success the set is stored in
/// `policy_set`; on failure `policy_set` is left as it was and each parse
/// error is reported.
pub fn parse_policies(input: &str, policy_set: &mut PolicySetHandle) -> (r: Diagnostics)
    ensures
        r@ == policy_diagnostics(input@),
        policy_parse_errors(input@) is None ==> final(policy_set).ptr is Some,
        policy_parse_errors(input@) is Some ==> *final(policy_set) == *old(policy_set),
{
    match policy_set_from_text(input) {
        Ok(set) => {
            *policy_set = Handle::new(set);
            let r = Diagnostics::empty();
            r
        },
        Err(messages) => diagnostics_from_messages(&messages),
    }
}

/// Parsing the same policy text twice reports the same diagnostics: what
/// `parse_policies` returns depends on the text alone.
pub proof fn lemma_parse_policies_stable(
    text: Seq<char>,
    first: Seq<DiagnosticView>,
    second: Seq<DiagnosticView>,
)
    requires
        first == policy_diagnostics(text),
        second == policy_diagnostics(text),
    ensures
        first == second,
        policy_parse_errors(text) is Some ==> first.len() == policy_parse_errors(text)->Some_0.len(),
{
}

} // verus!
