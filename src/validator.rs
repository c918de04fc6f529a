use crate::diagnostics::{Diagnostic, DiagnosticView, Diagnostics, LabeledSpan, Severity};
use crate::engine::validation_issues;
use crate::handle::{Handle, PolicySetHandle, SchemaHandle, ValidatorHandle};
use crate::raw_string::{RawString, RawVec};
use vstd::prelude::*;

verus! {

/// A validation error as the validator reports it: a message, and the
/// source range `(start, end)` where it was found, if known.
pub struct ValidationIssue {
    pub message: String,
    pub range: Option<(usize, usize)>,
}

/// The span of a validation issue: its range as offset and length, or the
/// empty span at 0 when it has none. A range that ends before it starts
/// gets length 0.
pub open spec fn issue_span(range: Option<(usize, usize)>) -> (usize, usize) {
    match range {
        None => (0, 0),
        Some((start, end)) => (start, if end >= start { (end - start) as usize } else { 0 }),
    }
}

/// A validation diagnostic: an error with one span that carries the message,
/// and no code, help or url.
pub open spec fn issue_view(i: ValidationIssue) -> DiagnosticView {
    DiagnosticView {
        code: Seq::<char>::empty(),
        labels: seq![(i.message@, issue_span(i.range).0, issue_span(i.range).1)],
        severity: Severity::Error,
        help: Seq::<char>::empty(),
        url: Seq::<char>::empty(),
    }
}

pub open spec fn is_validation_diagnostic(d: DiagnosticView) -> bool {
    exists|i: ValidationIssue| d == issue_view(i)
}

/// The diagnostic of one validation issue.
pub fn diagnostic_from_issue(i: &ValidationIssue) -> (r: Diagnostic)
    ensures
        r@ == issue_view(*i),
{
    let (offset, len) = match i.range {
        None => (0usize, 0usize),
        Some((start, end)) => (start, if end >= start { end - start } else { 0 }),
    };
    let span = LabeledSpan::new(RawString::from_string(i.message.clone()), offset, len);
    let labels = RawVec::from_vec(vec![span]);
    let r = Diagnostic::new(labels, Severity::Error);
    assert(r@.labels =~= issue_view(*i).labels);
    r
}

/// One diagnostic per validation issue, in order.
pub fn diagnostics_from_issues(issues: &Vec<ValidationIssue>) -> (r: Diagnostics)
    ensures
        r@ == issues@.map_values(|i: ValidationIssue| issue_view(i)),
{
    let mut out: Vec<Diagnostic> = Vec::new();
    let mut k: usize = 0;
    while k < issues.len()
        invariant
            k <= issues@.len(),
            out@.len() == k,
            forall|j: int| 0 <= j < k ==> #[trigger] out@[j]@ == issue_view(issues@[j]),
        decreases issues@.len() - k,
    {
        out.push(diagnostic_from_issue(&issues[k]));
        k = k + 1;
    }
    let r = RawVec::from_vec(out);
    assert(r@ =~= issues@.map_values(|i: ValidationIssue| issue_view(i)));
    r
}

/// A validator over a copy of the schema; the caller keeps its own handle.
pub fn new_validator(s: &SchemaHandle) -> (r: ValidatorHandle)
    requires
        s.ptr is Some,
    ensures
        r.ptr is Some,
{
    let schema: &cedar_policy::Schema = match s.as_ref() {
        Some(x) => x,
        None => {
            proof {
                assert(false);
            }
            return Handle::null();
        },
    };
    Handle::new(cedar_policy::Validator::new(schema.clone()))
}

/// Validates a policy set in permissive mode: no diagnostic when it passes,
/// else one error diagnostic per validation error, its span taken from the
/// error's source range and its message in the span's text.
pub fn validate(validator: &ValidatorHandle, policy_set: &PolicySetHandle) -> (r: Diagnostics)
    requires
        validator.ptr is Some,
        policy_set.ptr is Some,
    ensures
        forall|k: int| 0 <= k < r@.len() ==> is_validation_diagnostic(#[trigger] r@[k]),
{
    match (validator.as_ref(), policy_set.as_ref()) {
        (Some(v), Some(p)) => {
            let issues = validation_issues(v, p);
            let r = diagnostics_from_issues(&issues);
            assert forall|k: int| 0 <= k < r@.len() implies is_validation_diagnostic(#[trigger] r@[k]) by {
                assert(r@[k] == issue_view(issues@[k]));
            }
            r
        },
        _ => {
            let r = Diagnostics::empty();
            r
        },
    }
}

} // verus!
