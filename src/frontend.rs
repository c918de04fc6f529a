use crate::engine::{answer_to_json, frontend_answer};
use crate::raw_string::RawString;
use vstd::prelude::*;

verus! {

/// Answers a single JSON call that bundles request, policies and entities,
/// as JSON text; the empty string where the answer cannot be serialized.
pub fn json_is_authorized(input: &str) -> (r: RawString)
    ensures
        r@.len() == 0 || r@[0] == '{',
{
    let answer = frontend_answer(input);
    RawString::from_option(answer_to_json(&answer))
}

} // verus!
