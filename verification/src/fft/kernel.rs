//! Scalar specialization of the FFT kernel templates.

use crate::text::{replace_all, replace_spec};
use vstd::prelude::*;

verus! {

/// The placeholder the FFT kernel templates use for their scalar type.
pub open spec fn scalar_placeholder() -> Seq<char> {
    "{{scalar}}"@
}

/// A kernel template specialized to one scalar: `preamble` (the extensions
/// the scalar needs, possibly none) followed by the template with every
/// placeholder replaced by the scalar's WGSL `token`.
pub fn scalar_source(template: &str, token: &str, preamble: &str) -> (s: String)
    ensures
        s@ == preamble@ + replace_spec(template@, scalar_placeholder(), token@),
{
    proof {
        reveal_strlit("{{scalar}}");
    }
    let body = replace_all(template, "{{scalar}}", token);
    let mut s = String::from_str(preamble);
    s.append(body.as_str());
    s
}

} // verus!
