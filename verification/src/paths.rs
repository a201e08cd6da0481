//! Path layout: paths are plain strings joined with a single separator.

use vstd::prelude::*;
use vstd::string::StringExecFns;

verus! {

/// The view of `base` with the component `name` appended.
pub open spec fn spec_join(base: Seq<char>, name: Seq<char>) -> Seq<char> {
    base + "/"@ + name
}

/// Appends one component to a base path.
pub fn join_path(base: &str, name: &str) -> (r: String)
    ensures
        r@ == spec_join(base@, name@),
{
    let mut s = base.to_owned();
    s.append("/");
    s.append(name);
    s
}

} // verus!
