use vstd::prelude::*;

verus! {

/// Liveness probe of the host page: answers with `target` unchanged (`rid` only tags
/// the request in the log).
pub fn ping(target: i64, rid: i64) -> (r: Result<i64, String>)
    ensures
        r == Ok::<i64, String>(target),
{
    Ok(target)
}

} // verus!
