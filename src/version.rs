//! Version identifiers, compared by their first two dot-separated components.
use vstd::prelude::*;
use vstd::string::StrSliceExecFns;

use crate::error::QoqoError;

verus! {

/// Version of the measurement engine.
pub const CORE_VERSION: &'static str = "1.0.0";

/// Version of the program layer.
pub const QOQO_VERSION: &'static str = "1.0.0";

/// Position of the first '.' of `v` at or after `from`, or the length of `v`.
pub open spec fn dot_from(v: Seq<char>, from: nat) -> nat
    decreases v.len() - from,
{
    if from >= v.len() {
        v.len()
    } else if v[from as int] == '.' {
        from
    } else {
        dot_from(v, from + 1)
    }
}

/// The first two components of `v` with the dot between them, where `v` has a dot.
pub open spec fn major_minor_of(v: Seq<char>) -> Option<Seq<char>> {
    let first = dot_from(v, 0);
    if first >= v.len() {
        None
    } else {
        Some(v.subrange(0, dot_from(v, first + 1) as int))
    }
}

proof fn lemma_dot_from_bounds(v: Seq<char>, from: nat)
    ensures
        dot_from(v, from) <= v.len() || dot_from(v, from) == from,
        from <= v.len() ==> from <= dot_from(v, from) <= v.len(),
        dot_from(v, from) < v.len() ==> v[dot_from(v, from) as int] == '.',
    decreases v.len() - from,
{
    if from < v.len() && v[from as int] != '.' {
        lemma_dot_from_bounds(v, from + 1);
    }
}

fn find_dot(v: &str, from: usize, n: usize) -> (r: usize)
    requires
        n == v@.len(),
        from <= n,
    ensures
        r == dot_from(v@, from as nat),
{
    let mut i = from;
    while i < n
        invariant
            n == v@.len(),
            from <= i <= n,
            dot_from(v@, from as nat) == dot_from(v@, i as nat),
        decreases n - i,
    {
        if v.get_char(i) == '.' {
            return i;
        }
        i = i + 1;
    }
    i
}

/// The first two dot-separated components of `version`, or `None` where it has no dot.
pub fn major_minor(version: &str) -> (r: Option<String>)
    ensures
        r is None <==> major_minor_of(version@) is None,
        r matches Some(s) ==> major_minor_of(version@) == Some(s@),
{
    let n = version.unicode_len();
    let first = find_dot(version, 0, n);
    if first >= n {
        return None;
    }
    proof {
        lemma_dot_from_bounds(version@, (first + 1) as nat);
    }
    let second = find_dot(version, first + 1, n);
    Some(version.substring_char(0, second).to_owned())
}

/// The first two components of the engine version and of the program-layer version.
pub fn qoqo_versions() -> (r: (String, String))
    ensures
        major_minor_of(CORE_VERSION@) == Some(r.0@),
        major_minor_of(QOQO_VERSION@) == Some(r.1@),
{
    proof {
        reveal_strlit("1.0.0");
        reveal_with_fuel(dot_from, 3);
    }
    let core = major_minor(CORE_VERSION);
    let qoqo = major_minor(QOQO_VERSION);
    match (core, qoqo) {
        (Some(c), Some(q)) => (c, q),
        _ => (String::new(), String::new()),
    }
}

/// Checks versions reported by another build against this one: both must
/// agree in their first two components, else `VersionMismatch`.
pub fn check_versions(core: &String, qoqo: &String) -> (r: Result<(), QoqoError>)
    ensures
        r is Ok <==> major_minor_of(CORE_VERSION@) == Some(core@) && major_minor_of(QOQO_VERSION@)
            == Some(qoqo@),
        r is Err ==> r == Err::<(), QoqoError>(QoqoError::VersionMismatch),
{
    let (own_core, own_qoqo) = qoqo_versions();
    if own_core == *core && own_qoqo == *qoqo {
        Ok(())
    } else {
        Err(QoqoError::VersionMismatch)
    }
}

} // verus!
