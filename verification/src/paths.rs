//! Path exclusion patterns.
//!
//! Simulation files can be excluded by exact paths or by patterns whose
//! first component is a double star, which match any path ending in the
//! pattern's remaining components. Paths are handled as their component
//! lists; turning a platform path into components is the caller's
//! concern.

use vstd::prelude::*;
use vstd::string::StringExecFns;

verus! {

/// Whether the trailing components of `path` equal the trailing
/// components of `tail`, compared pairwise from the back up to the
/// shorter of the two.
pub open spec fn spec_suffix_matches(path: Seq<String>, tail: Seq<String>) -> bool {
    forall|i: int|
        0 <= i < path.len() && i < tail.len() ==> (#[trigger] path[path.len() - 1 - i])@ == tail[
            tail.len() - 1 - i]@
}

/// Whether two component lists spell the same path.
pub open spec fn spec_components_equal(a: Seq<String>, b: Seq<String>) -> bool {
    a.len() == b.len() && forall|i: int| 0 <= i < a.len() ==> (#[trigger] a[i])@ == b[i]@
}

/// Whether one exclusion entry matches a path: a leading double star
/// matches any path ending in the entry's remaining components, and
/// any other entry matches only the identical path.
pub open spec fn spec_ignored_by(path: Seq<String>, entry: Seq<String>) -> bool {
    if entry.len() > 0 && entry[0]@ == "**"@ {
        spec_suffix_matches(path, entry.drop_first())
    } else {
        spec_components_equal(path, entry)
    }
}

/// Whether the trailing components match, decided from the back.
fn suffix_matches(path: &Vec<String>, entry: &Vec<String>) -> (r: bool)
    requires
        entry@.len() >= 1,
    ensures
        r == spec_suffix_matches(path@, entry@.drop_first()),
{
    let n = path.len();
    let m = entry.len() - 1;
    let bound = if n < m {
        n
    } else {
        m
    };
    let ghost tail = entry@.drop_first();
    let mut i: usize = 0;
    while i < bound
        invariant
            0 <= i <= bound,
            n == path@.len(),
            m == entry@.len() - 1,
            bound == if n < m {
                n
            } else {
                m
            },
            tail == entry@.drop_first(),
            forall|t: int|
                0 <= t < i ==> (#[trigger] path@[n - 1 - t])@ == tail[m - 1 - t]@,
        decreases bound - i,
    {
        proof {
            assert(tail[m - 1 - i] == entry@[m - i]);
        }
        if !path[n - 1 - i].eq(&entry[m - i]) {
            proof {
                let ghost w = i as int;
                assert((path@[n - 1 - w])@ != tail[m - 1 - w]@);
            }
            return false;
        }
        i += 1;
    }
    proof {
        assert(tail.len() == m);
        assert forall|t: int|
            0 <= t < path@.len() && t < tail.len() implies (#[trigger] path@[path@.len() - 1
            - t])@ == tail[tail.len() - 1 - t]@ by {
            assert(t < bound);
        }
    }
    true
}

/// Whether two component lists spell the same path.
fn components_equal(a: &Vec<String>, b: &Vec<String>) -> (r: bool)
    ensures
        r == spec_components_equal(a@, b@),
{
    let n = a.len();
    if n != b.len() {
        return false;
    }
    let mut i: usize = 0;
    while i < n
        invariant
            0 <= i <= n,
            n == a@.len(),
            n == b@.len(),
            forall|t: int| 0 <= t < i ==> (#[trigger] a@[t])@ == b@[t]@,
        decreases n - i,
    {
        if !a[i].eq(&b[i]) {
            proof {
                let ghost w = i as int;
                assert((a@[w])@ != b@[w]@);
            }
            return false;
        }
        i += 1;
    }
    true
}

/// Whether a path is excluded by any of the exclusion entries.
#[verifier::loop_isolation(false)]
pub fn ignore(path: &Vec<String>, ignore_paths: &Vec<Vec<String>>) -> (r: bool)
    ensures
        r == exists|k: int|
            0 <= k < ignore_paths@.len() && spec_ignored_by(
                path@,
                (#[trigger] ignore_paths@[k])@,
            ),
{
    let n = ignore_paths.len();
    let mut k: usize = 0;
    let star = String::from_str("**");
    while k < n
        invariant
            0 <= k <= n,
            star@ == "**"@,
            forall|t: int|
                0 <= t < k ==> !spec_ignored_by(path@, (#[trigger] ignore_paths@[t])@),
        decreases n - k,
    {
        let entry = &ignore_paths[k];
        let matched = if entry.len() > 0 && entry[0].eq(&star) {
            suffix_matches(path, entry)
        } else {
            components_equal(path, entry)
        };
        if matched {
            proof {
                let ghost w = k as int;
                assert(spec_ignored_by(path@, (ignore_paths@[w])@));
            }
            return true;
        }
        k += 1;
    }
    false
}

} // verus!
