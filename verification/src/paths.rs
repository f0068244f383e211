//! Derivation of the shadow path.
//!
//! The loader never maps the canonical artifact itself: it maps a private
//! copy, so a build tool can overwrite the canonical file freely even on
//! platforms that lock open files.  The shadow path lives in the same
//! directory and keeps the same extension; a fixed marker is inserted into
//! the file name just before the final dot.

use vstd::prelude::*;
use vstd::string::StrSliceExecFns;
use vstd::string::StringExecFns;

verus! {

/// The marker inserted before the extension of the canonical file name.
pub open spec fn marker() -> Seq<char> {
    "_updated"@
}

/// Index of the last `.` in `p`, or `-1` if `p` holds none.
pub open spec fn last_dot(p: Seq<char>) -> int
    decreases p.len(),
{
    if p.len() == 0 {
        -1
    } else if p.last() == '.' {
        p.len() - 1
    } else {
        last_dot(p.drop_last())
    }
}

/// A path can be given a shadow name when its file name has an extension:
/// there is a last dot, it is preceded by at least one character of the file
/// name proper, and no directory separator follows it.
pub open spec fn has_shadow_point(p: Seq<char>) -> bool {
    &&& 1 <= last_dot(p)
    &&& p[last_dot(p) - 1] != '/'
    &&& forall|j: int| last_dot(p) < j < p.len() ==> p[j] != '/'
}

/// The shadow name: the marker spliced in just before the last dot.
pub open spec fn shadow_name(p: Seq<char>) -> Seq<char>
    recommends
        has_shadow_point(p),
{
    p.subrange(0, last_dot(p)) + marker() + p.subrange(last_dot(p), p.len() as int)
}

/// `last_dot` really is the last dot: it indexes a `.`, and no later
/// position does.
proof fn lemma_last_dot(p: Seq<char>)
    ensures
        last_dot(p) >= -1,
        last_dot(p) < p.len(),
        last_dot(p) >= 0 ==> p[last_dot(p)] == '.',
        forall|i: int| 0 <= i < p.len() && p[i] == '.' ==> last_dot(p) >= i,
    decreases p.len(),
{
    if p.len() == 0 {
    } else if p.last() == '.' {
    } else {
        lemma_last_dot(p.drop_last());
        assert forall|i: int| 0 <= i < p.len() && p[i] == '.' implies last_dot(p) >= i by {
            assert(i < p.len() - 1);
            assert(p.drop_last()[i] == p[i]);
        }
    }
}

/// Locate the shadow point of `path`: the index of the last dot, provided
/// the path has one in a position that admits a shadow name.
fn scan_shadow_point(path: &str) -> (r: Option<usize>)
    ensures
        (match r {
            Some(d) => has_shadow_point(path@) && d == last_dot(path@),
            None => !has_shadow_point(path@),
        }),
{
    proof {
        lemma_last_dot(path@);
    }
    let n: usize = path.unicode_len();
    let mut i: usize = n;
    loop
        invariant
            0 <= i <= n,
            n == path@.len(),
            forall|j: int| i <= j < n ==> path@[j] != '.' && path@[j] != '/',
            last_dot(path@) >= -1,
            last_dot(path@) < path@.len(),
            last_dot(path@) >= 0 ==> path@[last_dot(path@)] == '.',
            forall|k: int| 0 <= k < path@.len() && path@[k] == '.' ==> last_dot(path@) >= k,
        decreases i,
    {
        if i == 0 {
            // no dot anywhere: the path has no extension
            assert(last_dot(path@) < 0);
            return None;
        }
        let c = path.get_char(i - 1);
        if c == '/' {
            // a separator follows every dot the path may hold
            assert(last_dot(path@) < i - 1);
            return None;
        }
        if c == '.' {
            assert(last_dot(path@) == i - 1);
            if i - 1 == 0 {
                return None;
            }
            let prev = path.get_char(i - 2);
            if prev == '/' {
                return None;
            }
            return Some(i - 1);
        }
        i = i - 1;
    }
}

/// Whether `make_cloned_name` accepts `path`: its file name must end in an
/// extension for the marker to be spliced before.
pub fn is_shadowable(path: &str) -> (b: bool)
    ensures
        b == has_shadow_point(path@),
{
    scan_shadow_point(path).is_some()
}

/// Creates the shadow ("cloned") artifact name: the path with the marker
/// inserted before its extension.
pub fn make_cloned_name(path: &str) -> (r: String)
    requires
        has_shadow_point(path@),
    ensures
        r@ == shadow_name(path@),
{
    proof {
        lemma_last_dot(path@);
    }
    let n: usize = path.unicode_len();
    match scan_shadow_point(path) {
        Some(d) => {
            let prefix = path.substring_char(0, d);
            let rest = path.substring_char(d, n);
            let mut r = String::from_str(prefix);
            r.append("_updated");
            r.append(rest);
            r
        },
        None => {
            proof {
                assert(false);
            }
            String::new()
        },
    }
}

} // verus!
