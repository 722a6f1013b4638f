//! Derivative key policy: a pure mapping from a source object key to the
//! key under which the re-encoded derivative is stored.
//!
//! The derived key is `"optimized/" + basename(key) + ".webp"`, where
//! `basename` is the substring after the final `/` (a key without a `/` is
//! its own basename, and a key ending in `/` has an empty basename).

use vstd::prelude::*;
use vstd::string::*;

verus! {

/// Index of the first character of the basename of `k`: the position right
/// after the last `/`, or `0` when `k` holds no `/`.
pub open spec fn basename_start(k: Seq<char>) -> int
    decreases k.len(),
{
    if k.len() == 0 {
        0
    } else if k[k.len() - 1] == '/' {
        k.len() as int
    } else {
        basename_start(k.subrange(0, k.len() - 1))
    }
}

/// The substring of `k` after its last `/`.
pub open spec fn spec_basename(k: Seq<char>) -> Seq<char> {
    k.subrange(basename_start(k), k.len() as int)
}

/// The key under which the derivative of the object at `k` is stored.
pub open spec fn spec_derived_key(k: Seq<char>) -> Seq<char> {
    "optimized/"@ + spec_basename(k) + ".webp"@
}

/// Basename of a key: everything after the last `/`.
pub fn basename_of(k: &str) -> (r: &str)
    ensures
        r@ == spec_basename(k@),
{
    let n = k.unicode_len();
    let mut cut: usize = n;
    proof {
        assert(k@.subrange(0, n as int) =~= k@);
    }
    loop
        invariant
            cut <= n,
            n == k@.len(),
            basename_start(k@) == basename_start(k@.subrange(0, cut as int)),
        ensures
            cut <= n,
            cut == basename_start(k@),
        decreases cut,
    {
        if cut == 0 {
            break;
        }
        let c = k.get_char(cut - 1);
        if c == '/' {
            proof {
                let pre = k@.subrange(0, cut as int);
                assert(pre[pre.len() - 1] == '/');
            }
            break;
        }
        proof {
            let pre = k@.subrange(0, cut as int);
            assert(pre[pre.len() - 1] != '/');
            assert(pre.subrange(0, pre.len() - 1) =~= k@.subrange(0, cut - 1));
        }
        cut = cut - 1;
    }
    k.substring_char(cut, n)
}

/// Derive the storage key of the derivative of the source object at `k`.
///
/// The result is a pure function of `k` alone, so a repeated run of the
/// pipeline writes the derivative to the same location.
pub fn derive_key(k: &str) -> (r: String)
    ensures
        r@ == spec_derived_key(k@),
{
    let b = basename_of(k);
    let mut s = String::from_str("optimized/");
    s.append(b);
    s.append(".webp");
    s
}

} // verus!
