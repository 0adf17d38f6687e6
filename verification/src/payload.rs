//! Preparing the generator's structured text for parsing.
//!
//! The question generator returns its payload as structured text that
//! may be wrapped in delimiter markers: a leading code fence tagged
//! `json` and a trailing bare code fence, possibly with surrounding
//! whitespace. [`strip_generated_payload`] removes those markers so the
//! remainder can be parsed structurally.

use vstd::prelude::*;

verus! {

/// The bytes of the leading delimiter marker: three backticks and the
/// tag `json`.
pub open spec fn fence_json() -> Seq<u8> {
    seq![96u8, 96u8, 96u8, 106u8, 115u8, 111u8, 110u8]
}

/// The bytes of a bare delimiter marker: three backticks.
pub open spec fn fence() -> Seq<u8> {
    seq![96u8, 96u8, 96u8]
}

/// Whether `s` begins with `p`.
pub open spec fn starts_with(s: Seq<u8>, p: Seq<u8>) -> bool {
    p.len() <= s.len() && s.take(p.len() as int) == p
}

/// Whether `s` ends with `p`.
pub open spec fn ends_with(s: Seq<u8>, p: Seq<u8>) -> bool {
    p.len() <= s.len() && s.skip(s.len() - p.len()) == p
}

/// `s` with every leading tagged fence removed.
pub open spec fn strip_leading_fences(s: Seq<u8>) -> Seq<u8>
    decreases s.len(),
{
    if starts_with(s, fence_json()) {
        strip_leading_fences(s.skip(7))
    } else {
        s
    }
}

/// `s` with every trailing bare fence removed.
pub open spec fn strip_trailing_fences(s: Seq<u8>) -> Seq<u8>
    decreases s.len(),
{
    if ends_with(s, fence()) {
        strip_trailing_fences(s.take(s.len() - 3))
    } else {
        s
    }
}

/// The whitespace bytes trimmed from the payload's edges.
pub open spec fn is_ws(b: u8) -> bool {
    b == 32 || b == 9 || b == 10 || b == 11 || b == 12 || b == 13
}

/// `s` with every leading whitespace byte removed.
pub open spec fn trim_front(s: Seq<u8>) -> Seq<u8>
    decreases s.len(),
{
    if s.len() > 0 && is_ws(s[0]) {
        trim_front(s.skip(1))
    } else {
        s
    }
}

/// `s` with every trailing whitespace byte removed.
pub open spec fn trim_back(s: Seq<u8>) -> Seq<u8>
    decreases s.len(),
{
    if s.len() > 0 && is_ws(s[s.len() - 1]) {
        trim_back(s.take(s.len() - 1))
    } else {
        s
    }
}

/// The fully stripped payload: leading tagged fences, then trailing
/// bare fences, then whitespace on both edges.
pub open spec fn strip_payload(s: Seq<u8>) -> Seq<u8> {
    trim_back(trim_front(strip_trailing_fences(strip_leading_fences(s))))
}

/// Runtime counterpart of [`is_ws`].
fn ws(b: u8) -> (r: bool)
    ensures
        r == is_ws(b),
{
    b == 32 || b == 9 || b == 10 || b == 11 || b == 12 || b == 13
}

/// Whether `bytes[lo..hi]` begins with the tagged fence.
fn has_fence_json_at(bytes: &Vec<u8>, lo: usize, hi: usize) -> (r: bool)
    requires
        lo <= hi <= bytes@.len(),
    ensures
        r == starts_with(bytes@.subrange(lo as int, hi as int), fence_json()),
{
    let ghost s = bytes@.subrange(lo as int, hi as int);
    if hi - lo < 7 {
        return false;
    }
    let r = bytes[lo] == 96 && bytes[lo + 1] == 96 && bytes[lo + 2] == 96 && bytes[lo + 3] == 106
        && bytes[lo + 4] == 115 && bytes[lo + 5] == 111 && bytes[lo + 6] == 110;
    proof {
        if r {
            assert(s.take(7) =~= fence_json());
        } else if starts_with(s, fence_json()) {
            assert forall|k: int| 0 <= k < 7 implies s[k] == fence_json()[k] by {
                assert(s.take(7)[k] == fence_json()[k]);
            }
            assert(false);
        }
    }
    r
}

/// Whether `bytes[lo..hi]` ends with a bare fence.
fn has_fence_end_at(bytes: &Vec<u8>, lo: usize, hi: usize) -> (r: bool)
    requires
        lo <= hi <= bytes@.len(),
    ensures
        r == ends_with(bytes@.subrange(lo as int, hi as int), fence()),
{
    let ghost s = bytes@.subrange(lo as int, hi as int);
    if hi - lo < 3 {
        return false;
    }
    let r = bytes[hi - 3] == 96 && bytes[hi - 2] == 96 && bytes[hi - 1] == 96;
    proof {
        if r {
            assert(s.skip(s.len() - 3) =~= fence());
        } else if ends_with(s, fence()) {
            assert forall|k: int| 0 <= k < 3 implies s[s.len() - 3 + k] == fence()[k] by {
                assert(s.skip(s.len() - 3)[k] == fence()[k]);
            }
            assert(false);
        }
    }
    r
}

/// Strips the delimiter markers the generator may wrap around its
/// payload: every leading tagged fence, every trailing bare fence, and
/// the whitespace left at either edge, exactly as [`strip_payload`]
/// states.
pub fn strip_generated_payload(bytes: &Vec<u8>) -> (out: Vec<u8>)
    ensures
        out@ == strip_payload(bytes@),
{
    let n = bytes.len();
    let mut lo: usize = 0;
    let mut hi: usize = n;
    proof {
        assert(bytes@.subrange(0, n as int) =~= bytes@);
    }
    while has_fence_json_at(bytes, lo, hi)
        invariant
            lo <= hi <= bytes@.len(),
            hi == bytes@.len(),
            strip_leading_fences(bytes@) == strip_leading_fences(
                bytes@.subrange(lo as int, hi as int),
            ),
        decreases hi - lo,
    {
        proof {
            let s = bytes@.subrange(lo as int, hi as int);
            assert(s.skip(7) =~= bytes@.subrange(lo + 7 as int, hi as int));
        }
        lo = lo + 7;
    }
    let ghost after_lead = strip_leading_fences(bytes@);
    proof {
        assert(after_lead == bytes@.subrange(lo as int, hi as int));
    }
    while has_fence_end_at(bytes, lo, hi)
        invariant
            lo <= hi <= bytes@.len(),
            strip_trailing_fences(after_lead) == strip_trailing_fences(
                bytes@.subrange(lo as int, hi as int),
            ),
        decreases hi - lo,
    {
        proof {
            let s = bytes@.subrange(lo as int, hi as int);
            assert(s.take(s.len() - 3) =~= bytes@.subrange(lo as int, hi - 3 as int));
        }
        hi = hi - 3;
    }
    let ghost after_fences = strip_trailing_fences(after_lead);
    proof {
        assert(after_fences == bytes@.subrange(lo as int, hi as int));
    }
    while lo < hi && ws(bytes[lo])
        invariant
            lo <= hi <= bytes@.len(),
            trim_front(after_fences) == trim_front(bytes@.subrange(lo as int, hi as int)),
        decreases hi - lo,
    {
        proof {
            let s = bytes@.subrange(lo as int, hi as int);
            assert(s.skip(1) =~= bytes@.subrange(lo + 1 as int, hi as int));
        }
        lo = lo + 1;
    }
    let ghost after_front = trim_front(after_fences);
    proof {
        assert(after_front == bytes@.subrange(lo as int, hi as int));
    }
    while lo < hi && ws(bytes[hi - 1])
        invariant
            lo <= hi <= bytes@.len(),
            trim_back(after_front) == trim_back(bytes@.subrange(lo as int, hi as int)),
        decreases hi - lo,
    {
        proof {
            let s = bytes@.subrange(lo as int, hi as int);
            assert(s.take(s.len() - 1) =~= bytes@.subrange(lo as int, hi - 1 as int));
        }
        hi = hi - 1;
    }
    proof {
        assert(strip_payload(bytes@) == bytes@.subrange(lo as int, hi as int));
    }
    let mut out: Vec<u8> = Vec::new();
    let mut j: usize = lo;
    while j < hi
        invariant
            lo <= j <= hi <= bytes@.len(),
            out@ =~= bytes@.subrange(lo as int, j as int),
        decreases hi - j,
    {
        out.push(bytes[j]);
        j += 1;
    }
    proof {
        assert(out@ =~= bytes@.subrange(lo as int, hi as int));
    }
    out
}

} // verus!
