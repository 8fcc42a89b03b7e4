//! Offset pagination over the store's ordered collection: a pure function
//! from a page/limit request to a bounded slice of the collection, with
//! absent or zero inputs normalized to page 1 and limit 10.

use vstd::prelude::*;
use crate::model::Todo;

verus! {

/// An absent or zero page is normalized to the default, page 1.
pub open spec fn norm_page(page: Option<usize>) -> usize {
    match page {
        Some(p) => if p >= 1 { p } else { 1 },
        None => 1,
    }
}

/// An absent or zero limit is normalized to the default, 10 per page.
pub open spec fn norm_limit(limit: Option<usize>) -> usize {
    match limit {
        Some(l) => if l >= 1 { l } else { 10 },
        None => 10,
    }
}

/// The page of `s` selected by a 1-indexed `page` and a `limit`: up to
/// `limit` items starting at offset `(page - 1) * limit` in insertion
/// order, and the empty sequence when the offset is at or past the end.
pub open spec fn spec_paginate(s: Seq<Todo>, page: usize, limit: usize) -> Seq<Todo>
    recommends
        page >= 1,
        limit >= 1,
{
    let off = (page - 1) * limit;
    if off >= s.len() {
        Seq::<Todo>::empty()
    } else if off + limit <= s.len() {
        s.subrange(off, off + limit)
    } else {
        s.subrange(off, s.len() as int)
    }
}

/// Copies the requested page out of `items` without mutating it. Zero or
/// absent `page`/`limit` behave exactly as the defaults; an out-of-range
/// page yields an empty vector rather than an error.
pub fn paginate(items: &Vec<Todo>, page: Option<usize>, limit: Option<usize>) -> (r: Vec<Todo>)
    ensures
        r@ == spec_paginate(items@, norm_page(page), norm_limit(limit)),
{
    let p: usize = match page {
        Some(pv) => if pv >= 1 { pv } else { 1 },
        None => 1,
    };
    let l: usize = match limit {
        Some(lv) => if lv >= 1 { lv } else { 10 },
        None => 10,
    };
    let len = items.len();
    let mut r: Vec<Todo> = Vec::new();
    let off = match (p - 1).checked_mul(l) {
        Some(o) => o,
        None => {
            // The offset overflows usize, so it is past any possible length.
            proof {
                assert(r@ =~= spec_paginate(items@, p, l));
            }
            return r;
        },
    };
    if off >= len {
        proof {
            assert(r@ =~= spec_paginate(items@, p, l));
        }
        return r;
    }
    let end: usize = if len - off > l {
        off + l
    } else {
        len
    };
    let mut i: usize = off;
    while i < end
        invariant
            off <= i <= end <= items@.len(),
            end == if off + l <= items@.len() { off + l } else { items@.len() as int },
            r@ == items@.subrange(off as int, i as int),
        decreases end - i,
    {
        r.push(items[i].clone());
        proof {
            assert(r@ =~= items@.subrange(off as int, i + 1));
        }
        i += 1;
    }
    proof {
        assert(r@ =~= spec_paginate(items@, p, l));
    }
    r
}

} // verus!
