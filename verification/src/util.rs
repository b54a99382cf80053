//! Small value helpers shared by the contract models.
use vstd::prelude::*;

verus! {

/// A copy of an optional string.
pub fn clone_opt_string(s: &Option<String>) -> (r: Option<String>)
    ensures
        r == *s,
{
    match s {
        Some(v) => Some(v.clone()),
        None => None,
    }
}

/// A copy of a list of IDs.
pub fn copy_ids(v: &Vec<u64>) -> (r: Vec<u64>)
    ensures
        r@ == v@,
{
    let mut r: Vec<u64> = Vec::new();
    let mut i: usize = 0;
    while i < v.len()
        invariant
            i <= v@.len(),
            r@ == v@.subrange(0, i as int),
        decreases v@.len() - i,
    {
        r.push(v[i]);
        i += 1;
        assert(r@ =~= v@.subrange(0, i as int));
    }
    assert(r@ =~= v@);
    r
}

/// `o.unwrap_or(d)`.
pub open spec fn unwrap_or<T>(o: Option<T>, d: T) -> T {
    match o {
        Some(v) => v,
        None => d,
    }
}

/// The page of `s` that starts at `from` and holds at most `limit` items.
pub open spec fn page<A>(s: Seq<A>, from: int, limit: int) -> Seq<A> {
    if from >= s.len() {
        Seq::empty()
    } else if s.len() - from <= limit {
        s.subrange(from, s.len() as int)
    } else {
        s.subrange(from, from + limit)
    }
}

/// Index range `[start, end)` of the page of a sequence of length `len` that
/// starts at `from` and holds at most `limit` items.
pub fn page_bounds(len: usize, from: usize, limit: usize) -> (r: (usize, usize))
    ensures
        r.0 <= r.1 <= len,
        from >= len ==> r.0 == r.1,
        from < len ==> r.0 == from,
        from < len ==> r.1 == (if len - from <= limit { len as int } else { from + limit }),
{
    if from >= len {
        (len, len)
    } else if len - from <= limit {
        (from, len)
    } else {
        (from, from + limit)
    }
}

/// The first `i + 1` items of `s` hold exactly the first `i` items and `s[i]`.
pub proof fn lemma_prefix_contains<A>(s: Seq<A>, i: int)
    requires
        0 <= i < s.len(),
    ensures
        forall|x: A| #[trigger] s.subrange(0, i + 1).contains(x) <==> (s.subrange(0, i).contains(x) || x == s[i]),
{
    assert forall|x: A| #[trigger] s.subrange(0, i + 1).contains(x) <==> (s.subrange(0, i).contains(x) || x == s[i]) by {
        if s.subrange(0, i + 1).contains(x) {
            let k = choose|k: int| 0 <= k < i + 1 && #[trigger] s.subrange(0, i + 1)[k] == x;
            if k < i {
                assert(s.subrange(0, i)[k] == x);
            }
        }
        if s.subrange(0, i).contains(x) {
            let k = choose|k: int| 0 <= k < i && #[trigger] s.subrange(0, i)[k] == x;
            assert(s.subrange(0, i + 1)[k] == x);
        }
        if x == s[i] {
            assert(s.subrange(0, i + 1)[i] == x);
        }
    }
}

} // verus!
