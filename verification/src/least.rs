use vstd::prelude::*;

verus! {

/// The least of the numbers from 0 to `n - 1` of which `p` holds.
pub open spec fn least(n: int, p: spec_fn(int) -> bool) -> Option<int> {
    if exists|i: int| 0 <= i < n && #[trigger] p(i) {
        Some(choose|i: int| 0 <= i < n && #[trigger] p(i) && forall|j: int| 0 <= j < i ==> !#[trigger] p(j))
    } else {
        None
    }
}

/// Where `p` holds of a number below `n`, it holds of a least one.
proof fn lemma_some_is_least(n: int, p: spec_fn(int) -> bool, i: int)
    requires
        0 <= i < n,
        p(i),
    ensures
        exists|m: int| 0 <= m < n && #[trigger] p(m) && forall|j: int| 0 <= j < m ==> !#[trigger] p(j),
    decreases i,
{
    if exists|j: int| 0 <= j < i && #[trigger] p(j) {
        let j = choose|j: int| 0 <= j < i && #[trigger] p(j);
        lemma_some_is_least(n, p, j);
    } else {
        assert(0 <= i < n && #[trigger] p(i) && forall|j: int| 0 <= j < i ==> !#[trigger] p(j));
    }
}

/// What `least` returns is in range, `p` holds of it and of no number before
/// it; it returns `None` only where `p` holds of no number in range.
pub proof fn lemma_least(n: int, p: spec_fn(int) -> bool)
    ensures
        match least(n, p) {
            Some(m) => 0 <= m < n && #[trigger] p(m) && forall|j: int| 0 <= j < m ==> !#[trigger] p(j),
            None => forall|j: int| 0 <= j < n ==> !#[trigger] p(j),
        },
{
    if exists|i: int| 0 <= i < n && #[trigger] p(i) {
        let i = choose|i: int| 0 <= i < n && #[trigger] p(i);
        lemma_some_is_least(n, p, i);
    }
}

/// A number in range of which `p` holds, while it holds of none before it, is
/// what `least` returns.
pub proof fn lemma_least_is(n: int, p: spec_fn(int) -> bool, m: int)
    requires
        0 <= m < n,
        p(m),
        forall|j: int| 0 <= j < m ==> !#[trigger] p(j),
    ensures
        least(n, p) == Some(m),
{
    lemma_least(n, p);
}

} // verus!
