use rayon::iter::{IntoParallelRefIterator, IntoParallelRefMutIterator, ParallelIterator};
use vstd::arithmetic::div_mod::lemma_fundamental_div_mod_converse;
use vstd::prelude::*;

verus! {

/// `after` holds, position by position, a value that `f` returns for the
/// element of `before` at that position.
pub open spec fn mapped<T, F: Fn(&T) -> T>(f: F, before: Seq<T>, after: Seq<T>) -> bool {
    &&& after.len() == before.len()
    &&& forall|i: int| 0 <= i < before.len() ==> call_ensures(f, (&before[i],), #[trigger] after[i])
}

/// `i` is a position of `s`.
pub open spec fn has_index<T>(s: Seq<T>, i: int) -> bool {
    0 <= i < s.len()
}

/// Every element of `xs` is one that `f` may be called on.
pub open spec fn accepts_each<T, F: Fn(&T) -> T>(f: F, xs: Seq<T>) -> bool {
    forall|i: int| 0 <= i < xs.len() ==> call_requires(f, (&#[trigger] xs[i],))
}

/// Every element of `xs` is one that `f` may be called on in place.
pub open spec fn accepts_each_mut<T, F: Fn(&mut T)>(f: F, xs: Seq<T>) -> bool {
    forall|i: int, r: &mut T| 0 <= i < xs.len() && *r == xs[i] ==> call_requires(f, (r,))
}

/// Each element of `s` repeated `n` times in a row, the elements in their order.
pub open spec fn repeat_each<T>(s: Seq<T>, n: nat) -> Seq<T> {
    Seq::new(s.len() * n, |k: int| s[k / (n as int)])
}

/// Maps a vector in parallel with rayon's `par_iter().map(f).collect()`. Rayon
/// calls `f` once on every element and collects into a `Vec` in the order of
/// the source, so the result holds, at every position, a value of `f` for the
/// element at that position.
#[verifier::external_body]
fn par_map<T, F>(xs: &Vec<T>, f: F) -> (res: Vec<T>) where
    T: Send + Sync,
    F: Fn(&T) -> T + Sync + Send,

    requires
        accepts_each(f, xs@),
    ensures
        mapped(f, xs@, res@),
{
    xs.par_iter().map(f).collect()
}

/// Updates a vector in parallel with rayon's `par_iter_mut().for_each(f)`.
/// Rayon hands `f` one mutable reference to every element, so each element
/// ends as one call of `f` left it and the length stays.
#[verifier::external_body]
fn par_for_each_mut<T, F>(xs: &mut Vec<T>, f: F) where
    T: Send + Sync,
    F: Fn(&mut T) + Sync + Send,

    requires
        accepts_each_mut(f, old(xs)@),
    ensures
        final(xs)@.len() == old(xs)@.len(),
        forall|i: int|
            #![trigger final(xs)@[i]]
            #![trigger has_index(old(xs)@, i)]
            has_index(old(xs)@, i) ==> exists|r: &mut T|
                #![trigger call_ensures(f, (r,), ())]
                *r == old(xs)@[i] && *final(r) == final(xs)@[i] && call_ensures(f, (r,), ()),
{
    xs.par_iter_mut().for_each(f)
}

/// An owned sequence of elements of one type, indexed from zero.
#[derive(Debug, Clone)]
pub struct ArrayData<T>(Vec<T>);

impl<T> View for ArrayData<T> {
    type V = Seq<T>;

    closed spec fn view(&self) -> Seq<T> {
        self.0@
    }
}

impl<T: Send + Sync + Clone> ArrayData<T> {
    pub fn from_vec(xs: Vec<T>) -> (res: Self)
        ensures
            res@ == xs@,
    {
        ArrayData(xs)
    }

    /// Lets `f` rewrite every element in place.
    pub fn apply_inplace<F>(&mut self, f: F) where F: Fn(&mut T) + Sync + Send
        requires
            accepts_each_mut(f, old(self)@),
        ensures
            final(self)@.len() == old(self)@.len(),
            forall|i: int|
                #![trigger final(self)@[i]]
                #![trigger has_index(old(self)@, i)]
                has_index(old(self)@, i) ==> exists|r: &mut T|
                    #![trigger call_ensures(f, (r,), ())]
                    *r == old(self)@[i] && *final(r) == final(self)@[i] && call_ensures(f, (r,), ()),
            (forall|r: &mut T| call_ensures(f, (r,), ()) ==> *final(r) == *r) ==> final(self)@
                == old(self)@,
    {
        par_for_each_mut(&mut self.0, f);
    }

    /// A new sequence that holds `f` of every element; `self` stays as it is.
    pub fn apply<F>(&self, f: F) -> (res: Self) where F: Fn(&T) -> T + Sync + Send
        requires
            accepts_each(f, self@),
        ensures
            mapped(f, self@, res@),
    {
        ArrayData(par_map(&self.0, f))
    }

    /// The element at `index`: `None` past the end, else `Some(Some(..))`.
    /// The inner option is kept for a null marker; today it is always `Some`.
    pub fn get(&self, index: usize) -> (res: Option<Option<&T>>)
        ensures
            index < self@.len() ==> res == Some(Some(&self@[index as int])),
            index >= self@.len() ==> res is None,
    {
        if index < self.0.len() {
            Some(Some(&self.0[index]))
        } else {
            None
        }
    }

    /// The element at a position that the sequence has.
    pub(crate) fn at(&self, index: usize) -> (res: &T)
        requires
            index < self@.len(),
        ensures
            *res == self@[index as int],
    {
        &self.0[index]
    }

    pub fn push(&mut self, item: T)
        ensures
            final(self)@ == old(self)@.push(item),
    {
        self.0.push(item);
    }

    /// Every element `multiple` times in a row. Each copy is a clone of the
    /// element that it repeats, so where a clone of the element type is equal
    /// to what was cloned, the result is `repeat_each` of the elements.
    pub fn multiply_row(&self, multiple: usize) -> (res: Self)
        ensures
            res@.len() == self@.len() * multiple,
            forall|k: int|
                0 <= k < res@.len() ==> cloned(
                    repeat_each(self@, multiple as nat)[k],
                    #[trigger] res@[k],
                ),
            (forall|a: T, b: T| #[trigger] cloned(a, b) ==> a == b) ==> res@ == repeat_each(
                self@,
                multiple as nat,
            ),
    {
        let mut res: Vec<T> = Vec::new();
        let mut i: usize = 0;
        while i < self.0.len()
            invariant
                i <= self.0@.len(),
                res@.len() == i * multiple,
                forall|k: int|
                    0 <= k < res@.len() ==> cloned(self.0@[k / (multiple as int)], #[trigger] res@[k]),
            decreases self.0@.len() - i,
        {
            let mut j: usize = 0;
            while j < multiple
                invariant
                    i < self.0@.len(),
                    j <= multiple,
                    res@.len() == i * multiple + j,
                    forall|k: int|
                        0 <= k < res@.len() ==> cloned(
                            self.0@[k / (multiple as int)],
                            #[trigger] res@[k],
                        ),
                decreases multiple - j,
            {
                proof {
                    lemma_fundamental_div_mod_converse(
                        i * multiple + j,
                        multiple as int,
                        i as int,
                        j as int,
                    );
                }
                res.push(self.0[i].clone());
                j += 1;
            }
            assert((i + 1) * multiple == i * multiple + multiple) by (nonlinear_arith);
            i += 1;
        }
        assert forall|k: int| 0 <= k < res@.len() implies cloned(
            repeat_each(self@, multiple as nat)[k],
            #[trigger] res@[k],
        ) by {
            assert(k / (multiple as int) < self@.len()) by (nonlinear_arith)
                requires
                    0 <= k < self@.len() * multiple,
                    multiple > 0,
            ;
        }
        proof {
            if forall|a: T, b: T| #[trigger] cloned(a, b) ==> a == b {
                assert(res@ =~= repeat_each(self@, multiple as nat));
            }
        }
        ArrayData(res)
    }

    pub fn len(&self) -> (res: usize)
        ensures
            res == self@.len(),
    {
        self.0.len()
    }
}

/// In `repeat_each(s, n)` the `n` positions from `i * n` on hold element `i` of
/// `s`, and there are `n` positions for each element.
pub proof fn lemma_repeat_each<T>(s: Seq<T>, n: nat, i: int, j: int)
    requires
        0 <= i < s.len(),
        0 <= j < n,
    ensures
        repeat_each(s, n).len() == s.len() * n,
        0 <= i * n + j < s.len() * n,
        repeat_each(s, n)[i * n + j] == s[i],
{
    lemma_fundamental_div_mod_converse(i * n + j, n as int, i, j);
    assert(i * n + j < s.len() * n) by (nonlinear_arith)
        requires
            0 <= i < s.len(),
            0 <= j < n,
    ;
    assert(0 <= i * n + j) by (nonlinear_arith)
        requires
            0 <= i,
            0 <= j,
            0 <= n,
    ;
}

/// Repeating the elements and then changing each with `g` gives what changing
/// each and then repeating gives.
pub proof fn lemma_repeat_each_map<T, U>(s: Seq<T>, n: nat, g: spec_fn(T) -> U)
    ensures
        repeat_each(s, n).map_values(g) == repeat_each(s.map_values(g), n),
{
    let a = repeat_each(s, n).map_values(g);
    let b = repeat_each(s.map_values(g), n);
    assert(a.len() == b.len());
    assert forall|k: int| 0 <= k < a.len() implies a[k] == b[k] by {
        assert(0 <= k / (n as int) < s.len()) by (nonlinear_arith)
            requires
                0 <= k < s.len() * n,
                n > 0,
        ;
    }
    assert(a =~= b);
}

/// What `apply` returns for `f` and then for `g`, where `g` undoes `f`, is the
/// sequence that it started from.
pub proof fn lemma_apply_round_trip<T, F: Fn(&T) -> T, G: Fn(&T) -> T>(
    f: F,
    g: G,
    start: Seq<T>,
    there: Seq<T>,
    back: Seq<T>,
)
    requires
        mapped(f, start, there),
        mapped(g, there, back),
        forall|x: T, y: T, z: T|
            #![trigger call_ensures(f, (&x,), y), call_ensures(g, (&y,), z)]
            call_ensures(f, (&x,), y) && call_ensures(g, (&y,), z) ==> z == x,
    ensures
        back == start,
{
    assert forall|i: int| 0 <= i < start.len() implies back[i] == start[i] by {
        assert(call_ensures(f, (&start[i],), there[i]));
        assert(call_ensures(g, (&there[i],), back[i]));
    }
    assert(back =~= start);
}

} // verus!
