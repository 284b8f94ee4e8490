//! A lazily initialized vector.
//!
//! [`DeferredVec`] binds a zero-argument producer at construction time and
//! holds an initially absent cache slot. The first call to an accessor
//! (`get` or `len`) runs the producer once, stores the produced vector, and
//! every later access reads the cached value; `is_deferred` observes whether
//! production has happened yet without ever triggering it.

use vstd::prelude::*;

verus! {

/// A vector whose contents are produced on first access and then cached.
///
/// `T` is the element type; `F` is the type of the producer, a zero-argument
/// function value returning a `Vec<T>`, bound once at construction and never
/// reassigned.
pub struct DeferredVec<T, F> {
    vec: Option<Vec<T>>,
    fetch_function: F,
}

impl<T, F> DeferredVec<T, F> where T: Clone, F: Fn() -> Vec<T> {
    /// True while the contents have not been produced yet.
    pub closed spec fn spec_is_deferred(&self) -> bool {
        self.vec is None
    }

    /// The cached contents; meaningful only once production has happened.
    pub closed spec fn stored(&self) -> Seq<T>
        recommends
            !self.spec_is_deferred(),
    {
        self.vec.unwrap()@
    }

    /// The producer bound at construction.
    pub closed spec fn producer(&self) -> F {
        self.fetch_function
    }

    /// The bound producer may be called.
    pub closed spec fn wf(&self) -> bool {
        call_requires(self.fetch_function, ())
    }

    /// Holds when `s` is a sequence that a call of the producer `f` may
    /// return.
    pub open spec fn possible_output(f: F, s: Seq<T>) -> bool {
        exists|v: Vec<T>| #[trigger] call_ensures(f, (), v) && v@ == s
    }

    /// One accessor call (`get` or `len`), seen as a step of the container's
    /// state machine: the producer and its callability are untouched, the
    /// contents are present afterwards, a still-deferred container is filled
    /// with a sequence the producer may return, and an already produced one
    /// keeps its contents exactly as they were.
    pub open spec fn accessor_step(pre: Self, post: Self) -> bool {
        &&& post.producer() == pre.producer()
        &&& post.wf() == pre.wf()
        &&& !post.spec_is_deferred()
        &&& pre.spec_is_deferred() ==> Self::possible_output(pre.producer(), post.stored())
        &&& !pre.spec_is_deferred() ==> post.stored() == pre.stored()
    }

    /// Constructs a container with absent contents and `fetch_function`
    /// bound as its producer.
    pub fn new(fetch_function: F) -> (r: DeferredVec<T, F>)
        requires
            call_requires(fetch_function, ()),
        ensures
            r.spec_is_deferred(),
            r.producer() == fetch_function,
            r.wf(),
    {
        DeferredVec { vec: None, fetch_function }
    }

    /// Runs the producer and fills the slot if the contents are absent, and
    /// otherwise leaves the slot alone; either way it hands back a duplicate
    /// of the now present contents.
    fn fetch(&mut self) -> (r: Option<Vec<T>>)
        requires
            old(self).wf(),
        ensures
            Self::accessor_step(*old(self), *final(self)),
            r is Some,
            r.unwrap()@.len() == final(self).stored().len(),
            forall|i: int|
                0 <= i < final(self).stored().len() ==> #[trigger] cloned::<T>(
                    final(self).stored()[i],
                    r.unwrap()@[i],
                ),
    {
        if self.vec.is_none() {
            let produced = (self.fetch_function)();
            self.vec = Some(produced);
        }
        match &self.vec {
            Some(v) => Some(v.clone()),
            None => None,
        }
    }

    /// Produces the contents if they are still absent, then returns a
    /// duplicate of the cached vector: element for element, in order.
    pub fn get(&mut self) -> (r: Vec<T>)
        requires
            old(self).wf(),
        ensures
            Self::accessor_step(*old(self), *final(self)),
            r@.len() == final(self).stored().len(),
            forall|i: int|
                0 <= i < final(self).stored().len() ==> #[trigger] cloned::<T>(
                    final(self).stored()[i],
                    r@[i],
                ),
    {
        self.fetch().unwrap()
    }

    /// Produces the contents if they are still absent, then returns the
    /// count of cached elements.
    pub fn len(&mut self) -> (r: usize)
        requires
            old(self).wf(),
        ensures
            Self::accessor_step(*old(self), *final(self)),
            r == final(self).stored().len(),
    {
        match self.fetch() {
            Some(v) => v.len(),
            None => unreached(),
        }
    }

    /// Law: once the contents are present, any later accessor call leaves
    /// the container produced, its contents untouched and its producer
    /// untouched — so only the very first accessor call can run the
    /// producer, and every later read agrees with the first produced result.
    pub proof fn lemma_single_production(pre: Self, post: Self)
        requires
            !pre.spec_is_deferred(),
            Self::accessor_step(pre, post),
        ensures
            !post.spec_is_deferred(),
            post.stored() == pre.stored(),
            post.producer() == pre.producer(),
    {
    }

    /// Law: along any chain of container states linked by accessor calls,
    /// the container reports itself produced from the first call on,
    /// permanently, and the contents cached by that first call are exactly
    /// the contents after every later call.
    pub proof fn lemma_accessor_chain(states: Seq<Self>)
        requires
            states.len() >= 2,
            forall|i: int|
                0 <= i < states.len() - 1 ==> #[trigger] Self::accessor_step(
                    states[i],
                    states[i + 1],
                ),
        ensures
            forall|i: int| 1 <= i < states.len() ==> !(#[trigger] states[i]).spec_is_deferred(),
            forall|i: int|
                1 <= i < states.len() ==> (#[trigger] states[i]).stored() == states[1].stored(),
        decreases states.len(),
    {
        let n: int = states.len() as int;
        if n == 2 {
            assert(Self::accessor_step(states[0], states[1]));
        } else {
            let front = states.drop_last();
            assert forall|i: int|
                0 <= i < front.len() - 1 implies #[trigger] Self::accessor_step(
                front[i],
                front[i + 1],
            ) by {
                assert(front[i] == states[i]);
                assert(front[i + 1] == states[i + 1]);
                assert(Self::accessor_step(states[i], states[i + 1]));
            }
            Self::lemma_accessor_chain(front);
            assert(front[n - 2] == states[n - 2]);
            assert(front[1] == states[1]);
            assert(!front[n - 2].spec_is_deferred());
            // the index is written n - 2 + 1 so the step quantifier's trigger matches
            assert(Self::accessor_step(states[n - 2], states[n - 2 + 1]));
            Self::lemma_single_production(states[n - 2], states[n - 1]);
            assert forall|i: int|
                1 <= i < n implies !(#[trigger] states[i]).spec_is_deferred() && states[i].stored()
                == states[1].stored() by {
                if i < n - 1 {
                    assert(states[i] == front[i]);
                    assert(!front[i].spec_is_deferred());
                    assert(front[i].stored() == front[1].stored());
                } else {
                    assert(front[n - 2].stored() == front[1].stored());
                }
            }
        }
    }

    /// Observes whether the contents are still absent. This is the one
    /// operation that never triggers production: it takes `&self` and so
    /// cannot change the container at all.
    #[verifier::when_used_as_spec(spec_is_deferred)]
    pub fn is_deferred(&self) -> (r: bool)
        ensures
            r == self.spec_is_deferred(),
    {
        self.vec.is_none()
    }
}

/// Law: when duplication is value-faithful — every clone of an element
/// equals that element — a duplicate sequence `r` whose elements are clones
/// of the cached contents `s` equals those contents, element for element;
/// so `get` returns exactly the cached sequence, and on a freshly produced
/// container exactly the producer's own output.
pub proof fn lemma_get_value_fidelity<T: Clone>(s: Seq<T>, r: Seq<T>)
    requires
        forall|a: T, b: T| #[trigger] cloned::<T>(a, b) ==> b == a,
        r.len() == s.len(),
        forall|i: int| 0 <= i < s.len() ==> #[trigger] cloned::<T>(s[i], r[i]),
    ensures
        r == s,
{
    assert forall|i: int| 0 <= i < s.len() implies r[i] == s[i] by {
        assert(cloned::<T>(s[i], r[i]));
    }
    assert(r =~= s);
}

/// Law: on one produced container with cached contents `s`, the count `n`
/// that `len` reports equals the number of elements in a vector that `get`
/// returns, whose view is `r`.
pub proof fn lemma_len_matches_get<T>(s: Seq<T>, n: int, r: Seq<T>)
    requires
        n == s.len(),
        r.len() == s.len(),
    ensures
        n == r.len(),
{
}

} // verus!
