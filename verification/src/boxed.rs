//! An owned, heap-allocated value, with an owning iterator for boxed slices.
//!
//! The box hands out references to its contents and, for slices, an
//! iterator that moves each element out exactly once, in order.

use vstd::prelude::*;

verus! {

/// An owned heap allocation holding a `T`.
#[derive(PartialEq, Eq, PartialOrd, Ord, Hash)]
pub struct Box<T: ?Sized> {
    ptr: std::boxed::Box<T>,
}

/// Calls `Vec::into_boxed_slice`, which (per its documentation) converts the
/// vector into a boxed slice; the contract claims the slice holds the
/// vector's elements, in order.
#[verifier::external_body]
fn boxed_slice_from_vec<T>(v: Vec<T>) -> (b: std::boxed::Box<[T]>)
    ensures
        b@ == v@,
{
    v.into_boxed_slice()
}

impl<T: ?Sized> Box<T> {
    /// The allocation's contents.
    pub closed spec fn contents(&self) -> &T {
        &*self.ptr
    }

    /// A shared reference to the contents.
    pub fn as_ptr(&self) -> (r: &T)
        ensures
            r == self.contents(),
    {
        &*self.ptr
    }

    /// An exclusive reference to the contents; what is written through it
    /// becomes the box's contents.
    pub fn as_mut_ptr(&mut self) -> (r: &mut T)
        ensures
            &*r == old(self).contents(),
            final(self).contents() == &*final(r),
    {
        &mut *self.ptr
    }
}

impl<T: ?Sized> core::ops::Deref for Box<T> {
    type Target = T;

    fn deref(&self) -> (r: &T)
        ensures
            r == self.contents(),
    {
        &*self.ptr
    }
}

impl<T: ?Sized> core::ops::DerefMut for Box<T> {
    fn deref_mut(&mut self) -> (r: &mut T)
        ensures
            &*r == old(self).contents(),
            final(self).contents() == &*final(r),
    {
        &mut *self.ptr
    }
}

impl<T: ?Sized> AsMut<T> for Box<T> {
    fn as_mut(&mut self) -> (r: &mut T)
        ensures
            &*r == old(self).contents(),
            final(self).contents() == &*final(r),
    {
        &mut *self.ptr
    }
}

impl<T: ?Sized> AsRef<T> for Box<T> {
    fn as_ref(&self) -> (r: &T)
        ensures
            r == self.contents(),
    {
        &*self.ptr
    }
}

impl<T: ?Sized> std::borrow::Borrow<T> for Box<T> {
    fn borrow(&self) -> &T
        returns
            self.contents(),
    {
        &*self.ptr
    }
}

impl<T> Box<T> {
    /// Move `value` into a new allocation.
    pub fn new(value: T) -> (b: Self)
        ensures
            *b.contents() == value,
    {
        Box { ptr: std::boxed::Box::new(value) }
    }

    /// Move the contents out, releasing the allocation.
    pub fn into_inner(self) -> (value: T)
        ensures
            value == *self.contents(),
    {
        *self.ptr
    }
}

impl<T> Box<[T]> {
    /// The elements of a boxed slice, in order.
    pub open spec fn seq(&self) -> Seq<T> {
        self.contents()@
    }

    /// Move the elements of `v` into a new boxed slice.
    pub fn from_vec(v: Vec<T>) -> (b: Self)
        ensures
            b.seq() == v@,
    {
        Box { ptr: boxed_slice_from_vec(v) }
    }

    /// The number of elements.
    pub fn len(&self) -> (n: usize)
        ensures
            n == self.seq().len(),
    {
        self.as_ptr().len()
    }

    /// An iterator that moves the elements out by value, first to last.
    pub fn into_iter(self) -> (it: IntoIter<T>)
        ensures
            it.wf(),
            it.view() == (self.seq(), 0nat),
    {
        let mut v: Vec<T> = self.ptr.into_vec();
        let ghost all = v@;
        let mut rest: Vec<T> = Vec::new();
        while v.len() > 0
            invariant
                v@ == all.take(v.len() as int),
                rest@ == all.skip(v.len() as int).reverse(),
                v.len() <= all.len(),
            decreases v.len(),
        {
            let ghost before = v@;
            let x = v.pop().unwrap();
            proof {
                let k = v.len() as int;
                assert(all.skip(k) =~= seq![x] + all.skip(k + 1));
                assert(all.skip(k).reverse() =~= all.skip(k + 1).reverse().push(x));
                assert(v@ =~= all.take(k));
            }
            rest.push(x);
        }
        assert(all.skip(0) =~= all);
        IntoIter { rest, taken: 0, all: Ghost(all) }
    }
}

/// Owning iterator over the elements of a `Box<[T]>`. It yields each element
/// exactly once, first to last, and then keeps returning `None`.
pub struct IntoIter<T> {
    /// The elements not yet yielded, last one first.
    rest: Vec<T>,
    /// How many elements have been yielded.
    taken: usize,
    all: Ghost<Seq<T>>,
}

/// One step of an owning iterator whose state is (elements, position): the
/// element at the position, and the position moved past it; at the end, no
/// element and the same state.
pub open spec fn iter_step<T>(state: (Seq<T>, nat)) -> ((Seq<T>, nat), Option<T>) {
    if state.1 < state.0.len() {
        ((state.0, state.1 + 1), Some(state.0[state.1 as int]))
    } else {
        (state, None)
    }
}

/// The state after `n` steps from `state`, with the elements those steps
/// yielded, in order.
pub open spec fn iter_run<T>(state: (Seq<T>, nat), n: nat) -> ((Seq<T>, nat), Seq<T>)
    decreases n,
{
    if n == 0 {
        (state, Seq::empty())
    } else {
        let (s1, out) = iter_step(state);
        let (s2, rest) = iter_run(s1, (n - 1) as nat);
        (s2, match out {
            Some(x) => seq![x] + rest,
            None => rest,
        })
    }
}

impl<T> IntoIter<T> {
    /// The elements not yet yielded are held last one first.
    pub closed spec fn wf(&self) -> bool {
        &&& self.taken <= self.all@.len() <= usize::MAX
        &&& self.rest@ == self.all@.skip(self.taken as int).reverse()
    }

    /// The elements being iterated over, and how many have been yielded.
    pub closed spec fn view(&self) -> (Seq<T>, nat) {
        (self.all@, self.taken as nat)
    }

    /// The next element, if any is left.
    pub fn next(&mut self) -> (r: Option<T>)
        requires
            old(self).wf(),
        ensures
            final(self).wf(),
            (final(self).view(), r) == iter_step(old(self).view()),
    {
        match self.rest.pop() {
            Some(x) => {
                proof {
                    let s = self.all@.skip(self.taken as int);
                    assert(s.len() > 0);
                    assert(s.reverse().last() == s[0]);
                    assert(s.reverse().drop_last() =~= s.drop_first().reverse());
                    assert(s.drop_first() =~= self.all@.skip(self.taken + 1));
                }
                self.taken = self.taken + 1;
                Some(x)
            },
            None => {
                proof {
                    assert(self.all@.skip(self.taken as int).reverse().len() == 0);
                }
                None
            },
        }
    }

    /// The exact number of elements left, as a lower and an upper bound.
    pub fn size_hint(&self) -> (r: (usize, Option<usize>))
        requires
            self.wf(),
        ensures
            r.0 == self.view().0.len() - self.view().1,
            r.1 == Some(r.0),
    {
        let remaining = self.rest.len();
        (remaining, Some(remaining))
    }
}

/// Iterating a freshly made iterator as many times as there are elements
/// yields every element exactly once, first to last; after that it yields
/// nothing and stays where it is.
pub proof fn lemma_into_iter_yields_each_once<T>(s: Seq<T>)
    ensures
        iter_run((s, 0nat), s.len()) == ((s, s.len()), s),
        iter_step((s, s.len())) == ((s, s.len()), None::<T>),
{
    lemma_iter_run_from(s, 0);
    assert(s.skip(0) =~= s);
}

proof fn lemma_iter_run_from<T>(s: Seq<T>, k: nat)
    requires
        k <= s.len(),
    ensures
        iter_run((s, k), (s.len() - k) as nat) == ((s, s.len()), s.skip(k as int)),
    decreases s.len() - k,
{
    if k < s.len() {
        lemma_iter_run_from(s, k + 1);
        assert(s.skip(k as int) =~= seq![s[k as int]] + s.skip(k + 1 as int));
    } else {
        assert(s.skip(k as int) =~= Seq::<T>::empty());
    }
}

} // verus!
