//! A growable list that lives in a fixed-size buffer while it is small and
//! moves to the heap when it outgrows the buffer.

use vstd::prelude::*;
use vstd::std_specs::convert::FromSpecImpl;
use vstd::std_specs::iter::IteratorSpec;
use vstd::std_specs::iter::IteratorSpecImpl;
use std::ops::Deref;
use std::ops::DerefMut;
use std::ops::Index;
use std::ops::Range;
use std::ops::RangeFrom;
use std::ops::RangeTo;

verus! {

/// A growable, generic list that resides on the stack if it's small,
/// but is moved to the heap to grow larger if needed.
/// This list is generic over the items it contains as well as the
/// size of its buffer if it's on the stack.
#[derive(Debug)]
pub enum LocalStorageVec<T, const N: usize> {
    /// The first `len` slots of `buf` hold the items.
    Stack { buf: [T; N], len: usize },
    Heap(Vec<T>),
}

impl<T, const N: usize> View for LocalStorageVec<T, N> {
    type V = Seq<T>;

    /// The items of the list, in order.
    open spec fn view(&self) -> Seq<T> {
        match *self {
            LocalStorageVec::Stack { buf, len } => buf@.take(len as int),
            LocalStorageVec::Heap(v) => v@,
        }
    }
}

/// A default value of `T`.
fn default_value<T: Default>() -> (value: T)
    ensures
        call_ensures(T::default, (), value),
{
    T::default()
}

/// `core::array::from_fn` builds an array by calling the closure once for
/// each index; here every slot gets a default value. Nothing is claimed of
/// the values.
#[verifier::external_body]
fn default_array<T: Default, const N: usize>() -> (buf: [T; N]) {
    core::array::from_fn(|_| default_value::<T>())
}

/// `Vec::from` on an array moves the items into a vector, keeping their
/// order.
#[verifier::external_body]
fn vec_from_array<T, const M: usize>(array: [T; M]) -> (v: Vec<T>)
    ensures
        v@ == array@,
{
    Vec::from(array)
}

impl<T, const N: usize> LocalStorageVec<T, N> {
    /// A list on the stack does not claim more items than its buffer has
    /// slots.
    pub open spec fn wf(self) -> bool {
        match self {
            LocalStorageVec::Stack { buf, len } => len <= N,
            LocalStorageVec::Heap(v) => true,
        }
    }

    /// Whether the items are in the buffer.
    pub open spec fn on_stack(self) -> bool {
        self is Stack
    }

    pub fn len(&self) -> (n: usize)
        requires
            self.wf(),
        ensures
            n == self@.len(),
    {
        match self {
            Self::Stack { buf: _, len } => *len,
            Self::Heap(v) => v.len(),
        }
    }

    /// Removes all items. The list stays where it is, on the stack or on
    /// the heap.
    pub fn clear(&mut self)
        ensures
            final(self).wf(),
            final(self)@ == Seq::<T>::empty(),
            final(self).on_stack() == old(self).on_stack(),
    {
        match self {
            Self::Stack { buf: _, len } => *len = 0,
            Self::Heap(v) => v.clear(),
        }
    }
}

/// Copies the items of `buf` into a new vector.
fn buffer_to_vec<T: Copy, const N: usize>(buf: &[T; N]) -> (v: Vec<T>)
    ensures
        v@ == buf@,
{
    let mut v: Vec<T> = Vec::new();
    let mut i: usize = 0;
    while i < N
        invariant
            i <= N,
            v@ == buf@.take(i as int),
        decreases N - i,
    {
        v.push(buf[i]);
        i = i + 1;
        assert(buf@.take(i as int) == buf@.take(i - 1).push(buf@[i - 1]));
    }
    assert(buf@.take(N as int) == buf@);
    v
}

impl<T, const N: usize> LocalStorageVec<T, N> where T: Default + Copy {
    /// Appends `e`. A full buffer moves to the heap first.
    pub fn push(&mut self, e: T)
        requires
            old(self).wf(),
        ensures
            final(self).wf(),
            final(self)@ == old(self)@.push(e),
            final(self).on_stack() <==> old(self).on_stack() && old(self)@.len() < N,
    {
        match self {
            Self::Stack { buf, len } => {
                if *len == N {
                    let mut v = buffer_to_vec(buf);
                    v.push(e);
                    assert(buf@.take(N as int) == buf@);
                    *self = Self::Heap(v);
                } else {
                    buf[*len] = e;
                    *len += 1;
                    assert(buf@.take(*len as int) == old(self)@.push(e));
                }
            },
            Self::Heap(v) => v.push(e),
        }
    }

    /// Inserts `e` at position `index` and moves the items from there on
    /// one place up. A full buffer moves to the heap first.
    pub fn insert(&mut self, index: usize, e: T)
        requires
            old(self).wf(),
            index <= old(self)@.len(),
        ensures
            final(self).wf(),
            final(self)@ == old(self)@.insert(index as int, e),
            final(self).on_stack() <==> old(self).on_stack() && old(self)@.len() < N,
    {
        match self {
            Self::Stack { buf, len } => {
                if *len < N {
                    let ghost before = buf@;
                    let mut i: usize = *len;
                    while i > index
                        invariant
                            index <= i <= *len < N,
                            forall|j: int| 0 <= j <= i ==> buf@[j] == before[j],
                            forall|j: int| i < j <= *len ==> buf@[j] == before[j - 1],
                        decreases i,
                    {
                        buf[i] = buf[i - 1];
                        i = i - 1;
                    }
                    buf[index] = e;
                    *len += 1;
                    assert(buf@.take(*len as int) == old(self)@.insert(index as int, e));
                } else {
                    // len == N
                    let mut v = buffer_to_vec(buf);
                    v.insert(index, e);
                    assert(buf@.take(N as int) == buf@);
                    *self = Self::Heap(v);
                }
            },
            Self::Heap(v) => v.insert(index, e),
        }
    }

    /// Removes the item at position `index`, moves the items behind it one
    /// place down, and returns it.
    pub fn remove(&mut self, index: usize) -> (e: T)
        requires
            old(self).wf(),
            index < old(self)@.len(),
        ensures
            final(self).wf(),
            e == old(self)@[index as int],
            final(self)@ == old(self)@.remove(index as int),
            final(self).on_stack() == old(self).on_stack(),
    {
        match self {
            Self::Stack { buf, len } => {
                let ghost before = buf@;
                let e = buf[index];
                let mut i: usize = index;
                while i + 1 < *len
                    invariant
                        index <= i < *len <= N,
                        forall|j: int| 0 <= j < index ==> buf@[j] == before[j],
                        forall|j: int| index <= j < i ==> buf@[j] == before[j + 1],
                        forall|j: int| i <= j < N ==> buf@[j] == before[j],
                    decreases *len - i,
                {
                    buf[i] = buf[i + 1];
                    i = i + 1;
                }
                *len -= 1;
                assert(buf@.take(*len as int) == old(self)@.remove(index as int));
                e
            },
            Self::Heap(v) => v.remove(index),
        }
    }
}

impl<T, const N: usize> LocalStorageVec<T, N> where T: Default {
    /// An empty list, on the stack.
    pub fn new() -> (list: Self)
        ensures
            list.wf(),
            list.on_stack(),
            list@ == Seq::<T>::empty(),
    {
        let empty: [T; 0] = [];
        LocalStorageVec::from(empty)
    }

    /// Removes the last item and returns it, or returns `None` when the
    /// list is empty.
    pub fn pop(&mut self) -> (last: Option<T>)
        requires
            old(self).wf(),
        ensures
            final(self).wf(),
            final(self).on_stack() == old(self).on_stack(),
            old(self)@.len() == 0 ==> last is None && final(self)@ == old(self)@,
            old(self)@.len() > 0 ==> last == Some(old(self)@.last()),
            old(self)@.len() > 0 ==> final(self)@ == old(self)@.drop_last(),
    {
        match self {
            Self::Stack { buf, len } => {
                if *len == 0 {
                    None
                } else {
                    let mut v = default_value::<T>();
                    core::mem::swap(&mut buf[*len - 1], &mut v);
                    *len -= 1;
                    assert(buf@.take(*len as int) == old(self)@.drop_last());
                    Some(v)
                }
            },
            Self::Heap(v) => v.pop(),
        }
    }
}

// This implementation is generic not only over the type `T`, but also over the
// constants `N` and 'M', allowing us to support conversions from arrays of any
// length to `LocalStorageVec`s of with any stack buffer size.
impl<T, const N: usize, const M: usize> From<[T; N]> for LocalStorageVec<T, M> where T: Default {
    /// The items of `array`, on the stack if they fit into the buffer, else
    /// on the heap.
    fn from(array: [T; N]) -> (list: Self)
        ensures
            list.wf(),
            list@ == array@,
            list.on_stack() <==> N <= M,
    {
        if N <= M {
            // In this case, the passed array should fit on the stack.
            let mut array = array;
            let ghost items = array@;
            let mut buf: [T; M] = default_array();
            let mut i: usize = 0;
            while i < N
                invariant
                    i <= N <= M,
                    forall|j: int| 0 <= j < i ==> buf@[j] == items[j],
                    forall|j: int| i <= j < N ==> array@[j] == items[j],
                decreases N - i,
            {
                core::mem::swap(&mut buf[i], &mut array[i]);
                i = i + 1;
            }
            assert(buf@.take(N as int) == items);
            Self::Stack { buf, len: N }
        } else {
            // If the passed array does not fit, we'll resort to moving it to the heap instead
            Self::Heap(vec_from_array(array))
        }
    }
}

impl<T, const N: usize, const M: usize> FromSpecImpl<[T; N]> for LocalStorageVec<T, M> where T: Default {
    /// The slots of the buffer behind the items hold default values, of
    /// which nothing is known: the result is stated by `from` itself.
    open spec fn obeys_from_spec() -> bool {
        false
    }

    open spec fn from_spec(v: [T; N]) -> Self {
        arbitrary()
    }
}

impl<T, const N: usize> From<Vec<T>> for LocalStorageVec<T, N> {
    fn from(v: Vec<T>) -> (list: Self)
        ensures
            list.wf(),
            list@ == v@,
    {
        Self::Heap(v)
    }
}

impl<T, const N: usize> FromSpecImpl<Vec<T>> for LocalStorageVec<T, N> {
    open spec fn obeys_from_spec() -> bool {
        true
    }

    open spec fn from_spec(v: Vec<T>) -> Self {
        LocalStorageVec::Heap(v)
    }
}

impl<'a, T: Clone, const N: usize> From<&'a [T]> for LocalStorageVec<T, N> {
    /// Clones of the items of `v`, on the heap.
    fn from(v: &'a [T]) -> (list: Self)
        ensures
            list.wf(),
            !list.on_stack(),
            list@.len() == v@.len(),
            forall|i: int| 0 <= i < v@.len() ==> cloned(v@[i], #[trigger] list@[i]),
    {
        let mut items: Vec<T> = Vec::new();
        items.extend_from_slice(v);
        Self::Heap(items)
    }
}

impl<'a, T: Clone, const N: usize> FromSpecImpl<&'a [T]> for LocalStorageVec<T, N> {
    /// What a clone is depends on `T`: the result is stated by `from`
    /// itself.
    open spec fn obeys_from_spec() -> bool {
        false
    }

    open spec fn from_spec(v: &'a [T]) -> Self {
        arbitrary()
    }
}

impl<T, const N: usize> LocalStorageVec<T, N> {
    /// An iterator over references to the items, in order.
    pub fn iter<'a>(&'a self) -> (items: std::slice::Iter<'a, T>)
        ensures
            self.wf() ==> IteratorSpec::remaining(&items) == self@.as_ref(),
    {
        self.as_ref().iter()
    }
}

/// An iterator that hands out the items of a list by value.
pub struct LocalStorageVecIter<T, const N: usize> {
    vec: LocalStorageVec<T, N>,
    counter: usize,
}

impl<T, const N: usize> LocalStorageVecIter<T, N> {
    /// The items that have not been handed out yet.
    pub closed spec fn left(self) -> Seq<T> {
        if self.counter <= self.vec@.len() {
            self.vec@.skip(self.counter as int)
        } else {
            Seq::empty()
        }
    }

    /// Whether the list behind the iterator is well formed.
    pub closed spec fn wf(self) -> bool {
        self.vec.wf()
    }
}

impl<T: Default, const N: usize> Iterator for LocalStorageVecIter<T, N> {
    type Item = T;

    /// Hands out the next item and leaves a default value in its slot.
    fn next(&mut self) -> (item: Option<T>) {
        match &mut self.vec {
            LocalStorageVec::Stack { buf, len } => {
                if self.counter < *len && self.counter < N {
                    let mut e = default_value::<T>();
                    core::mem::swap(&mut buf[self.counter], &mut e);
                    self.counter += 1;
                    Some(e)
                } else {
                    None
                }
            },
            LocalStorageVec::Heap(v) => {
                if self.counter < v.len() {
                    let mut e = default_value::<T>();
                    core::mem::swap(&mut v[self.counter], &mut e);
                    self.counter += 1;
                    Some(e)
                } else {
                    None
                }
            },
        }
    }
}

impl<T: Default, const N: usize> IteratorSpecImpl for LocalStorageVecIter<T, N> {
    /// The iterator keeps its promises as long as its list is well formed.
    open spec fn obeys_prophetic_iter_laws(&self) -> bool {
        self.wf()
    }

    /// The items that have not been handed out yet.
    open spec fn remaining(&self) -> Seq<T> {
        self.left()
    }

    open spec fn will_return_none(&self) -> bool {
        true
    }

    open spec fn decrease(&self) -> Option<nat> {
        Some(self.left().len())
    }

    open spec fn initial_value_relation(&self, init: &Self) -> bool {
        init.left() == self.left()
    }

    open spec fn peek(&self, index: int) -> Option<T> {
        None
    }
}

impl<T: Default, const N: usize> IntoIterator for LocalStorageVec<T, N> {
    type Item = T;

    type IntoIter = LocalStorageVecIter<T, N>;

    /// An iterator that hands out the items in order.
    fn into_iter(self) -> (items: LocalStorageVecIter<T, N>)
        ensures
            items.wf() == self.wf(),
            items.left() == self@,
    {
        LocalStorageVecIter { vec: self, counter: 0 }
    }
}

impl<T, const N: usize> AsRef<[T]> for LocalStorageVec<T, N> {
    /// The items as a slice. Of a list on the stack that claims more items
    /// than its buffer has slots, the whole buffer.
    fn as_ref(&self) -> (items: &[T])
        ensures
            self.wf() ==> items@ == self@,
    {
        match self {
            Self::Stack { buf, len } => {
                let slots = buf.as_slice();
                if *len <= N {
                    slots.split_at(*len).0
                } else {
                    slots
                }
            },
            Self::Heap(v) => v.as_slice(),
        }
    }
}

impl<T, const N: usize> AsMut<[T]> for LocalStorageVec<T, N> {
    /// The items as a slice that can be written to. The list keeps its
    /// length and its place. Of a list on the stack that claims more items
    /// than its buffer has slots, the whole buffer.
    fn as_mut(&mut self) -> (items: &mut [T])
        ensures
            old(self).wf() ==> items@ == old(self)@,
            old(self).wf() ==> final(self).wf() && final(self)@ == final(items)@,
            final(self).on_stack() == old(self).on_stack(),
    {
        match self {
            Self::Stack { buf, len } => {
                let slots: &mut [T] = buf;
                if *len <= N {
                    slots.split_at_mut(*len).0
                } else {
                    slots
                }
            },
            Self::Heap(v) => v.as_mut_slice(),
        }
    }
}

/// `std::ops::RangeFrom`, a range without an upper end, carried through as
/// an opaque value.
#[verifier::external_type_specification]
#[verifier::external_body]
#[verifier::reject_recursive_types(Idx)]
pub struct ExRangeFrom<Idx>(RangeFrom<Idx>);

/// `std::ops::RangeTo`, a range without a lower end, carried through as an
/// opaque value.
#[verifier::external_type_specification]
#[verifier::external_body]
#[verifier::reject_recursive_types(Idx)]
pub struct ExRangeTo<Idx>(RangeTo<Idx>);

/// The types that can index a [`LocalStorageVec`].
pub trait LocalStorageVecIndex {

}

impl LocalStorageVecIndex for usize {

}

impl LocalStorageVecIndex for RangeTo<usize> {

}

impl LocalStorageVecIndex for RangeFrom<usize> {

}

impl LocalStorageVecIndex for Range<usize> {

}

impl<T, I, const N: usize> Index<I> for LocalStorageVec<T, N> where I: LocalStorageVecIndex, [T]: Index<I> {
    type Output = <[T] as Index<I>>::Output;

    /// What the slice of the items holds at `index`.
    fn index(&self, index: I) -> (output: &Self::Output)
        ensures
            exists|items: &[T]| #[trigger]
                items@ == self@ && call_ensures(<[T] as Index<I>>::index, (items, index), output),
    {
        self.as_ref().index(index)
    }
}

impl<T, I, const N: usize> vstd::std_specs::core::IndexSpecImpl<I> for LocalStorageVec<T, N> where I: LocalStorageVecIndex, [T]: Index<I> {
    /// The list is well formed and `index` lies within its items.
    open spec fn index_req(&self, index: &I) -> bool {
        &&& self.wf()
        &&& forall|items: &[T]| #[trigger]
            items@ == self@ ==> <[T] as vstd::std_specs::core::IndexSpec<I>>::index_req(
                items,
                index,
            )
    }
}

impl<T, const N: usize> Deref for LocalStorageVec<T, N> {
    type Target = [T];

    fn deref(&self) -> (items: &[T])
        ensures
            self.wf() ==> items@ == self@,
    {
        self.as_ref()
    }
}

impl<T, const N: usize> DerefMut for LocalStorageVec<T, N> {
    fn deref_mut(&mut self) -> (items: &mut [T])
        ensures
            old(self).wf() ==> items@ == old(self)@,
            old(self).wf() ==> final(self).wf() && final(self)@ == final(items)@,
            final(self).on_stack() == old(self).on_stack(),
    {
        <Self as AsMut<[T]>>::as_mut(self)
    }
}

} // verus!
