//! A singly linked list of numbers.

use vstd::prelude::*;
use vstd::std_specs::iter::IteratorSpecImpl;
use std::ops::Range;

verus! {

/// A list: empty, or a first node that owns the rest.
pub struct LinkedList(Option<Box<Node>>);

/// One item and the list behind it.
pub struct Node {
    current: u64,
    rest: LinkedList,
}

/// The sum of the numbers in `items`.
pub open spec fn sum_of(items: Seq<u64>) -> nat
    decreases items.len(),
{
    if items.len() == 0 {
        0
    } else {
        items[0] as nat + sum_of(items.drop_first())
    }
}

/// The numbers `start, start + 1, ..` below `end`.
pub open spec fn range_of(start: u64, end: u64) -> Seq<u64> {
    if start < end {
        Seq::new((end - start) as nat, |i: int| (start + i) as u64)
    } else {
        Seq::empty()
    }
}

impl View for LinkedList {
    type V = Seq<u64>;

    /// The items, first to last.
    closed spec fn view(&self) -> Seq<u64>
        decreases self,
    {
        match self.0 {
            None => Seq::empty(),
            Some(node) => seq![node.current] + node.rest.view(),
        }
    }
}

impl Default for LinkedList {
    fn default() -> (list: Self)
        ensures
            list@ == Seq::<u64>::empty(),
    {
        Self(None)
    }
}

impl LinkedList {
    /// The list of the numbers in `range`, in rising order.
    pub fn range(range: Range<u64>) -> (list: Self)
        ensures
            list@ == range_of(range.start, range.end),
    {
        let mut this = LinkedList(None);
        let mut value: u64 = range.end;
        while value > range.start
            invariant
                value <= range.end,
                range.start <= value || value == range.end,
                this@ == range_of(value, range.end),
            decreases value,
        {
            value = value - 1;
            let ghost rest = this@;
            let node = Node { current: value, rest: this };
            this = LinkedList(Some(Box::new(node)));
            assert(this@ == seq![value] + rest);
            assert(seq![value] + rest =~= range_of(value, range.end));
        }
        this
    }

    /// The sum of the items.
    pub fn sum(&self) -> (total: u64)
        requires
            sum_of(self@) <= u64::MAX,
        ensures
            total == sum_of(self@),
        decreases self,
    {
        match &self.0 {
            None => 0,
            Some(node) => {
                assert(self@.drop_first() == node.rest@);
                node.current + node.rest.sum()
            },
        }
    }

    /// An iterator over the items, first to last.
    pub fn iter(&self) -> (items: Iter<'_>)
        ensures
            items.left() == self@,
    {
        Iter { list: self }
    }

    /// Turns the list round: the last item becomes the first.
    pub fn reverse(&mut self)
        ensures
            final(self)@ == old(self)@.reverse(),
    {
        let mut rev = LinkedList(None);
        let mut curr = LinkedList(self.0.take());
        assert(curr@ == old(self)@);
        loop
            invariant
                curr@.reverse() + rev@ == old(self)@.reverse(),
            ensures
                rev@ == old(self)@.reverse(),
            decreases curr@.len(),
        {
            match curr.0 {
                None => {
                    assert(curr@.reverse() == Seq::<u64>::empty());
                    assert(curr@.reverse() + rev@ == rev@);
                    break ;
                },
                Some(node) => {
                    let ghost before = curr@;
                    let ghost done = rev@;
                    let Node { current, rest } = *node;
                    rev = LinkedList(Some(Box::new(Node { current, rest: rev })));
                    curr = rest;
                    assert(before == seq![current] + curr@);
                    assert(rev@ == seq![current] + done);
                    assert(before.reverse() == curr@.reverse() + seq![current]);
                    assert(curr@.reverse() + rev@ == before.reverse() + done);
                },
            }
        }
        self.0 = rev.0;
    }
}

/// An iterator over the items of a list.
pub struct Iter<'a> {
    list: &'a LinkedList,
}

impl<'a> Iter<'a> {
    /// The items that have not been handed out yet.
    pub closed spec fn left(self) -> Seq<u64> {
        self.list@
    }
}

impl<'a> Iterator for Iter<'a> {
    type Item = u64;

    fn next(&mut self) -> (item: Option<u64>) {
        match &self.list.0 {
            None => None,
            Some(node) => {
                assert(self.list@.drop_first() == node.rest@);
                self.list = &node.rest;
                Some(node.current)
            },
        }
    }
}

impl<'a> IteratorSpecImpl for Iter<'a> {
    open spec fn obeys_prophetic_iter_laws(&self) -> bool {
        true
    }

    open spec fn remaining(&self) -> Seq<u64> {
        self.left()
    }

    open spec fn will_return_none(&self) -> bool {
        true
    }

    open spec fn decrease(&self) -> Option<nat> {
        Some(self.left().len())
    }

    open spec fn initial_value_relation(&self, init: &Self) -> bool {
        init.left() == self.left()
    }

    open spec fn peek(&self, index: int) -> Option<u64> {
        if 0 <= index < self.left().len() {
            Some(self.left()[index])
        } else {
            None
        }
    }
}

} // verus!
