//! The inner sequence producers that a progress wrapper consumes: the
//! collaborator interface ("give me the next element or signal exhaustion",
//! plus, for sources of knowable length, "report the exact remaining count"),
//! and two concrete producers, one finite and one endless.

use vstd::prelude::*;

verus! {

/// An inner sequence producer: yields its elements one at a time until
/// exhaustion. A source whose `remaining()` is `None` never ends.
///
/// One production step may do this and nothing else: an exhausted finite
/// source signals exhaustion and stays exhausted; otherwise the next element
/// in line comes out, the remaining count (when finite) drops by one, and the
/// elements still to come shift forward by one place. `source_step` states
/// the same condition as a spec function over a step's before and after.
pub trait Source: Sized {
    type Item;

    /// How many elements are still to come; `None` for a source that never
    /// ends.
    spec fn remaining(&self) -> Option<nat>;

    /// The element that the future production numbered `k` (counting from
    /// zero) will yield, meaningful while at least `k + 1` elements remain.
    spec fn at(&self, k: nat) -> Self::Item;

    /// Produce the next element, or signal exhaustion.
    fn next(&mut self) -> (produced: Option<Self::Item>)
        ensures
            match old(self).remaining() {
                Some(n) => if n == 0 {
                    &&& produced is None
                    &&& final(self).remaining() == Some(0nat)
                } else {
                    &&& produced == Some(old(self).at(0))
                    &&& final(self).remaining() == Some((n - 1) as nat)
                    &&& forall|k: nat|
                        k < n - 1 ==> #[trigger] final(self).at(k) == old(self).at((k + 1) as nat)
                },
                None => {
                    &&& produced == Some(old(self).at(0))
                    &&& final(self).remaining() is None
                    &&& forall|k: nat| #[trigger] final(self).at(k) == old(self).at((k + 1) as nat)
                },
            },
    ;
}

/// What one production step of a source may do, as `Source::next` ensures it:
/// an exhausted finite source signals exhaustion and stays exhausted;
/// otherwise the next element in line comes out, the remaining count (when
/// finite) drops by one, and the elements still to come shift forward by one
/// place.
pub open spec fn source_step<S: Source>(pre: S, post: S, produced: Option<S::Item>) -> bool {
    match pre.remaining() {
        Some(n) => if n == 0 {
            &&& produced is None
            &&& post.remaining() == Some(0nat)
        } else {
            &&& produced == Some(pre.at(0))
            &&& post.remaining() == Some((n - 1) as nat)
            &&& forall|k: nat| k < n - 1 ==> #[trigger] post.at(k) == pre.at((k + 1) as nat)
        },
        None => {
            &&& produced == Some(pre.at(0))
            &&& post.remaining() is None
            &&& forall|k: nat| #[trigger] post.at(k) == pre.at((k + 1) as nat)
        },
    }
}

/// A source whose exact remaining length is knowable up front: the capability
/// that the determinate (bounded) rendering mode requires. A source that
/// never ends cannot offer it.
pub trait ExactSource: Source {
    /// Report the exact number of elements still to come.
    fn len(&self) -> (n: usize)
        ensures
            self.remaining() == Some(n as nat),
    ;
}

/// A finite source over the elements of a vector, yielded front to back. The
/// elements still to come are kept in reverse, so that each production pops
/// one off the back.
pub struct VecSource<T> {
    /// The elements still to come, in reverse order.
    pub rev: Vec<T>,
}

impl<T> VecSource<T> {
    /// The elements still to come, in production order.
    pub open spec fn elements(&self) -> Seq<T> {
        self.rev@.reverse()
    }

    /// Wraps a vector as a source that yields its elements in order.
    pub fn from_vec(v: Vec<T>) -> (r: Self)
        ensures
            r.elements() == v@,
    {
        let mut src = v;
        let mut rev: Vec<T> = Vec::new();
        proof {
            assert(src@ + rev@.reverse() =~= src@);
        }
        let ghost whole = src@;
        while src.len() > 0
            invariant
                src@ + rev@.reverse() == whole,
            decreases src.len(),
        {
            let ghost pre_src = src@;
            let ghost pre_rev = rev@;
            let x = src.pop().unwrap();
            rev.push(x);
            proof {
                assert(rev@.reverse() =~= seq![x] + pre_rev.reverse());
                assert(src@ + rev@.reverse() =~= pre_src + pre_rev.reverse());
            }
        }
        let r = VecSource { rev };
        proof {
            assert(r.elements() =~= whole);
        }
        r
    }
}

impl<T> Source for VecSource<T> {
    type Item = T;

    open spec fn remaining(&self) -> Option<nat> {
        Some(self.elements().len())
    }

    open spec fn at(&self, k: nat) -> T {
        self.elements()[k as int]
    }

    fn next(&mut self) -> (produced: Option<T>) {
        let ghost pre = *self;
        let produced = self.rev.pop();
        proof {
            if pre.rev@.len() > 0 {
                assert(pre.at(0) == pre.rev@[pre.rev@.len() - 1]);
                assert forall|k: nat| k < pre.elements().len() - 1 implies #[trigger] self.at(k)
                    == pre.at((k + 1) as nat) by {
                    assert(self.elements()[k as int] == self.rev@[self.rev@.len() - 1 - k]);
                    assert(pre.elements()[k + 1 as int] == pre.rev@[pre.rev@.len() - 2 - k]);
                }
            }
        }
        produced
    }
}

impl<T> ExactSource for VecSource<T> {
    fn len(&self) -> (n: usize) {
        self.rev.len()
    }
}

/// An endless counting source: yields successive integers from a start value.
/// The value saturates at the largest representable integer, so a production
/// can never fault; the source itself never ends.
pub struct Counter {
    /// The value that the next production yields.
    pub next_value: u64,
}

impl Counter {
    /// A counting source whose first element is `start`.
    pub fn new(start: u64) -> (r: Self)
        ensures
            r.next_value == start,
    {
        Counter { next_value: start }
    }
}

impl Source for Counter {
    type Item = u64;

    open spec fn remaining(&self) -> Option<nat> {
        None
    }

    open spec fn at(&self, k: nat) -> u64 {
        if self.next_value + k <= u64::MAX {
            (self.next_value + k) as u64
        } else {
            u64::MAX
        }
    }

    fn next(&mut self) -> (produced: Option<u64>) {
        let v = self.next_value;
        if self.next_value < u64::MAX {
            self.next_value = self.next_value + 1;
        }
        Some(v)
    }
}

} // verus!
