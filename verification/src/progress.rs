//! The progress-tracking wrapper: a generic container around an inner source
//! that counts productions and renders a progress line on every production
//! attempt. Its bound mode is part of its type, so that bound-specific
//! configuration — capturing a total, overriding delimiters — is expressible
//! only on a wrapper whose mode allows it.

use vstd::prelude::*;

use crate::render::bounded_line;
use crate::render::push_char;
use crate::render::repeat_char;
use crate::render::unbounded_line;
use crate::source::source_step;
use crate::source::ExactSource;
use crate::source::Source;

verus! {

/// The indeterminate bound mode: the inner source's length is unknown, so the
/// progress line is an ever-growing run of markers.
pub struct Unbounded;

/// The determinate bound mode: a total captured once at the bounding
/// transition, and the delimiter pair framing the bar.
pub struct Bounded {
    /// The total captured from the inner source at the bounding transition;
    /// fixed thereafter.
    pub bound: usize,
    /// The opening and closing delimiter characters.
    pub delims: (char, char),
}

/// A render strategy: how one bound mode draws the current progress from the
/// wrapper's produced count and the mode's own data.
pub trait ProgressDisplay: Sized {
    /// The line this strategy renders for a given produced count.
    spec fn line_spec(&self, count: nat) -> Seq<char>;

    /// Render the progress line for the given produced count.
    fn display(&self, count: usize) -> (line: String)
        ensures
            line@ == self.line_spec(count as nat),
    ;
}

impl ProgressDisplay for Unbounded {
    open spec fn line_spec(&self, count: nat) -> Seq<char> {
        unbounded_line(count)
    }

    fn display(&self, count: usize) -> (line: String) {
        repeat_char('*', count)
    }
}

impl ProgressDisplay for Bounded {
    open spec fn line_spec(&self, count: nat) -> Seq<char> {
        bounded_line(count, self.bound as nat, self.delims)
    }

    fn display(&self, count: usize) -> (line: String) {
        let mut line = String::new();
        push_char(&mut line, self.delims.0);
        let marks = repeat_char('*', count);
        line.append(marks.as_str());
        let width = if count <= self.bound {
            self.bound - count
        } else {
            0
        };
        let fill = repeat_char(' ', width);
        line.append(fill.as_str());
        push_char(&mut line, self.delims.1);
        proof {
            assert(line@ =~= self.line_spec(count as nat));
        }
        line
    }
}

/// The progress wrapper: an inner source, the number of production attempts
/// made so far, and the current bound mode.
pub struct Progress<Iter, Bound> {
    /// The inner source being consumed.
    pub iter: Iter,
    /// How many production attempts have been made; starts at zero and grows
    /// by one on every attempt, the one that discovers exhaustion included.
    pub i: usize,
    /// The current bound mode.
    pub bound: Bound,
}

impl<Iter> Progress<Iter, Unbounded> {
    /// Wraps a source in a fresh indeterminate-mode wrapper with a zero
    /// count.
    pub fn new(iter: Iter) -> (r: Self)
        ensures
            r.iter == iter,
            r.i == 0,
    {
        Self { iter, i: 0, bound: Unbounded }
    }
}

impl<Iter> Progress<Iter, Bounded> {
    /// The wrapper after a delimiter override: the same source, count and
    /// total, with the given pair in place of the old one.
    pub open spec fn with_delims_spec(self, delims: (char, char)) -> Self {
        Progress {
            iter: self.iter,
            i: self.i,
            bound: Bounded { bound: self.bound.bound, delims },
        }
    }

    /// Replaces the delimiter pair. Only a determinate-mode wrapper has this
    /// operation, so requesting it on an indeterminate one is not expressible.
    pub fn with_delims(self, delims: (char, char)) -> (r: Self)
        ensures
            r == self.with_delims_spec(delims),
    {
        Progress {
            iter: self.iter,
            i: self.i,
            bound: Bounded { bound: self.bound.bound, delims },
        }
    }
}

impl<Iter: ExactSource> Progress<Iter, Unbounded> {
    /// The one-way transition into determinate mode: captures the inner
    /// source's exact length, once, as the fixed total, installs the default
    /// delimiter pair, and preserves the count and the source unchanged. Only
    /// a source of knowable length offers `ExactSource`, so bounding a source
    /// that never ends is not expressible.
    pub fn with_bound(self) -> (r: Progress<Iter, Bounded>)
        ensures
            r.iter == self.iter,
            r.i == self.i,
            Some(r.bound.bound as nat) == self.iter.remaining(),
            r.bound.delims == ('[', ']'),
    {
        let bound = Bounded { bound: self.iter.len(), delims: ('[', ']') };

        Progress { iter: self.iter, i: self.i, bound }
    }
}

impl<Iter: Source, Bound: ProgressDisplay> Progress<Iter, Bound> {
    /// One production attempt: renders the progress line from the count as it
    /// stands, then increments the count, then delegates to the inner source.
    /// The line comes back beside the element so that the caller's sink shows
    /// it; a line is rendered on every attempt, the one that discovers
    /// exhaustion included.
    pub fn next(&mut self) -> (r: (String, Option<Iter::Item>))
        requires
            old(self).i < usize::MAX,
        ensures
            r.0@ == old(self).bound.line_spec(old(self).i as nat),
            final(self).i == old(self).i + 1,
            final(self).bound == old(self).bound,
            source_step(old(self).iter, final(self).iter, r.1),
    {
        let line = self.bound.display(self.i);

        self.i = self.i + 1;
        let produced = self.iter.next();
        (line, produced)
    }
}

/// The ergonomic entry point: any source can be wrapped directly.
pub trait ProgressIteratorExt: Sized {
    /// Wraps this source in a fresh indeterminate-mode wrapper with a zero
    /// count.
    fn progress(self) -> (r: Progress<Self, Unbounded>)
        ensures
            r.iter == self,
            r.i == 0,
    ;
}

impl<Iter: Source> ProgressIteratorExt for Iter {
    fn progress(self) -> (r: Progress<Self, Unbounded>) {
        Progress::new(self)
    }
}

/// Delimiter-override law: the override is idempotent under repeated
/// application with the same pair, and of two successive overrides the most
/// recent always wins.
pub proof fn lemma_with_delims_override<Iter>(
    p: Progress<Iter, Bounded>,
    d1: (char, char),
    d2: (char, char),
)
    ensures
        p.with_delims_spec(d1).with_delims_spec(d1) == p.with_delims_spec(d1),
        p.with_delims_spec(d1).with_delims_spec(d2) == p.with_delims_spec(d2),
{
}

} // verus!
