//! The two render strategies' output, as sequences of characters: a line of
//! progress markers for the indeterminate mode, and a delimited fill/empty bar
//! for the determinate mode.

use vstd::prelude::*;

verus! {

/// A run of `n` progress marker characters.
pub open spec fn markers(n: nat) -> Seq<char> {
    Seq::new(n, |j: int| '*')
}

/// A run of `n` fill characters.
pub open spec fn blanks(n: nat) -> Seq<char> {
    Seq::new(n, |j: int| ' ')
}

/// Width of the empty region of a determinate bar. Clamped at zero for a
/// produced count that has outrun the captured total (a source that yielded
/// more elements than the total captured at the bounding transition), so the
/// computation never underflows.
pub open spec fn fill_width(count: nat, total: nat) -> nat {
    if count <= total {
        (total - count) as nat
    } else {
        0
    }
}

/// The indeterminate progress line for a produced count: the markers alone,
/// growing without bound.
pub open spec fn unbounded_line(count: nat) -> Seq<char> {
    markers(count)
}

/// The determinate progress line for a produced count: the opening delimiter,
/// the markers, the fill up to the captured total, the closing delimiter.
pub open spec fn bounded_line(count: nat, total: nat, delims: (char, char)) -> Seq<char> {
    seq![delims.0] + markers(count) + blanks(fill_width(count, total)) + seq![delims.1]
}

/// Relies on `String::push`: appends exactly the given character to the end
/// of the string.
#[verifier::external_body]
pub(crate) fn push_char(s: &mut String, c: char)
    ensures
        final(s)@ == old(s)@.push(c),
{
    s.push(c);
}

/// Builds the string of `n` copies of `c`.
pub(crate) fn repeat_char(c: char, n: usize) -> (r: String)
    ensures
        r@ == Seq::new(n as nat, |j: int| c),
{
    let mut s = String::new();
    let mut k: usize = 0;
    while k < n
        invariant
            k <= n,
            s@ == Seq::new(k as nat, |j: int| c),
        decreases n - k,
    {
        push_char(&mut s, c);
        proof {
            assert(s@ =~= Seq::new((k + 1) as nat, |j: int| c));
        }
        k = k + 1;
    }
    s
}

/// Marker-count law for the indeterminate rendering: the line rendered for a
/// produced count `c` holds exactly `c` characters, every one of them the
/// marker. `Progress::new` starts the count at zero and `Progress::next`
/// renders from the count before incrementing it, so the line rendered by the
/// production attempt numbered `k` (counting from one) holds exactly `k - 1`
/// markers, and after `n` productions the count is `n`.
pub proof fn lemma_unbounded_line_markers(c: nat)
    ensures
        unbounded_line(c).len() == c,
        forall|j: int| 0 <= j < c ==> unbounded_line(c)[j] == '*',
{
}

/// Shape law for the determinate rendering, for a count within the captured
/// total: the line holds the configured delimiters at its two ends, exactly
/// `count` markers after the opening delimiter, and exactly `total - count`
/// fill characters before the closing one.
pub proof fn lemma_bounded_line_shape(count: nat, total: nat, delims: (char, char))
    requires
        count <= total,
    ensures
        bounded_line(count, total, delims).len() == total + 2,
        bounded_line(count, total, delims)[0] == delims.0,
        bounded_line(count, total, delims)[total + 1 as int] == delims.1,
        forall|j: int| 1 <= j <= count ==> bounded_line(count, total, delims)[j] == '*',
        forall|j: int| count < j <= total ==> bounded_line(count, total, delims)[j] == ' ',
{
}

} // verus!
