use progress_bar::progress::Bounded;
use progress_bar::progress::Progress;
use progress_bar::progress::ProgressDisplay;
use progress_bar::progress::ProgressIteratorExt;
use progress_bar::progress::Unbounded;
use progress_bar::source::Counter;
use progress_bar::source::ExactSource;
use progress_bar::source::Source;
use progress_bar::source::VecSource;

#[test]
fn vec_source_yields_in_order() {
    let mut src = VecSource::from_vec(vec![10, 20, 30]);
    assert_eq!(src.len(), 3);
    assert_eq!(src.next(), Some(10));
    assert_eq!(src.len(), 2);
    assert_eq!(src.next(), Some(20));
    assert_eq!(src.next(), Some(30));
    assert_eq!(src.next(), None);
    assert_eq!(src.next(), None);
    assert_eq!(src.len(), 0);
}

#[test]
fn counter_counts_from_start() {
    let mut src = Counter::new(5);
    assert_eq!(src.next(), Some(5));
    assert_eq!(src.next(), Some(6));
    assert_eq!(src.next(), Some(7));
}

#[test]
fn counter_saturates_at_max() {
    let mut src = Counter::new(u64::MAX - 1);
    assert_eq!(src.next(), Some(u64::MAX - 1));
    assert_eq!(src.next(), Some(u64::MAX));
    assert_eq!(src.next(), Some(u64::MAX));
}

#[test]
fn unbounded_display_marker_count() {
    assert_eq!(Unbounded.display(0), "");
    assert_eq!(Unbounded.display(1), "*");
    assert_eq!(Unbounded.display(4), "****");
}

#[test]
fn bounded_display_shape() {
    let b = Bounded { bound: 5, delims: ('[', ']') };
    assert_eq!(b.display(0), "[     ]");
    assert_eq!(b.display(2), "[**   ]");
    assert_eq!(b.display(5), "[*****]");
}

#[test]
fn bounded_display_clamps_overrun() {
    // A count past the captured total must not underflow the fill width: the
    // fill region clamps to nothing and the markers run on.
    let b = Bounded { bound: 2, delims: ('[', ']') };
    assert_eq!(b.display(3), "[***]");
    assert_eq!(b.display(5), "[*****]");
}

#[test]
fn new_starts_unbounded_at_zero() {
    let p = Progress::new(VecSource::from_vec(vec![1, 2, 3]));
    assert_eq!(p.i, 0);
}

#[test]
fn progress_ext_matches_new() {
    let p = VecSource::from_vec(vec![1, 2, 3]).progress();
    assert_eq!(p.i, 0);
}

#[test]
fn with_bound_captures_length_and_keeps_count() {
    let p = VecSource::from_vec(vec![1, 2, 3]).progress().with_bound();
    assert_eq!(p.bound.bound, 3);
    assert_eq!(p.i, 0);
    assert_eq!(p.bound.delims, ('[', ']'));
}

#[test]
fn with_bound_after_consumption_captures_remaining_length() {
    let mut p = VecSource::from_vec(vec![1, 2, 3]).progress();
    let (_, first) = p.next();
    assert_eq!(first, Some(1));
    let p = p.with_bound();
    assert_eq!(p.bound.bound, 2);
    assert_eq!(p.i, 1);
}

#[test]
fn with_delims_latest_wins() {
    let p = VecSource::from_vec(vec![1]).progress().with_bound();
    let p = p.with_delims(('(', ')')).with_delims(('<', '>'));
    assert_eq!(p.bound.delims, ('<', '>'));
    assert_eq!(p.bound.bound, 1);
    assert_eq!(p.i, 0);
}

#[test]
fn with_delims_idempotent() {
    let once = VecSource::from_vec(vec![1, 2]).progress().with_bound().with_delims(('{', '}'));
    let twice = VecSource::from_vec(vec![1, 2])
        .progress()
        .with_bound()
        .with_delims(('{', '}'))
        .with_delims(('{', '}'));
    assert_eq!(once.bound.delims, twice.bound.delims);
    assert_eq!(once.bound.bound, twice.bound.bound);
    assert_eq!(once.i, twice.i);
    let (l1, _) = VecSource::from_vec(vec![1]).progress().with_bound().with_delims(('{', '}')).next();
    let (l2, _) = VecSource::from_vec(vec![1])
        .progress()
        .with_bound()
        .with_delims(('{', '}'))
        .with_delims(('{', '}'))
        .next();
    assert_eq!(l1, l2);
}

#[test]
fn bounded_scenario_three_elements() {
    // Wrap [1, 2, 3], transition to bounded, override the delimiters to
    // ('<', '>'), consume fully. The render fires from the count before the
    // increment, so the attempt that returns the k-th element draws k - 1
    // markers, and the attempt that discovers exhaustion still draws a line.
    let src = VecSource::from_vec(vec![1, 2, 3]);
    let mut p = src.progress().with_bound().with_delims(('<', '>'));
    let mut lines: Vec<String> = Vec::new();
    let mut items: Vec<i32> = Vec::new();
    loop {
        let (line, item) = p.next();
        lines.push(line);
        match item {
            Some(n) => items.push(n),
            None => break,
        }
    }
    assert_eq!(items, vec![1, 2, 3]);
    assert_eq!(lines, vec!["<   >", "<*  >", "<** >", "<***>"]);
    assert_eq!(p.i, 4);
}

#[test]
fn unbounded_scenario_counting_source() {
    // Wrap an endless counting sequence starting at 1 and consume three
    // elements without ever transitioning to bounded. The count observed by
    // render call k is k - 1, so the first line is empty; a fourth attempt
    // draws three markers.
    let mut p = Counter::new(1).progress();
    let mut lines: Vec<String> = Vec::new();
    let mut items: Vec<u64> = Vec::new();
    for _ in 0..3 {
        let (line, item) = p.next();
        lines.push(line);
        items.push(item.unwrap());
    }
    assert_eq!(items, vec![1, 2, 3]);
    assert_eq!(lines, vec!["", "*", "**"]);
    assert_eq!(p.i, 3);
    let (line, item) = p.next();
    assert_eq!(line, "***");
    assert_eq!(item, Some(4));
}

#[test]
fn exhaustion_of_empty_source_still_renders() {
    // Wrapping an empty sequence and asking once for an element signals
    // exhaustion, yet a line is still rendered on that very attempt — the
    // pinned print-before-exhaustion-check ordering — and the count still
    // grows by one.
    let src: VecSource<i32> = VecSource::from_vec(vec![]);
    let mut p = src.progress();
    assert_eq!(p.i, 0);
    let (line, item) = p.next();
    assert_eq!(item, None);
    assert_eq!(line, "");
    assert_eq!(p.i, 1);
    let (line, item) = p.next();
    assert_eq!(item, None);
    assert_eq!(line, "*");
}

#[test]
fn bounded_render_counts_markers_and_fill() {
    // For every count n up to the total, the bar holds exactly n markers and
    // total - n fill characters between the configured delimiters.
    let total = 6;
    for n in 0..=total {
        let b = Bounded { bound: total, delims: ('|', '|') };
        let line = b.display(n);
        let chars: Vec<char> = line.chars().collect();
        assert_eq!(chars.len(), total + 2);
        assert_eq!(chars[0], '|');
        assert_eq!(chars[total + 1], '|');
        assert_eq!(chars[1..].iter().take_while(|c| **c == '*').count(), n);
        assert_eq!(chars[1 + n..1 + total].iter().filter(|c| **c == ' ').count(), total - n);
    }
}

#[test]
fn unbounded_render_counts_markers() {
    for n in 0..10 {
        let line = Unbounded.display(n);
        assert_eq!(line.chars().count(), n);
        assert!(line.chars().all(|c| c == '*'));
    }
}
