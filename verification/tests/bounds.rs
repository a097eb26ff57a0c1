use size_estimate::collect_values;
use size_estimate::EstimateSize;
use size_estimate::Producer;
use size_estimate::RangeProducer;
use size_estimate::VecProducer;

#[test]
fn test_bounds_stored_verbatim_even_when_inconsistent() {
    // estimate_size stores the bounds as given, with no validation or
    // repair, even when lower exceeds upper.
    let iter = RangeProducer::new(0, 4).estimate_size(9, Some(2));
    assert_eq!(iter.size_hint(), (9, Some(2)));
}

#[test]
fn test_decrement_continues_after_exhaustion() {
    let empty: Vec<u8> = Vec::new();
    let mut iter = VecProducer::new(empty).estimate_size(2, None);

    assert_eq!(iter.next(), None);
    assert_eq!(iter.size_hint(), (1, None));
    assert_eq!(iter.next(), None);
    assert_eq!(iter.size_hint(), (0, None));
    assert_eq!(iter.next(), None);
    // The lower bound stays floored at zero; the ceiling stays unknown.
    assert_eq!(iter.size_hint(), (0, None));
}

#[test]
fn test_upper_stays_absent_after_flip() {
    let mut iter = RangeProducer::new(0, 5).estimate_size(0, Some(1));

    assert_eq!(iter.next(), Some(0));
    assert_eq!(iter.size_hint(), (0, Some(0)));
    assert_eq!(iter.next(), Some(1));
    assert_eq!(iter.size_hint(), (0, None));
    assert_eq!(iter.next(), Some(2));
    // Once the ceiling has become unknown it never reappears.
    assert_eq!(iter.size_hint(), (0, None));
}

#[test]
fn test_decoration_preserves_values() {
    let plain: Vec<usize> = collect_values(RangeProducer::new(0, 5));
    let decorated: Vec<usize> = collect_values(RangeProducer::new(0, 5).estimate_size(1, Some(2)));
    assert_eq!(plain, vec![0, 1, 2, 3, 4]);
    assert_eq!(decorated, plain);
}

#[test]
fn test_min_size_raises_present_ceiling() {
    // Native bound (5, Some(5)): raising the floor to 10 raises the
    // ceiling in lockstep, never leaving it below the floor.
    let iter = RangeProducer::new(0, 5).estimate_min_size(10);
    assert_eq!(iter.size_hint(), (10, Some(10)));
}

#[test]
fn test_min_size_keeps_higher_ceiling() {
    // Native bound (7, Some(7)): raising the floor only to 4 leaves the
    // higher ceiling as it was.
    let iter = RangeProducer::new(0, 7).estimate_min_size(4);
    assert_eq!(iter.size_hint(), (4, Some(7)));
}

#[test]
fn test_min_size_keeps_absent_ceiling() {
    // A producer whose current ceiling is unknown keeps it unknown when
    // only the floor is raised.
    let inner = RangeProducer::new(0, 3).estimate_size(3, None);
    let iter = inner.estimate_min_size(5);
    assert_eq!(iter.size_hint(), (5, None));
}

#[test]
fn test_max_size_caps_floor() {
    // Native bound (8, Some(8)): declaring the ceiling 3 caps the floor.
    let iter = RangeProducer::new(0, 8).estimate_max_size(Some(3));
    assert_eq!(iter.size_hint(), (3, Some(3)));
}

#[test]
fn test_max_size_keeps_lower_floor() {
    // Native bound (2, Some(2)): a ceiling above the floor leaves it alone.
    let iter = RangeProducer::new(0, 2).estimate_max_size(Some(6));
    assert_eq!(iter.size_hint(), (2, Some(6)));
}

#[test]
fn test_max_size_absent_keeps_floor() {
    // Declaring the ceiling unknown keeps the receiver's floor unchanged.
    let iter = RangeProducer::new(0, 8).estimate_max_size(None);
    assert_eq!(iter.size_hint(), (8, None));
}

#[test]
fn test_range_producer_native_bound() {
    let mut range = RangeProducer::new(2, 5);
    assert_eq!(range.size_hint(), (3, Some(3)));
    assert_eq!(range.next(), Some(2));
    assert_eq!(range.size_hint(), (2, Some(2)));

    let empty = RangeProducer::new(5, 3);
    assert_eq!(empty.size_hint(), (0, Some(0)));
    let nothing: Vec<usize> = collect_values(empty);
    assert_eq!(nothing, Vec::<usize>::new());
}

#[test]
fn test_vec_producer_yields_in_order() {
    let mut letters = VecProducer::new(vec!['a', 'b', 'c']);
    assert_eq!(letters.size_hint(), (3, Some(3)));
    assert_eq!(letters.next(), Some('a'));
    assert_eq!(letters.size_hint(), (2, Some(2)));
    let rest: Vec<char> = collect_values(letters);
    assert_eq!(rest, vec!['b', 'c']);
}
