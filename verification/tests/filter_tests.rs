use night_fishing::filter::{median_of, MedianFilter};

#[test]
fn median_of_lists() {
    assert_eq!(median_of(&vec![5]), 5);
    assert_eq!(median_of(&vec![3, 1]), 3);
    assert_eq!(median_of(&vec![9, -2, 4]), 4);
    assert_eq!(median_of(&vec![7, 7, 1, 100, 2]), 7);
}

#[test]
fn filter_drops_single_spikes() {
    let mut f = MedianFilter::new();
    assert_eq!(f.push(10, -10), (10, -10));
    assert_eq!(f.push(12, -12), (10, -10));
    assert_eq!(f.push(1000, 500), (12, -10));
    assert_eq!(f.push(14, -14), (14, -10));
    assert_eq!(f.push(16, -16), (14, -12));
    assert_eq!(f.len, 5);
    assert_eq!(f.push(18, -18), (16, -14));
    assert_eq!(f.xs, vec![18, 12, 1000, 14, 16]);
    assert_eq!(f.head, 1);
}

#[test]
fn reset_restarts_the_window() {
    let mut f = MedianFilter::new();
    f.push(1, 1);
    f.push(2, 2);
    f.reset();
    assert_eq!(f.len, 0);
    assert_eq!(f.push(50, 60), (50, 60));
}

#[test]
fn second_sample_spike_is_not_reported() {
    let mut f = MedianFilter::new();
    assert_eq!(f.push(10, 10), (10, 10));
    assert_eq!(f.push(1000, -1000), (10, 10));
    assert_eq!(f.push(11, 9), (11, 9));
}

#[test]
fn window_order_does_not_matter_when_full() {
    let mut a = MedianFilter::new();
    let mut b = MedianFilter::new();
    for v in [5, 1, 9, 3] {
        a.push(v, -v);
    }
    for v in [9, 3, 5, 1] {
        b.push(v, -v);
    }
    assert_eq!(a.push(7, -7), b.push(7, -7));
    assert_eq!(a.push(2, -2), b.push(2, -2));
}
