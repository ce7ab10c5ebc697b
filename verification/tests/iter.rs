use utils::iter::SampleOn;

struct Counter {
    next: i32,
    stop: i32,
}

impl Iterator for Counter {
    type Item = i32;

    fn next(&mut self) -> Option<i32> {
        if self.next < self.stop {
            let here = self.next;
            self.next += 1;
            Some(here)
        } else {
            None
        }
    }
}

impl SampleOn for Counter {}

#[test]
fn sample_on_pairs_the_iterators() {
    let source = Counter { next: 0, stop: 3 };
    let ticks = Counter { next: 0, stop: 100 };
    let items = source.sample_on(ticks);
    let (mut sample, mut on, last, infinite) = items.into_parts();
    assert!(!infinite);
    assert_eq!(last, None);
    assert_eq!(sample.next(), Some(0));
    assert_eq!(on.next(), Some(0));
}

#[test]
fn infinite_sets_the_mode() {
    let source = Counter { next: 0, stop: 3 };
    let ticks = Counter { next: 0, stop: 100 };
    let items = source.sample_on(ticks).infinite();
    let (_, _, _, infinite) = items.into_parts();
    assert!(infinite);
}

#[test]
fn next_sample_decides_the_step() {
    // A fresh sample is yielded and kept.
    assert_eq!(utils::iter::sample_on::next_sample(Some(7), None, false), (Some(7), Some(7)));
    assert_eq!(utils::iter::sample_on::next_sample(Some(8), Some(7), true), (Some(8), Some(8)));
    // A drained source repeats the kept sample only in the infinite mode.
    assert_eq!(utils::iter::sample_on::next_sample(None::<i32>, Some(7), true), (Some(7), Some(7)));
    assert_eq!(utils::iter::sample_on::next_sample(None::<i32>, Some(7), false), (None, Some(7)));
    assert_eq!(utils::iter::sample_on::next_sample(None::<i32>, None, true), (None, None));
}
