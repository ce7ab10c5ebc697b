use utils::fps::frame_due;
use utils::fps::get_dt_ns;

#[test]
fn dt_counts_forward() {
    assert_eq!(get_dt_ns(100, 150), 50);
    assert_eq!(get_dt_ns(0, 0), 0);
}

#[test]
fn dt_counts_across_wrap_around() {
    assert_eq!(get_dt_ns(u64::MAX - 10, 5), 15);
    assert_eq!(get_dt_ns(u64::MAX, 0), 0);
}

#[test]
fn frame_due_compares_against_the_frame_length() {
    assert!(frame_due(100, 50, 150));
    assert!(frame_due(100, 50, 200));
    assert!(!frame_due(100, 51, 150));
}
