use utils::vec::TakeOnly;

#[test]
fn take_only_splits_by_the_condition() {
    let mut v = vec![1, 2, 3, 4, 5, 6];
    let taken = v.take_only(|x| x % 2 == 0);
    assert_eq!(taken, vec![2, 4, 6]);
    assert_eq!(v, vec![1, 3, 5]);
}

#[test]
fn take_only_everything_or_nothing() {
    let mut v = vec![1, 2, 3];
    let all = v.take_only(|_| true);
    assert_eq!(all, vec![1, 2, 3]);
    assert!(v.is_empty());

    let mut w = vec![1, 2, 3];
    let none = w.take_only(|_| false);
    assert!(none.is_empty());
    assert_eq!(w, vec![1, 2, 3]);
}

#[test]
fn take_only_moves_owned_elements() {
    let mut v = vec![String::from("keep"), String::from("take me"), String::from("also take me")];
    let taken = v.take_only(|s| s.contains("take"));
    assert_eq!(taken, vec![String::from("take me"), String::from("also take me")]);
    assert_eq!(v, vec![String::from("keep")]);
}
