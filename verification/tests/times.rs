use mry::Bound;
use mry::Times;

#[test]
fn exact() {
    let times = Times::Exact(2);
    assert!(times.contains(&2));
    assert!(!times.contains(&1));
    assert!(!times.contains(&3));
}

#[test]
fn range() {
    let times = Times::Range((Bound::Included(2), Bound::Excluded(4)));
    assert!(!times.contains(&1));
    assert!(times.contains(&2));
    assert!(times.contains(&3));
    assert!(!times.contains(&4));
    assert!(!times.contains(&5));
}

#[test]
fn display() {
    assert_eq!(Times::from(2).to_string(), "2");
    assert_eq!(Times::from(1..2).to_string(), "1<=x<2");
    assert_eq!(Times::from(1..=2).to_string(), "1<=x<=2");
    assert_eq!(Times::from(1..).to_string(), "1<=x");
    assert_eq!(Times::from(..2).to_string(), "x<2");
}
