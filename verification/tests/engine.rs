use mry::Behavior;
use mry::Bound;
use mry::ConstValues;
use mry::Matcher;
use mry::Mock;
use mry::MockObject;
use mry::MockObjectReturns;
use mry::Predicate;
use mry::Times;

type UsizeMock = Mock<usize, usize, Matcher<usize>, fn(usize) -> usize>;
type StrMock = Mock<usize, String, Matcher<usize>, fn(usize) -> String>;

#[test]
fn const_value_is_idempotent() {
    let mut mock: UsizeMock = Mock::new("m");
    mock.returns_value(Matcher::Any, 7);

    for i in 0..50 {
        assert_eq!(mock.record_call_and_find_mock_output(i), Some(7));
    }
}

#[test]
fn first_matching_rule_wins() {
    let mut mock: StrMock = Mock::new("m");
    mock.returns_with(Matcher::Eq(3), Behavior::Function(|_| "x".to_string()));
    mock.returns_with(Matcher::Eq(3), Behavior::Function(|_| "y".to_string()));

    assert_eq!(mock.record_call_and_find_mock_output(3), Some("x".to_string()));
}

#[test]
fn later_fallback_rule_applies_when_earlier_rejects() {
    let mut mock: StrMock = Mock::new("m");
    mock.returns_with(Matcher::Eq(3), Behavior::Function(|_| "x".to_string()));
    mock.returns_value(Matcher::Any, "fallback".to_string());

    assert_eq!(
        mock.record_call_and_find_mock_output(4),
        Some("fallback".to_string())
    );
}

#[test]
fn never_matcher_rule_is_skipped_entirely() {
    let mut mock: UsizeMock = Mock::new("m");
    mock.calls_real_impl(Matcher::Never);

    let result = mock.try_record_call_and_find_mock_output(1);
    match result {
        Err(message) => assert!(message.contains("mock not found for m")),
        Ok(_) => panic!("a Never rule must not match"),
    }
}

#[test]
fn log_keeps_call_order() {
    let mut mock: UsizeMock = Mock::new("m");
    mock.returns_value(Matcher::Any, 0);

    mock.record_call_and_find_mock_output(3);
    mock.record_call_and_find_mock_output(2);

    let result = mock.assert_called(Matcher::Any);
    assert_eq!(result.logs.0, vec![3, 2]);
    assert_eq!(result.count(), 2);
}

#[test]
fn log_grows_by_one_per_call() {
    let mut mock: UsizeMock = Mock::new("m");
    mock.returns_value(Matcher::Any, 0);

    for round in 0..4 {
        for i in 0..25 {
            mock.record_call_and_find_mock_output(round * 25 + i);
        }
    }

    assert_eq!(mock.assert_called(Matcher::Any).count(), 100);
}

#[test]
fn assert_failure_dumps_name_and_full_log() {
    let mut mock: UsizeMock = Mock::new("m");
    mock.returns_value(Matcher::Any, 0);
    mock.record_call_and_find_mock_output(1);
    mock.record_call_and_find_mock_output(2);
    mock.record_call_and_find_mock_output(2);

    let failure = mock.checked_assert_called(Matcher::Eq(3));
    match failure {
        Err(message) => {
            assert!(message.starts_with("m was not called"));
            assert!(message.contains("[1, 2, 2]"));
        }
        Ok(_) => panic!("no logged call equals 3"),
    }
}

#[test]
fn calls_real_impl_defers_and_still_logs() {
    let mut mock: UsizeMock = Mock::new("m");
    mock.calls_real_impl(Matcher::Eq(3));

    assert_eq!(mock.record_call_and_find_mock_output(3), None);

    let result = mock.assert_called(Matcher::Eq(3));
    assert_eq!(result.logs.0, vec![3]);
}

#[test]
fn const_queue_hands_values_out_in_order() {
    let mut mock: StrMock = Mock::new("m");
    mock.returns_with(
        Matcher::Any,
        Behavior::Const(ConstValues::Queue(vec!["a".to_string(), "b".to_string()])),
    );

    assert_eq!(mock.record_call_and_find_mock_output(1), Some("a".to_string()));
    assert_eq!(mock.record_call_and_find_mock_output(2), Some("b".to_string()));
}

#[test]
fn const_queue_exhaustion_is_fatal() {
    let mut mock: StrMock = Mock::new("m");
    mock.returns_with(
        Matcher::Any,
        Behavior::Const(ConstValues::Queue(vec!["a".to_string()])),
    );

    assert_eq!(
        mock.try_record_call_and_find_mock_output(1),
        Ok(Some("a".to_string()))
    );
    match mock.try_record_call_and_find_mock_output(2) {
        Err(message) => assert!(message.starts_with("m has no next value")),
        Ok(_) => panic!("the queue held a single value"),
    }
}

#[test]
fn tuple_matcher_requires_every_position() {
    let mut mock: Mock<
        (usize, String),
        usize,
        (Matcher<usize>, Matcher<String>),
        fn((usize, String)) -> usize,
    > = Mock::new("pair");
    mock.returns_value((Matcher::Eq(3), Matcher::Any), 1);

    assert_eq!(
        mock.record_call_and_find_mock_output((3, "anything".to_string())),
        Some(1)
    );
    match mock.try_record_call_and_find_mock_output((4, "anything".to_string())) {
        Err(message) => assert!(message.contains("mock not found for pair")),
        Ok(_) => panic!("the first position rejects 4"),
    }
}

#[test]
fn empty_tuple_matcher_accepts_no_argument_calls() {
    let mut mock: Mock<(), usize, (), fn(()) -> usize> = Mock::new("unit");
    mock.returns_value((), 9);

    assert_eq!(mock.record_call_and_find_mock_output(()), Some(9));
}

#[test]
fn times_satisfied_checks_the_matched_count() {
    let mut mock: UsizeMock = Mock::new("m");
    mock.returns_value(Matcher::Any, 0);
    mock.record_call_and_find_mock_output(5);
    mock.record_call_and_find_mock_output(5);

    let result = mock.assert_called(Matcher::Eq(5));
    assert!(result.times_satisfied(&Times::Exact(2)));
    assert!(!result.times_satisfied(&Times::Exact(3)));
    assert!(result.checked_times(&Times::Exact(2)).is_ok());
}

#[test]
fn times_mismatch_reports_expected_and_actual() {
    let mut mock: UsizeMock = Mock::new("m");
    mock.returns_value(Matcher::Any, 0);
    mock.record_call_and_find_mock_output(5);

    let result = mock.assert_called(Matcher::Any);
    match result.checked_times(&Times::Exact(2)) {
        Err(message) => {
            assert!(message.starts_with("m was expected to be called 2 times"));
            assert!(message.contains("called 1 times"));
            assert!(message.contains("[5]"));
        }
        Ok(()) => panic!("one call is not two"),
    }
}

#[test]
fn times_bound_combinations() {
    let lower_exclusive = Times::Range((Bound::Excluded(1), Bound::Unbounded));
    assert!(!lower_exclusive.contains(&1));
    assert!(lower_exclusive.contains(&2));

    let upper_inclusive = Times::Range((Bound::Unbounded, Bound::Included(2)));
    assert!(upper_inclusive.contains(&0));
    assert!(upper_inclusive.contains(&2));
    assert!(!upper_inclusive.contains(&3));

    let unbounded = Times::Range((Bound::Unbounded, Bound::Unbounded));
    assert!(unbounded.contains(&0));
    assert!(unbounded.contains(&1000));
}

#[test]
fn times_display_multi_digit() {
    assert_eq!(Times::Exact(0).to_string(), "0");
    assert_eq!(Times::Exact(10).to_string(), "10");
    assert_eq!(Times::Exact(12345).to_string(), "12345");
    assert_eq!(
        Times::Range((Bound::Excluded(7), Bound::Excluded(40))).to_string(),
        "7<x<40"
    );
    assert_eq!(
        Times::Range((Bound::Unbounded, Bound::Unbounded)).to_string(),
        "x"
    );
}

#[test]
fn dispatch_after_defer_keeps_logging() {
    let mut mock: UsizeMock = Mock::new("m");
    mock.calls_real_impl(Matcher::Any);

    assert_eq!(mock.record_call_and_find_mock_output(1), None);
    assert_eq!(mock.record_call_and_find_mock_output(2), None);

    assert_eq!(mock.assert_called(Matcher::Any).logs.0, vec![1, 2]);
}

#[test]
fn behavior_from_wraps_a_callable() {
    let mut mock: StrMock = Mock::new("m");
    let f: fn(usize) -> String = |a: usize| "b".repeat(a);
    let behavior: Behavior<String, fn(usize) -> String> = Behavior::from(f);
    mock.returns_with(Matcher::Any, behavior);

    assert_eq!(mock.record_call_and_find_mock_output(2), Some("bb".to_string()));
}


#[test]
fn predicate_matcher_applies_the_test() {
    let mut mock: Mock<usize, usize, Predicate<usize, fn(&usize) -> bool>, fn(usize) -> usize> =
        Mock::new("m");
    mock.returns_value(Predicate::new(|x: &usize| *x % 2 == 0), 1);

    assert_eq!(mock.record_call_and_find_mock_output(4), Some(1));
    match mock.try_record_call_and_find_mock_output(3) {
        Err(message) => {
            assert!(message.contains("mock not found for m"));
            assert!(message.contains("Predicate(_)"));
        }
        Ok(_) => panic!("3 is odd"),
    }
}
