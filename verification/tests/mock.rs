use mry::Behavior;
use mry::Logs;
use mry::Matcher;
use mry::Mock;
use mry::MockObject;
use mry::MockObjectReturns;
use mry::MockResult;

type StringMock = Mock<usize, String, Matcher<usize>, fn(usize) -> String>;

#[test]
fn returns_with() {
    let mut mock: StringMock = Mock::new("a");
    mock.returns_with(Matcher::Any, Behavior::Function(|a| "a".repeat(a)));

    assert_eq!(
        mock.record_call_and_find_mock_output(3),
        "aaa".to_string().into()
    );
}

#[test]
fn returns_value() {
    let mut mock: StringMock = Mock::new("a");
    mock.returns_value(Matcher::Any, "a".repeat(3));

    assert_eq!(
        mock.record_call_and_find_mock_output(3),
        "aaa".to_string().into()
    );

    // allows called multiple times
    assert_eq!(
        mock.record_call_and_find_mock_output(3),
        "aaa".to_string().into()
    );
}

#[test]
#[should_panic(expected = "mock not found for a")]
fn returns_with_never() {
    let mut mock: StringMock = Mock::new("a");
    mock.returns_with(Matcher::Never, Behavior::Function(|a| "a".repeat(a)));

    match mock.try_record_call_and_find_mock_output(3) {
        Err(message) => panic!("{}", message),
        Ok(out) => out,
    };
}

#[test]
fn returns_with_always() {
    let mut mock: StringMock = Mock::new("a");
    mock.returns_with(Matcher::Any, Behavior::Function(|a| "a".repeat(a)));

    assert_eq!(
        mock.record_call_and_find_mock_output(3),
        "aaa".to_string().into()
    );
}

#[test]
#[should_panic(expected = "mock not found for a")]
fn returns_never() {
    let mut mock: StringMock = Mock::new("a");
    mock.returns_value(Matcher::Never, "a".repeat(3));

    match mock.try_record_call_and_find_mock_output(3) {
        Err(message) => panic!("{}", message),
        Ok(out) => out,
    };
}

#[test]
fn returns_always() {
    let mut mock: StringMock = Mock::new("a");
    mock.returns_value(Matcher::Any, "a".repeat(3));

    assert_eq!(
        mock.record_call_and_find_mock_output(3),
        "aaa".to_string().into()
    );
}

#[test]
fn calls_real_impl() {
    let mut mock: StringMock = Mock::new("a");
    mock.calls_real_impl(Matcher::Eq(3));

    assert_eq!(mock.record_call_and_find_mock_output(3), None);
}

#[test]
#[should_panic(expected = "mock not found for a")]
fn calls_real_impl_never() {
    let mut mock: StringMock = Mock::new("a");
    mock.calls_real_impl(Matcher::Eq(3));

    match mock.try_record_call_and_find_mock_output(2) {
        Err(message) => panic!("{}", message),
        Ok(out) => out,
    };
}

#[test]
fn assert_called_with() {
    let mut mock: StringMock = Mock::new("a");
    mock.returns_with(Matcher::Any, Behavior::Function(|a| "a".repeat(a)));

    mock.record_call_and_find_mock_output(3);

    mock.assert_called(Matcher::Eq(3));
}

#[test]
#[should_panic(expected = "a was not called")]
fn assert_called_with_not_eq() {
    let mut mock: StringMock = Mock::new("a");
    mock.returns_with(Matcher::Any, Behavior::Function(|a| "a".repeat(a)));

    mock.record_call_and_find_mock_output(3);

    match mock.checked_assert_called(Matcher::Eq(2)) {
        Err(message) => panic!("{}", message),
        Ok(result) => result,
    };
}

#[test]
#[should_panic(expected = "a was not called")]
fn assert_called_with_panics() {
    let mut mock: StringMock = Mock::new("a");
    mock.returns_with(Matcher::Any, Behavior::Function(|a| "a".repeat(a)));

    match mock.checked_assert_called(Matcher::Eq(3)) {
        Err(message) => panic!("{}", message),
        Ok(result) => result,
    };
}

#[test]
#[should_panic(expected = "[1, 2, 2]")]
fn assert_called_with_log() {
    let mut mock: StringMock = Mock::new("a");
    mock.returns_with(Matcher::Any, Behavior::Function(|a| "a".repeat(a)));
    mock.record_call_and_find_mock_output(1);
    mock.record_call_and_find_mock_output(2);
    mock.record_call_and_find_mock_output(2);

    match mock.checked_assert_called(Matcher::Eq(3)) {
        Err(message) => panic!("{}", message),
        Ok(result) => result,
    };
}

#[test]
fn assert_called_returns_logs() {
    let mut mock: StringMock = Mock::new("a");
    mock.returns_with(Matcher::Any, Behavior::Function(|a| "a".repeat(a)));

    mock.record_call_and_find_mock_output(3);
    mock.record_call_and_find_mock_output(3);
    mock.record_call_and_find_mock_output(2);

    assert_eq!(
        mock.assert_called(Matcher::Any),
        MockResult {
            name: "a",
            logs: Logs(vec![3, 3, 2]),
        }
    );
}

#[test]
fn assert_called_returns_logs_matching() {
    let mut mock: StringMock = Mock::new("a");
    mock.returns_with(Matcher::Any, Behavior::Function(|a| "a".repeat(a)));

    mock.record_call_and_find_mock_output(2);
    mock.record_call_and_find_mock_output(3);
    mock.record_call_and_find_mock_output(3);
    mock.record_call_and_find_mock_output(2);

    assert_eq!(
        mock.assert_called(Matcher::Eq(2)),
        MockResult {
            name: "a",
            logs: Logs(vec![2, 2]),
        }
    );
}

#[test]
#[should_panic(
    expected = "[Rule { matcher: Eq(3), behavior: Function(_) }, Rule { matcher: Eq(3), behavior: CallsRealImpl }]"
)]
fn mock_not_found_with_rules() {
    let mut mock: StringMock = Mock::new("a");
    mock.returns_with(Matcher::Eq(3), Behavior::Function(|_| "42".to_string()));
    mock.calls_real_impl(Matcher::Eq(3));

    match mock.try_record_call_and_find_mock_output(2) {
        Err(message) => panic!("{}", message),
        Ok(out) => out,
    };
}
