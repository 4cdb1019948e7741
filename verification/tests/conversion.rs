use async_convert::positive::{GreaterThanZero, GreaterThanZeroError};
use async_convert::{TryFromAsync, TryIntoAsync};

const ERROR_MESSAGE: &str = "GreaterThanZero only accepts value superior than zero!";

#[test]
fn forward_accepts_positive() {
    let r = GreaterThanZero::try_from_async(5);
    assert_eq!(r.unwrap().value(), 5);
}

#[test]
fn forward_rejects_zero() {
    let r = GreaterThanZero::try_from_async(0);
    assert_eq!(r, Err(GreaterThanZeroError));
    assert_eq!(r.unwrap_err().message(), ERROR_MESSAGE);
}

#[test]
fn forward_rejects_negative() {
    let r = GreaterThanZero::try_from_async(-3);
    assert_eq!(r, Err(GreaterThanZeroError));
    assert_eq!(r.unwrap_err().message(), ERROR_MESSAGE);
    assert_eq!(GreaterThanZero::try_from_async(-3), GreaterThanZero::try_from_async(0));
}

#[test]
fn reverse_success_matches_forward() {
    let forward = GreaterThanZero::try_from_async(5);
    let reverse: Result<GreaterThanZero, GreaterThanZeroError> = 5i32.try_into_async();
    assert_eq!(reverse, forward);
    assert_eq!(reverse.unwrap().value(), 5);
}

#[test]
fn reverse_failure_matches_forward() {
    let forward = GreaterThanZero::try_from_async(-1);
    let reverse: Result<GreaterThanZero, GreaterThanZeroError> = (-1i32).try_into_async();
    assert_eq!(reverse, forward);
    assert_eq!(reverse, Err(GreaterThanZeroError));
    assert_eq!(reverse.unwrap_err().message(), ERROR_MESSAGE);
}

#[test]
fn reverse_matches_forward_across_inputs() {
    let inputs = vec![i32::MIN, -100, -3, -1, 0, 1, 2, 5, 100, i32::MAX];
    for v in inputs {
        let forward = GreaterThanZero::try_from_async(v);
        let reverse: Result<GreaterThanZero, GreaterThanZeroError> = v.try_into_async();
        assert_eq!(forward, reverse);
        assert_eq!(forward.is_ok(), v > 0);
        if let Ok(wrapped) = forward {
            assert_eq!(wrapped.value(), v);
        }
    }
}

#[test]
fn error_message_is_fixed() {
    assert_eq!(GreaterThanZeroError.message(), ERROR_MESSAGE);
}
