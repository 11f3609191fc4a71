use error_ext::errors::{EitherError, ErrorWrapper, OptionIsNoneError};
use error_ext::{IgnoreResult, SomeOptionExt, TransposeError, WrapError};

fn string_err() -> Result<(), i32> {
    Err(123)
}

fn generic_err() -> Result<(), ErrorWrapper<i32>> {
    string_err().wrapped()?;
    Ok(())
}

#[test]
fn test_ignore() {
    assert_eq!(Err::<u32, u32>(23).ignore(), ());
}

#[test]
fn test_option_error() {
    let mut value: Option<i32> = Some(12);
    assert_eq!(value.some(), Ok(12));
    value = None;
    assert_eq!(value.some(), Err(OptionIsNoneError));
    assert_eq!(value.some().ok(), None);
}

#[test]
fn test_transpose_error() {
    let value: Result<Result<i32, i32>, i32> = Ok(Ok(12));
    assert_eq!(value.transpose_err(), Ok(12));

    let value: Result<Option<i32>, i32> = Ok(Some(12));
    assert_eq!(value.transpose_err(), Ok(12));
}

#[test]
fn test_wrap_error() {
    assert_eq!(
        format!("{:?}", generic_err().map_err(ErrorWrapper::into_inner)),
        "Err(123)"
    )
}

#[test]
fn ignore_ok_yields_unit() {
    assert_eq!(Ok::<u32, u32>(7).ignore(), ());
}

#[test]
fn transpose_nested_tags_each_level() {
    let inner: Result<Result<i32, &str>, u8> = Ok(Err("inner"));
    assert_eq!(inner.transpose_err(), Err(EitherError::Right("inner")));
    let outer: Result<Result<i32, &str>, u8> = Err(5);
    assert_eq!(outer.transpose_err(), Err(EitherError::Left(5)));
}

#[test]
fn transpose_optional_tags_absence_right() {
    let absent: Result<Option<i32>, u8> = Ok(None);
    assert_eq!(absent.transpose_err(), Err(EitherError::Right(OptionIsNoneError)));
    let failed: Result<Option<i32>, u8> = Err(9);
    assert_eq!(failed.transpose_err(), Err(EitherError::Left(9)));
}

#[test]
fn wrap_round_trip_recovers_error() {
    let original: Result<u8, String> = Err(String::from("disk full"));
    let wrapped = original.clone().wrapped();
    assert_eq!(wrapped.clone().map_err(ErrorWrapper::into_inner), original);
    assert_eq!(wrapped.unwrap_err().get(), "disk full");
    assert_eq!(Ok::<u8, u8>(4).wrapped(), Ok(4));
}

#[test]
fn wrapper_compares_as_inner() {
    assert!(ErrorWrapper(3) < ErrorWrapper(4));
    assert_eq!(ErrorWrapper(3), ErrorWrapper(3));
    let mut w = ErrorWrapper(1);
    *w.get_mut() = 2;
    assert_eq!(w.into_inner(), 2);
}

#[test]
fn absence_error_is_ordered_and_described() {
    assert!(OptionIsNoneError <= OptionIsNoneError);
    assert_eq!(OptionIsNoneError.message(), "an Option<T> was `None`");
}

#[test]
fn either_source_exposes_payload() {
    let left: EitherError<u8, &str> = EitherError::Left(1);
    assert_eq!(left.source(), EitherError::Left(&1));
    let right: EitherError<u8, &str> = EitherError::Right("r");
    assert_eq!(right.source(), EitherError::Right(&"r"));
}
