use pylong::{
    Bound, Contents, ConversionError, ExtractionError, PyAny, PyLong, PyLongMethods, Python,
    ToNative,
};

#[test]
fn test_pylong_value() {
    Python::with_gil(|py| {
        let v = 123 as i64;
        let obj = PyLong::new_bound(py, v).unwrap();
        assert_eq!(Ok(v), obj.value(py));

        let v = i64::MIN;
        let obj = PyLong::new_bound(py, v).unwrap();
        assert_eq!(Ok(v), obj.value(py));

        let v = i64::MAX;
        let obj = PyLong::new_bound(py, v).unwrap();
        assert_eq!(Ok(v), obj.value(py));

        let v = i32::MIN;
        let obj = PyLong::new_bound(py, v).unwrap();
        assert_eq!(Ok(v as i64), obj.value(py));

        let v = i32::MAX;
        let obj = PyLong::new_bound(py, v).unwrap();
        assert_eq!(Ok(v as i64), obj.value(py));

        let v = u64::MIN;
        let obj = PyLong::new_bound(py, v).unwrap();
        assert_eq!(Ok(v as i64), obj.value(py));
    });
}

#[test]
fn round_trip_of_native_numbers() {
    Python::with_gil(|py| {
        for v in [0i64, 1, -1, 123, -123, 4_294_967_296, i64::MIN, i64::MAX] {
            let obj = PyLong::new_bound(py, v).unwrap();
            assert_eq!(obj.value(py), Ok(v));
        }
    });
}

#[test]
fn round_trip_of_narrow_signed_numbers() {
    Python::with_gil(|py| {
        let obj = PyLong::new_bound(py, i8::MIN).unwrap();
        assert_eq!(obj.value(py), Ok(-128));
        let obj = PyLong::new_bound(py, i16::MIN).unwrap();
        assert_eq!(obj.value(py), Ok(-32_768));
        let obj = PyLong::new_bound(py, i32::MIN).unwrap();
        assert_eq!(obj.value(py), Ok(-2_147_483_648));
        let obj = PyLong::new_bound(py, i32::MAX).unwrap();
        assert_eq!(obj.value(py), Ok(2_147_483_647));
        let obj = PyLong::new_bound(py, -7isize).unwrap();
        assert_eq!(obj.value(py), Ok(-7));
        let obj = PyLong::new_bound(py, -9_000_000_000i128).unwrap();
        assert_eq!(obj.value(py), Ok(-9_000_000_000));
    });
}

#[test]
fn round_trip_of_unsigned_numbers() {
    Python::with_gil(|py| {
        let obj = PyLong::new_bound(py, u8::MAX).unwrap();
        assert_eq!(obj.value(py), Ok(255));
        let obj = PyLong::new_bound(py, u16::MAX).unwrap();
        assert_eq!(obj.value(py), Ok(65_535));
        let obj = PyLong::new_bound(py, u32::MAX).unwrap();
        assert_eq!(obj.value(py), Ok(4_294_967_295));
        let obj = PyLong::new_bound(py, 9_223_372_036_854_775_807u64).unwrap();
        assert_eq!(obj.value(py), Ok(i64::MAX));
        let obj = PyLong::new_bound(py, 42usize).unwrap();
        assert_eq!(obj.value(py), Ok(42));
        let obj = PyLong::new_bound(py, 9_223_372_036_854_775_807u128).unwrap();
        assert_eq!(obj.value(py), Ok(i64::MAX));
    });
}

#[test]
fn new_object_stands_last_with_one_reference() {
    Python::with_gil(|py| {
        assert_eq!(py.runtime().len(), 0);
        let a = PyLong::new_bound(py, 10i64).unwrap();
        let b = PyLong::new_bound(py, 20i64).unwrap();
        assert_eq!(a.as_addr(), 0);
        assert_eq!(b.as_addr(), 1);
        assert_eq!(py.runtime().len(), 2);
        assert_eq!(py.runtime().ref_count(a.as_addr()), 1);
        assert_eq!(py.runtime().ref_count(b.as_addr()), 1);
        assert_eq!(a.value(py), Ok(10));
        assert_eq!(b.value(py), Ok(20));
    });
}

#[test]
fn new_bound_takes_what_fits() {
    Python::with_gil(|py| {
        let obj: Bound<'_, PyLong> = PyLong::new_bound(py, i64::MAX as u64).unwrap();
        assert_eq!(obj.value(py), Ok(i64::MAX));
        let obj = PyLong::new_bound(py, i64::MIN as i128).unwrap();
        assert_eq!(obj.value(py), Ok(i64::MIN));
        let obj = PyLong::new_bound(py, 5u8).unwrap();
        assert_eq!(obj.value(py), Ok(5));
        assert_eq!(py.runtime().len(), 3);
    });
}

#[test]
fn new_bound_refuses_what_does_not_fit() {
    Python::with_gil(|py| {
        let first = PyLong::new_bound(py, 1i64).unwrap();
        let r = PyLong::new_bound(py, i64::MAX as u64 + 1);
        assert_eq!(r.unwrap_err(), ConversionError);
        let r = PyLong::new_bound(py, u64::MAX);
        assert_eq!(r.unwrap_err(), ConversionError);
        let r = PyLong::new_bound(py, i64::MAX as i128 + 1);
        assert_eq!(r.unwrap_err(), ConversionError);
        let r = PyLong::new_bound(py, i64::MIN as i128 - 1);
        assert_eq!(r.unwrap_err(), ConversionError);
        let r = PyLong::new_bound(py, u128::MAX);
        assert_eq!(r.unwrap_err(), ConversionError);
        assert_eq!(py.runtime().len(), 1);
        assert_eq!(py.runtime().ref_count(first.as_addr()), 1);
        assert_eq!(first.value(py), Ok(1));
    });
}

#[test]
fn conversion_is_lossless_or_refused() {
    assert_eq!((-1i8).to_i64(), Some(-1));
    assert_eq!(i16::MAX.to_i64(), Some(32_767));
    assert_eq!(i32::MIN.to_i64(), Some(-2_147_483_648));
    assert_eq!(i64::MIN.to_i64(), Some(i64::MIN));
    assert_eq!(isize::MAX.to_i64(), Some(isize::MAX as i64));
    assert_eq!(0u8.to_i64(), Some(0));
    assert_eq!(u16::MAX.to_i64(), Some(65_535));
    assert_eq!(u32::MAX.to_i64(), Some(4_294_967_295));
    assert_eq!(9_223_372_036_854_775_807u64.to_i64(), Some(i64::MAX));
    assert_eq!(9_223_372_036_854_775_808u64.to_i64(), None);
    assert_eq!(u64::MAX.to_i64(), None);
    assert_eq!(17usize.to_i64(), Some(17));
    assert_eq!(9_223_372_036_854_775_807u128.to_i64(), Some(i64::MAX));
    assert_eq!(9_223_372_036_854_775_808u128.to_i64(), None);
    assert_eq!(9_223_372_036_854_775_807i128.to_i64(), Some(i64::MAX));
    assert_eq!(9_223_372_036_854_775_808i128.to_i64(), None);
    assert_eq!((-9_223_372_036_854_775_808i128).to_i64(), Some(i64::MIN));
    assert_eq!((-9_223_372_036_854_775_809i128).to_i64(), None);
    assert_eq!(i128::MIN.to_i64(), None);
}

#[test]
fn value_of_integer_wider_than_native() {
    Python::with_gil(|py| {
        let wide = PyAny::new_bound(py, Contents::Long(i64::MAX as i128 + 1));
        let long = wide.downcast_into::<PyLong>(py).unwrap();
        assert_eq!(long.value(py), Err(ExtractionError));

        let wide = PyAny::new_bound(py, Contents::Long(i64::MIN as i128 - 1));
        let long = wide.downcast_into::<PyLong>(py).unwrap();
        assert_eq!(long.value(py), Err(ExtractionError));

        let wide = PyAny::new_bound(py, Contents::Long(1i128 << 64));
        let long = wide.downcast_into::<PyLong>(py).unwrap();
        assert_eq!(long.value(py), Err(ExtractionError));

        let edge = PyAny::new_bound(py, Contents::Long(i64::MAX as i128));
        let long = edge.downcast_into::<PyLong>(py).unwrap();
        assert_eq!(long.value(py), Ok(i64::MAX));

        let minus_one = PyAny::new_bound(py, Contents::Long(-1));
        let long = minus_one.downcast_into::<PyLong>(py).unwrap();
        assert_eq!(long.value(py), Ok(-1));
    });
}

#[test]
fn session_returns_what_the_closure_returns() {
    let v = Python::with_gil(|py| {
        let obj = PyLong::new_bound(py, 77u16).unwrap();
        obj.value(py)
    });
    assert_eq!(v, Ok(77));
    let n = Python::with_gil(|py| py.runtime().len());
    assert_eq!(n, 0);
}
