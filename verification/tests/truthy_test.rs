use matchingram::truthy::IsTruthy;

#[test]
fn test_is_truthy() {
    assert!(Some(0).is_truthy());
    assert!(!None::<i32>.is_truthy());
    assert!(Some(true).is_truthy());
    assert!(!Some(false).is_truthy());
    assert!(true.is_truthy());
    assert!(!false.is_truthy());
}
