use hal_bridge::errors::check_error;
use hal_bridge::errors::DeviceError;
use hal_bridge::errors::ErrorKind;
use hal_bridge::errors::ENOSYS_CODE;
use hal_bridge::errors::ENOTSUP_CODE;

#[test]
fn zero_and_positive_statuses_are_success() {
    assert_eq!(check_error(0), Ok(()));
    assert_eq!(check_error(1), Ok(()));
    assert_eq!(check_error(i32::MAX), Ok(()));
}

#[test]
fn negative_status_carries_its_magnitude() {
    assert_eq!(check_error(-1), Err(DeviceError { code: 1 }));
    assert_eq!(check_error(-88), Err(DeviceError { code: 88 }));
    assert_eq!(check_error(i32::MIN), Err(DeviceError { code: 2147483648 }));
}

#[test]
fn unimplemented_call_is_classified_unsupported() {
    let err = check_error(-(ENOSYS_CODE as i32)).unwrap_err();
    assert_eq!(err.kind(), ErrorKind::Unsupported);
}

#[test]
fn absent_feature_is_classified_not_found() {
    let err = check_error(-(ENOTSUP_CODE as i32)).unwrap_err();
    assert_eq!(err.kind(), ErrorKind::NotFound);
}

#[test]
fn any_other_code_is_classified_other() {
    assert_eq!(DeviceError { code: 5 }.kind(), ErrorKind::Other);
    assert_eq!(DeviceError { code: 0 }.kind(), ErrorKind::Other);
    assert_eq!(DeviceError { code: u32::MAX }.kind(), ErrorKind::Other);
}
