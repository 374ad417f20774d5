use fan_controller::plugin::Error;
use fan_controller::plugin::FanctlFFIError;
use fan_controller::plugin::SimpleService;
use fan_controller::plugin::ffi_error_from;

#[test]
fn service_construction_keeps_value() {
    let s = SimpleService::new_with(7).unwrap();
    assert_eq!(s.some_value, 7);
    assert_eq!(s.just_return_value(), 7);
}

#[test]
fn maybe_fails_echoes_argument() {
    let s = SimpleService::new_with(0).unwrap();
    assert!(matches!(s.maybe_fails(3), Ok(3)));
    assert!(matches!(s.maybe_fails(u32::MAX), Ok(u32::MAX)));
}

#[test]
fn service_error_maps_to_other_error() {
    assert_eq!(ffi_error_from(Error::Bad), FanctlFFIError::OtherError);
}
