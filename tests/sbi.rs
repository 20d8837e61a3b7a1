use opensbi_rt::sbi::{
    probe_extension_result, shutdown_result, SBIError, SBIResult, SBIReturn, SbiCall,
    BASE_EXTENSION, LEGACY_SHUTDOWN_EXTENSION, PROBE_EXTENSION_FUNCTION,
};

#[test]
fn each_defined_status_maps_to_its_kind() {
    let expected = [
        (-1, SBIError::Failed),
        (-2, SBIError::NotSupported),
        (-3, SBIError::InvalidParam),
        (-4, SBIError::Denied),
        (-5, SBIError::InvalidAddress),
        (-6, SBIError::AlreadyAvailable),
    ];
    for (status, kind) in expected {
        let ret = SBIReturn::from_raw(status, 0xdead).unwrap();
        assert_eq!(ret.error, kind);
        assert_eq!(ret.into_result(), Err(kind));
        assert_eq!(kind.status(), status);
    }
}

#[test]
fn status_zero_passes_value_through() {
    let ret = SBIReturn::from_raw(0, 0x1234_5678).unwrap();
    assert_eq!(ret.error, SBIError::Success);
    assert_eq!(ret.into_result(), Ok(0x1234_5678));
    assert_eq!(ret.unwrap(), 0x1234_5678);
    assert_eq!(SBIError::from_status(0), Some(SBIError::Success));
}

#[test]
fn undefined_status_is_rejected() {
    for status in [1isize, -7, 42, -100, isize::MIN, isize::MAX] {
        assert_eq!(SBIReturn::from_raw(status, 5), None);
        assert_eq!(SBIError::from_status(status), None);
    }
}

#[test]
fn from_conversion_matches_into_result() {
    let ok = SBIReturn { error: SBIError::Success, value: 7 };
    let err = SBIReturn { error: SBIError::Denied, value: 7 };
    assert_eq!(SBIResult::<usize>::from(ok), Ok(7));
    assert_eq!(SBIResult::<usize>::from(err), Err(SBIError::Denied));
}

#[test]
fn probe_of_absent_extension_is_not_supported() {
    let call = SbiCall::probe_extension(0x4442_4E43);
    assert_eq!(call.ext_id, BASE_EXTENSION);
    assert_eq!(call.func_id, PROBE_EXTENSION_FUNCTION);
    assert_eq!(call.arg0, 0x4442_4E43);
    assert_eq!((call.arg1, call.arg2), (0, 0));
    let reply = SBIReturn::from_raw(0, 0).unwrap();
    assert_eq!(probe_extension_result(reply), Err(SBIError::NotSupported));
}

#[test]
fn probe_of_present_extension_returns_value() {
    let reply = SBIReturn::from_raw(0, 1).unwrap();
    assert_eq!(probe_extension_result(reply), Ok(1));
    let failed = SBIReturn::from_raw(-1, 1).unwrap();
    assert_eq!(probe_extension_result(failed), Err(SBIError::Failed));
}

#[test]
fn shutdown_that_returns_is_an_error() {
    let call = SbiCall::shutdown();
    assert_eq!(call.ext_id, LEGACY_SHUTDOWN_EXTENSION);
    assert_eq!(call.func_id, 0);
    let claimed_success = SBIReturn::from_raw(0, 99).unwrap();
    assert_eq!(shutdown_result(claimed_success), SBIError::Failed);
    let unsupported = SBIReturn::from_raw(-2, 0).unwrap();
    assert_eq!(shutdown_result(unsupported), SBIError::NotSupported);
}
