use pam::constants::PamResultCode;

#[test]
fn result_codes_have_the_framework_numbers() {
    assert_eq!(PamResultCode::PAM_SUCCESS.code(), 0);
    assert_eq!(PamResultCode::PAM_PERM_DENIED.code(), 6);
    assert_eq!(PamResultCode::PAM_AUTH_ERR.code(), 7);
    assert_eq!(PamResultCode::PAM_NO_MODULE_DATA.code(), 18);
    assert_eq!(PamResultCode::PAM_CONV_ERR.code(), 19);
    assert_eq!(PamResultCode::PAM_TRY_AGAIN.code(), 24);
    assert_eq!(PamResultCode::PAM_IGNORE.code(), 25);
    assert_eq!(PamResultCode::PAM_BAD_ITEM.code(), 29);
    assert_eq!(PamResultCode::PAM_INCOMPLETE.code(), 31);
}

#[test]
fn every_number_in_range_round_trips() {
    for n in 0..32 {
        let code = PamResultCode::from_code(n).unwrap();
        assert_eq!(code.code(), n);
    }
}

#[test]
fn numbers_out_of_range_are_no_code() {
    assert_eq!(PamResultCode::from_code(-1), None);
    assert_eq!(PamResultCode::from_code(32), None);
    assert_eq!(PamResultCode::from_code(i32::MAX), None);
}
