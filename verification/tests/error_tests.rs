use milow_plugin_sdk::error::{
    as_str, SdkError, ABI_MISMATCH, MODULE_NOT_FOUND, REGISTRATION_FAILED, SUCCESS,
};

#[test]
fn error_codes_roundtrip() {
    for code in 0u32..=16 {
        let e = SdkError::from_code(code);
        assert_eq!(e.code(), code);
        assert_eq!(SdkError::from_code(e.code()), e);
    }
}

#[test]
fn error_unknown_codes_collapse_to_internal() {
    assert_eq!(SdkError::from_code(17), SdkError::InternalError);
    assert_eq!(SdkError::from_code(9999), SdkError::InternalError);
    assert_eq!(SdkError::from_code(u32::MAX), SdkError::InternalError);
}

#[test]
fn error_success_is_the_only_success() {
    assert!(SdkError::Success.is_success());
    assert!(!SdkError::Success.is_error());
    for code in 1u32..=16 {
        let e = SdkError::from_code(code);
        assert!(e.is_error());
        assert!(!e.is_success());
    }
}

#[test]
fn error_messages() {
    assert_eq!(SdkError::Success.as_str(), "Success");
    assert_eq!(SdkError::InvalidArgs.as_str(), "Invalid arguments");
    assert_eq!(SdkError::AbiMismatch.as_str(), "ABI version mismatch");
    assert_eq!(SdkError::RegistrationFailed.as_str(), "Registration failed");
    assert_eq!(SdkError::ModuleNotFound.as_str(), "Module not found");
    assert_eq!(as_str(2), "Not found");
    assert_eq!(as_str(15), "Function not found");
    assert_eq!(as_str(12345), "Internal error");
}

#[test]
fn error_wire_constants_match_the_enum() {
    assert_eq!(SUCCESS, SdkError::Success.code());
    assert_eq!(ABI_MISMATCH, SdkError::AbiMismatch.code());
    assert_eq!(REGISTRATION_FAILED, SdkError::RegistrationFailed.code());
    assert_eq!(MODULE_NOT_FOUND, SdkError::ModuleNotFound.code());
}
