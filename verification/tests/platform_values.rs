use consent_window::platform::{Availability, Outcome, VerificationResult, WindowHandle};

#[test]
fn availability_codes_are_read() {
    assert_eq!(Availability::from_code(0), Availability::Available);
    assert_eq!(Availability::from_code(1), Availability::DeviceNotPresent);
    assert_eq!(Availability::from_code(2), Availability::NotConfiguredForUser);
    assert_eq!(Availability::from_code(3), Availability::DisabledByPolicy);
    assert_eq!(Availability::from_code(4), Availability::DeviceBusy);
}

#[test]
fn availability_codes_without_meaning_are_unrecognized() {
    assert_eq!(Availability::from_code(5), Availability::Unrecognized);
    assert_eq!(Availability::from_code(-1), Availability::Unrecognized);
    assert_eq!(Availability::from_code(i32::MAX), Availability::Unrecognized);
    assert_eq!(Availability::from_code(i32::MIN), Availability::Unrecognized);
}

#[test]
fn verification_result_codes_are_read() {
    assert_eq!(VerificationResult::from_code(0), VerificationResult::Verified);
    assert_eq!(VerificationResult::from_code(1), VerificationResult::DeviceNotPresent);
    assert_eq!(VerificationResult::from_code(2), VerificationResult::NotConfiguredForUser);
    assert_eq!(VerificationResult::from_code(3), VerificationResult::DisabledByPolicy);
    assert_eq!(VerificationResult::from_code(4), VerificationResult::DeviceBusy);
    assert_eq!(VerificationResult::from_code(5), VerificationResult::RetriesExhausted);
    assert_eq!(VerificationResult::from_code(6), VerificationResult::Canceled);
}

#[test]
fn verification_result_codes_without_meaning_are_unrecognized() {
    assert_eq!(VerificationResult::from_code(7), VerificationResult::Unrecognized);
    assert_eq!(VerificationResult::from_code(-1), VerificationResult::Unrecognized);
    assert_eq!(VerificationResult::from_code(i32::MAX), VerificationResult::Unrecognized);
}

#[test]
fn only_code_zero_is_available_or_verified() {
    for code in -20..20 {
        assert_eq!(Availability::from_code(code) == Availability::Available, code == 0);
        assert_eq!(VerificationResult::from_code(code) == VerificationResult::Verified, code == 0);
    }
}

#[test]
fn rejection_texts_are_exact() {
    assert_eq!(
        Outcome::unavailable(),
        Outcome::Rejected(String::from("verifier is not available"))
    );
    assert_eq!(Outcome::not_verified(), Outcome::Rejected(String::from("failed to verify")));
}

#[test]
fn verified_has_no_description() {
    assert!(Outcome::Verified.is_verified());
    assert_eq!(Outcome::Verified.description(), None);
}

#[test]
fn failures_describe_themselves() {
    let rejected = Outcome::Rejected(String::from("no"));
    let error = Outcome::Error(String::from("0x80004005"));
    assert!(!rejected.is_verified());
    assert!(!error.is_verified());
    assert_eq!(rejected.description(), Some(String::from("no")));
    assert_eq!(error.description(), Some(String::from("0x80004005")));
    assert_eq!(
        Outcome::unavailable().description(),
        Some(String::from("verifier is not available"))
    );
    assert_eq!(Outcome::not_verified().description(), Some(String::from("failed to verify")));
}

#[test]
fn window_handle_is_a_plain_token() {
    let a = WindowHandle { raw: 0x1234 };
    let b = a;
    assert_eq!(a, b);
    assert_eq!(b.raw, 0x1234);
    assert_ne!(a, WindowHandle { raw: 0x1235 });
}
