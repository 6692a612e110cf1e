//! Plain values that stand for what the platform hands over: the window
//! handle, the two answers of the identity verifier, and the outcome of one
//! verification attempt.

use vstd::prelude::*;

verus! {

/// Token that addresses the top-level window. It is only ever passed on: to
/// parent a dialog or the verification prompt, and to address a notification.
#[derive(Clone, Copy, Debug, PartialEq, Eq, Structural)]
pub struct WindowHandle {
    pub raw: isize,
}

/// Readiness of the platform's identity verifier.
#[derive(Clone, Copy, Debug, PartialEq, Eq, Structural)]
pub enum Availability {
    Available,
    DeviceNotPresent,
    NotConfiguredForUser,
    DisabledByPolicy,
    DeviceBusy,
    /// A code that the platform documents no meaning for.
    Unrecognized,
}

/// Answer of the platform to one identity challenge.
#[derive(Clone, Copy, Debug, PartialEq, Eq, Structural)]
pub enum VerificationResult {
    Verified,
    DeviceNotPresent,
    NotConfiguredForUser,
    DisabledByPolicy,
    DeviceBusy,
    RetriesExhausted,
    Canceled,
    /// A code that the platform documents no meaning for.
    Unrecognized,
}

/// The availability that the platform's numeric code stands for.
pub open spec fn availability_of(code: i32) -> Availability {
    if code == 0 {
        Availability::Available
    } else if code == 1 {
        Availability::DeviceNotPresent
    } else if code == 2 {
        Availability::NotConfiguredForUser
    } else if code == 3 {
        Availability::DisabledByPolicy
    } else if code == 4 {
        Availability::DeviceBusy
    } else {
        Availability::Unrecognized
    }
}

/// The verification result that the platform's numeric code stands for.
pub open spec fn verification_result_of(code: i32) -> VerificationResult {
    if code == 0 {
        VerificationResult::Verified
    } else if code == 1 {
        VerificationResult::DeviceNotPresent
    } else if code == 2 {
        VerificationResult::NotConfiguredForUser
    } else if code == 3 {
        VerificationResult::DisabledByPolicy
    } else if code == 4 {
        VerificationResult::DeviceBusy
    } else if code == 5 {
        VerificationResult::RetriesExhausted
    } else if code == 6 {
        VerificationResult::Canceled
    } else {
        VerificationResult::Unrecognized
    }
}

impl Availability {
    /// Reads the platform's numeric availability code.
    pub fn from_code(code: i32) -> (a: Availability)
        ensures
            a == availability_of(code),
            a == Availability::Available <==> code == 0,
    {
        match code {
            0 => Availability::Available,
            1 => Availability::DeviceNotPresent,
            2 => Availability::NotConfiguredForUser,
            3 => Availability::DisabledByPolicy,
            4 => Availability::DeviceBusy,
            _ => Availability::Unrecognized,
        }
    }
}

impl VerificationResult {
    /// Reads the platform's numeric verification result code.
    pub fn from_code(code: i32) -> (v: VerificationResult)
        ensures
            v == verification_result_of(code),
            v == VerificationResult::Verified <==> code == 0,
    {
        match code {
            0 => VerificationResult::Verified,
            1 => VerificationResult::DeviceNotPresent,
            2 => VerificationResult::NotConfiguredForUser,
            3 => VerificationResult::DisabledByPolicy,
            4 => VerificationResult::DeviceBusy,
            5 => VerificationResult::RetriesExhausted,
            6 => VerificationResult::Canceled,
            _ => VerificationResult::Unrecognized,
        }
    }
}

/// Text of the rejection that follows a verifier that is not available.
pub open spec fn unavailable_text() -> Seq<char> {
    "verifier is not available"@
}

/// Text of the rejection that follows a challenge that the user did not pass.
pub open spec fn not_verified_text() -> Seq<char> {
    "failed to verify"@
}

/// Result of one verification attempt.
#[derive(Clone, Debug, PartialEq, Eq)]
pub enum Outcome {
    /// The platform confirmed the user's identity.
    Verified,
    /// The verifier is not available, or it answered anything but "verified".
    Rejected(String),
    /// A platform call failed before a definitive answer; holds its description.
    Error(String),
}

/// Mathematical value of an [`Outcome`].
pub enum OutcomeView {
    Verified,
    Rejected(Seq<char>),
    Error(Seq<char>),
}

impl View for Outcome {
    type V = OutcomeView;

    open spec fn view(&self) -> OutcomeView {
        match *self {
            Outcome::Verified => OutcomeView::Verified,
            Outcome::Rejected(text) => OutcomeView::Rejected(text@),
            Outcome::Error(text) => OutcomeView::Error(text@),
        }
    }
}

impl OutcomeView {
    /// True for every outcome but `Verified`.
    pub open spec fn is_failure(self) -> bool {
        !(self is Verified)
    }

    /// The text that describes a failure; empty for `Verified`.
    pub open spec fn description(self) -> Seq<char> {
        match self {
            OutcomeView::Verified => Seq::empty(),
            OutcomeView::Rejected(text) => text,
            OutcomeView::Error(text) => text,
        }
    }
}

impl Outcome {
    /// The rejection for a verifier that is not available.
    pub fn unavailable() -> (o: Outcome)
        ensures
            o@ == OutcomeView::Rejected(unavailable_text()),
    {
        Outcome::Rejected("verifier is not available".to_owned())
    }

    /// The rejection for a challenge that the user did not pass.
    pub fn not_verified() -> (o: Outcome)
        ensures
            o@ == OutcomeView::Rejected(not_verified_text()),
    {
        Outcome::Rejected("failed to verify".to_owned())
    }

    /// Tells whether the user was verified.
    pub fn is_verified(&self) -> (b: bool)
        ensures
            b == (self@ is Verified),
            b == !self@.is_failure(),
    {
        match self {
            Outcome::Verified => true,
            _ => false,
        }
    }

    /// The text that describes a failure, or `None` for `Verified`.
    pub fn description(&self) -> (text: Option<String>)
        ensures
            text is None <==> self@ is Verified,
            text matches Some(t) ==> t@ == self@.description(),
    {
        match self {
            Outcome::Verified => None,
            Outcome::Rejected(t) => Some(t.clone()),
            Outcome::Error(t) => Some(t.clone()),
        }
    }
}

} // verus!
