//! The reasons for which a call is refused.

use vstd::prelude::*;

verus! {

/// Why a call was refused. A refused call leaves no trace: neither storage nor
/// the list of effects changes.
#[derive(Copy, Clone, Debug, PartialEq, Eq, Structural)]
pub enum OnboardingError {
    /// The address whose authorization the call needs has not given it.
    Unauthorized,
    /// `initialize` has not been called yet.
    NotInitialized,
    /// Users onboard themselves as buyers or artisans only.
    InvalidRole,
    /// The normalized username is shorter than the configured minimum.
    UsernameTooShort,
    /// The username is longer than the input limit, or its normalized form is
    /// longer than the configured maximum.
    UsernameTooLong,
    /// The address already has a profile.
    AlreadyOnboarded,
    /// Another address owns the normalized username.
    UsernameTaken,
    /// The address has no profile.
    UserNotFound,
    /// Nobody owns the normalized username.
    UsernameNotFound,
}

impl OnboardingError {
    /// What the host reports of a call that was refused.
    pub open spec fn text(self) -> Seq<char> {
        match self {
            OnboardingError::Unauthorized => "Not authorized"@,
            OnboardingError::NotInitialized => "Contract not initialized"@,
            OnboardingError::InvalidRole => "Invalid role: can only onboard as Buyer or Artisan"@,
            OnboardingError::UsernameTooShort => "Username too short"@,
            OnboardingError::UsernameTooLong => "Username too long"@,
            OnboardingError::AlreadyOnboarded => "User already onboarded"@,
            OnboardingError::UsernameTaken => "Username already taken"@,
            OnboardingError::UserNotFound => "User not found"@,
            OnboardingError::UsernameNotFound => "Username not found"@,
        }
    }

    /// The text of the error.
    pub fn message(&self) -> (r: &'static str)
        ensures
            r@ == self.text(),
    {
        match self {
            OnboardingError::Unauthorized => "Not authorized",
            OnboardingError::NotInitialized => "Contract not initialized",
            OnboardingError::InvalidRole => "Invalid role: can only onboard as Buyer or Artisan",
            OnboardingError::UsernameTooShort => "Username too short",
            OnboardingError::UsernameTooLong => "Username too long",
            OnboardingError::AlreadyOnboarded => "User already onboarded",
            OnboardingError::UsernameTaken => "Username already taken",
            OnboardingError::UserNotFound => "User not found",
            OnboardingError::UsernameNotFound => "Username not found",
        }
    }
}

} // verus!
