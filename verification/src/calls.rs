//! All entry points as one transition, for the laws that hold of every call.

use vstd::prelude::*;

use crate::error::OnboardingError;
use crate::invocation::InvocationView;
use crate::model::Outcome;
use crate::storage::{DataKeyView, StorageView};
use crate::types::{
    AddressView, OnboardingConfigView, UserMetrics, UserProfileView, UserRole,
    VerificationEntryView,
};
use crate::username::normalized_name;

verus! {

/// A call of an entry point, with its arguments.
pub enum Call {
    Initialize { admin: AddressView },
    OnboardUser { user: AddressView, username: Seq<u8>, role: UserRole },
    GetUser { user: AddressView },
    GetUserByUsername { username: Seq<u8> },
    IsUsernameTaken { username: Seq<u8> },
    IsOnboarded { user: AddressView },
    GetUserRole { user: AddressView },
    UpdateUserRole { user: AddressView, new_role: UserRole },
    VerifyUser { user: AddressView },
    GetConfig,
    HasRole { user: AddressView, role: UserRole },
    IsVerified { user: AddressView },
    SetEscrowContract { contract_address: AddressView },
    SetVerificationThresholds { min_escrow_count: u32, min_volume: i128 },
    GetUserMetrics { user: AddressView },
    UpdateUserMetrics { user: AddressView, escrow_count_delta: u32, volume_delta: i128 },
    AutoVerifyUser { user: AddressView },
    RequestVerification { user: AddressView },
    ProcessVerificationRequest { user: AddressView, approve: bool },
    GetVerificationHistory { user: AddressView },
    GetVerificationQueue,
    UpdateReputation { user: AddressView, successful_delta: u32, disputed_delta: u32 },
    GetUserReputation { user: AddressView },
}

/// Whether a call looks at the entry under `key`.
pub open spec fn reads(s: StorageView, call: Call, key: DataKeyView) -> bool {
    match call {
        Call::Initialize { .. } => false,
        Call::OnboardUser { user, username, .. } => {
            ||| key == DataKeyView::Config
            ||| key == DataKeyView::UserProfile(user)
            ||| key == DataKeyView::Username(normalized_name(username))
        },
        Call::GetUser { user } => key == DataKeyView::UserProfile(user),
        Call::GetUserByUsername { username } => {
            let name = normalized_name(username);
            ||| key == DataKeyView::Username(name)
            ||| s.usernames.contains_key(name) && key == DataKeyView::UserProfile(
                s.usernames[name],
            )
        },
        Call::IsUsernameTaken { username } => key == DataKeyView::Username(
            normalized_name(username),
        ),
        Call::IsOnboarded { user } => key == DataKeyView::UserProfile(user),
        Call::GetUserRole { user } => key == DataKeyView::UserProfile(user),
        Call::UpdateUserRole { user, .. } => key == DataKeyView::Config || key
            == DataKeyView::UserProfile(user),
        Call::VerifyUser { user } => key == DataKeyView::Config || key == DataKeyView::UserProfile(
            user,
        ),
        Call::GetConfig => key == DataKeyView::Config,
        Call::HasRole { user, .. } => key == DataKeyView::UserProfile(user),
        Call::IsVerified { user } => key == DataKeyView::UserProfile(user),
        Call::SetEscrowContract { .. } => key == DataKeyView::Config,
        Call::SetVerificationThresholds { .. } => key == DataKeyView::Config,
        Call::GetUserMetrics { user } => key == DataKeyView::UserMetrics(user),
        Call::UpdateUserMetrics { user, .. } => {
            ||| key == DataKeyView::Config
            ||| key == DataKeyView::UserMetrics(user)
            ||| key == DataKeyView::UserProfile(user)
            ||| key == DataKeyView::VerificationHistory(user)
        },
        Call::AutoVerifyUser { user } => {
            ||| key == DataKeyView::Config
            ||| key == DataKeyView::UserProfile(user)
            ||| key == DataKeyView::UserMetrics(user)
            ||| key == DataKeyView::VerificationHistory(user)
        },
        Call::RequestVerification { user } => {
            ||| key == DataKeyView::UserProfile(user)
            ||| key == DataKeyView::VerificationQueue
            ||| key == DataKeyView::VerificationHistory(user)
        },
        Call::ProcessVerificationRequest { user, .. } => {
            ||| key == DataKeyView::Config
            ||| key == DataKeyView::UserProfile(user)
            ||| key == DataKeyView::VerificationQueue
            ||| key == DataKeyView::VerificationHistory(user)
        },
        Call::GetVerificationHistory { user } => key == DataKeyView::VerificationHistory(user),
        Call::GetVerificationQueue => key == DataKeyView::VerificationQueue,
        Call::UpdateReputation { user, .. } => key == DataKeyView::Config || key
            == DataKeyView::UserProfile(user),
        Call::GetUserReputation { user } => key == DataKeyView::UserProfile(user),
    }
}

/// Whether a call looks at the entry under `key`, or writes it.
pub open spec fn touches(s: StorageView, call: Call, key: DataKeyView) -> bool {
    match call {
        Call::Initialize { admin } => {
            ||| key == DataKeyView::Config
            ||| key == DataKeyView::UserProfile(admin)
            ||| key == DataKeyView::Username("admin"@)
        },
        _ => reads(s, call, key),
    }
}

/// The answer to a call.
pub enum Answer {
    Nothing,
    Flag(bool),
    Role(UserRole),
    Profile(UserProfileView),
    Config(OnboardingConfigView),
    Metrics(UserMetrics),
    History(Seq<VerificationEntryView>),
    Queue(Seq<AddressView>),
    Reputation(u32, u32),
}

/// The outcome of a call that cannot be refused.
pub open spec fn sure<T>(outcome: Outcome<T>, answer: Answer) -> Result<
    Outcome<Answer>,
    OnboardingError,
> {
    Ok(Outcome { value: answer, storage: outcome.storage, effects: outcome.effects })
}

/// The outcome of a call that answers nothing, if it is accepted.
pub open spec fn tried(outcome: Result<Outcome<()>, OnboardingError>) -> Result<
    Outcome<Answer>,
    OnboardingError,
> {
    match outcome {
        Ok(o) => sure(o, Answer::Nothing),
        Err(error) => Err(error),
    }
}

/// The outcome of a call that answers a flag, if it is accepted.
pub open spec fn flagged(outcome: Result<Outcome<bool>, OnboardingError>) -> Result<
    Outcome<Answer>,
    OnboardingError,
> {
    match outcome {
        Ok(o) => sure(o, Answer::Flag(o.value)),
        Err(error) => Err(error),
    }
}

/// The outcome of a call that answers a profile, if it is accepted.
pub open spec fn profiled(outcome: Result<Outcome<UserProfileView>, OnboardingError>) -> Result<
    Outcome<Answer>,
    OnboardingError,
> {
    match outcome {
        Ok(o) => sure(o, Answer::Profile(o.value)),
        Err(error) => Err(error),
    }
}

/// The outcome of a call that answers the configuration, if it is accepted.
pub open spec fn configured(
    outcome: Result<Outcome<OnboardingConfigView>, OnboardingError>,
) -> Result<Outcome<Answer>, OnboardingError> {
    match outcome {
        Ok(o) => sure(o, Answer::Config(o.value)),
        Err(error) => Err(error),
    }
}

impl InvocationView {
    /// Whether a call is refused, and why.
    pub open spec fn refuses(self, call: Call, error: OnboardingError) -> bool {
        self.step(call) matches Err(e) && e == error
    }

    /// What a call does.
    pub open spec fn step(self, call: Call) -> Result<Outcome<Answer>, OnboardingError> {
        match call {
            Call::Initialize { admin } => configured(self.initialize(admin)),
            Call::OnboardUser { user, username, role } => profiled(
                self.onboard_user(user, username, role),
            ),
            Call::GetUser { user } => profiled(self.get_user(user)),
            Call::GetUserByUsername { username } => profiled(self.get_user_by_username(username)),
            Call::IsUsernameTaken { username } => flagged(self.is_username_taken(username)),
            Call::IsOnboarded { user } => {
                let o = self.is_onboarded(user);
                sure(o, Answer::Flag(o.value))
            },
            Call::GetUserRole { user } => {
                let o = self.get_user_role(user);
                sure(o, Answer::Role(o.value))
            },
            Call::UpdateUserRole { user, new_role } => profiled(
                self.update_user_role(user, new_role),
            ),
            Call::VerifyUser { user } => profiled(self.verify_user(user)),
            Call::GetConfig => configured(self.get_config()),
            Call::HasRole { user, role } => {
                let o = self.has_role(user, role);
                sure(o, Answer::Flag(o.value))
            },
            Call::IsVerified { user } => {
                let o = self.is_verified(user);
                sure(o, Answer::Flag(o.value))
            },
            Call::SetEscrowContract { contract_address } => tried(
                self.set_escrow_contract(contract_address),
            ),
            Call::SetVerificationThresholds { min_escrow_count, min_volume } => tried(
                self.set_verification_thresholds(min_escrow_count, min_volume),
            ),
            Call::GetUserMetrics { user } => {
                let o = self.get_user_metrics(user);
                sure(o, Answer::Metrics(o.value))
            },
            Call::UpdateUserMetrics { user, escrow_count_delta, volume_delta } => tried(
                self.update_user_metrics(user, escrow_count_delta, volume_delta),
            ),
            Call::AutoVerifyUser { user } => flagged(self.auto_verify_user(user)),
            Call::RequestVerification { user } => tried(self.request_verification(user)),
            Call::ProcessVerificationRequest { user, approve } => tried(
                self.process_verification_request(user, approve),
            ),
            Call::GetVerificationHistory { user } => {
                let o = self.get_verification_history(user);
                sure(o, Answer::History(o.value))
            },
            Call::GetVerificationQueue => {
                let o = self.get_verification_queue();
                sure(o, Answer::Queue(o.value))
            },
            Call::UpdateReputation { user, successful_delta, disputed_delta } => tried(
                self.update_reputation(user, successful_delta, disputed_delta),
            ),
            Call::GetUserReputation { user } => {
                let o = self.get_user_reputation(user);
                sure(o, Answer::Reputation(o.value.0, o.value.1))
            },
        }
    }
}

} // verus!
