//! Laws of authorization: whose word a call needs.

use vstd::prelude::*;

use crate::calls::Call;
use crate::error::OnboardingError;
use crate::invocation::InvocationView;
use crate::storage::StorageView;
use crate::types::AddressView;

verus! {

/// Whether only the admin may make the call.
pub open spec fn for_admin(call: Call) -> bool {
    ||| call is UpdateUserRole
    ||| call is VerifyUser
    ||| call is SetEscrowContract
    ||| call is SetVerificationThresholds
    ||| call is ProcessVerificationRequest
}

/// Whether only the reporter may make the call.
pub open spec fn for_reporter(call: Call) -> bool {
    ||| call is UpdateUserMetrics
    ||| call is UpdateReputation
}

/// The address whose authorization a call needs, if it needs any.
pub open spec fn signer(s: StorageView, call: Call) -> Option<AddressView> {
    match call {
        Call::Initialize { admin } => Some(admin),
        Call::OnboardUser { user, .. } => Some(user),
        Call::RequestVerification { user } => Some(user),
        _ => match s.config {
            Some(config) => if for_admin(call) {
                Some(config.platform_admin)
            } else if for_reporter(call) {
                Some(config.reporter())
            } else {
                None
            },
            None => None,
        },
    }
}

/// A call without the authorization it needs is refused as unauthorized.
pub proof fn law_unauthorized_calls_are_refused(i: InvocationView, call: Call)
    requires
        signer(i.storage, call) matches Some(a) && !i.signed_by(a),
    ensures
        i.refuses(call, OnboardingError::Unauthorized),
{
}

/// A call is refused as unauthorized only if it lacks the authorization it needs.
pub proof fn law_authorized_calls_are_not_refused_as_such(i: InvocationView, call: Call)
    requires
        i.refuses(call, OnboardingError::Unauthorized),
    ensures
        signer(i.storage, call) matches Some(a) && !i.signed_by(a),
{
}

/// Before initialization the calls of the admin and of the reporter are refused,
/// as are `get_config` and `auto_verify_user`.
pub proof fn law_calls_wait_for_initialization(i: InvocationView, call: Call)
    requires
        i.storage.config is None,
        for_admin(call) || for_reporter(call) || call is GetConfig || call is AutoVerifyUser,
    ensures
        i.refuses(call, OnboardingError::NotInitialized),
{
}

/// Nobody can onboard before initialization.
pub proof fn law_onboarding_waits_for_initialization(i: InvocationView, call: Call)
    requires
        i.storage.config is None,
        call is OnboardUser,
    ensures
        i.step(call) is Err,
{
}

/// A refused call changes nothing.
pub proof fn law_refused_calls_change_nothing(i: InvocationView, call: Call)
    requires
        i.step(call) is Err,
    ensures
        i.after(i.step(call)) == i,
{
}

/// The registered escrow contract displaces the admin as the reporter: once it is
/// set, a report that only the admin has authorized is refused.
pub proof fn law_escrow_contract_displaces_admin(
    i: InvocationView,
    contract: AddressView,
    j: InvocationView,
    call: Call,
)
    requires
        i.set_escrow_contract(contract) is Ok,
        j.storage == i.set_escrow_contract(contract)->Ok_0.storage,
        for_reporter(call),
    ensures
        !j.signed_by(contract) ==> j.refuses(call, OnboardingError::Unauthorized),
        j.signed_by(contract) ==> j.step(call) is Ok,
{
}

/// The configuration changes only by an initialization or by the admin.
pub proof fn law_config_changes_only_by_admin(i: InvocationView, call: Call)
    requires
        i.after(i.step(call)).storage.config != i.storage.config,
    ensures
        ({
            ||| call matches Call::Initialize { admin } && i.signed_by(admin)
            ||| i.admin_refusal() is None && (call is SetEscrowContract
                || call is SetVerificationThresholds)
        }),
{
}

/// The admin changes only by an initialization.
pub proof fn law_admin_is_set_by_initialization(i: InvocationView, call: Call)
    requires
        i.storage.config is Some,
        !(call is Initialize),
    ensures
        ({
            let after = i.after(i.step(call)).storage.config;
            &&& after is Some
            &&& after->0.platform_admin == i.storage.config->0.platform_admin
        }),
{
}

} // verus!
