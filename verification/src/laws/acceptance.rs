//! Laws of acceptance: exactly when each call is accepted, and for which reason it
//! is refused otherwise. Nothing but what these laws name has a say.

use vstd::prelude::*;
use vstd::utf8::encode_utf8;

use crate::error::OnboardingError;
use crate::invocation::InvocationView;
use crate::model::Outcome;
use crate::types::{AddressView, UserRole};
use crate::username::normalized_name;

verus! {

/// Whether a call was refused for the reason `error`.
pub open spec fn refused<T>(
    outcome: Result<Outcome<T>, OnboardingError>,
    error: OnboardingError,
) -> bool {
    outcome matches Err(e) && e == error
}

/// `initialize` is accepted exactly when the new admin has signed.
pub proof fn law_initialization_is_accepted(i: InvocationView, admin: AddressView)
    ensures
        i.initialize(admin) is Ok <==> i.signers.contains(admin),
        refused(i.initialize(admin), OnboardingError::Unauthorized) <==> !i.signers.contains(admin),
{
}

/// `onboard_user` is accepted exactly when the user has signed, asks to be a buyer
/// or an artisan, the contract is initialized, the username has at most 256 bytes,
/// its normalized form has a length within the configured bounds and no owner, and
/// the user has no profile yet. The first of these that fails is the reason.
pub proof fn law_onboarding_is_accepted(
    i: InvocationView,
    user: AddressView,
    username: Seq<u8>,
    role: UserRole,
)
    ensures
        ({
            let r = i.onboard_user(user, username, role);
            let name = normalized_name(username);
            let length = encode_utf8(name).len();
            let may_ask = i.signers.contains(user) && (role is Buyer || role is Artisan)
                && i.storage.config is Some;
            let config = i.storage.config->0;
            let fits = username.len() <= 256 && config.min_username_length <= length
                <= config.max_username_length;
            &&& r is Ok <==> may_ask && fits && !i.storage.profiles.contains_key(user)
                && !i.storage.usernames.contains_key(name)
            &&& refused(r, OnboardingError::Unauthorized) <==> !i.signers.contains(user)
            &&& refused(r, OnboardingError::InvalidRole) <==> i.signers.contains(user) && (
            role is NoRole || role is Admin)
            &&& refused(r, OnboardingError::NotInitialized) <==> i.signers.contains(user) && (
            role is Buyer || role is Artisan) && i.storage.config is None
            &&& refused(r, OnboardingError::UsernameTooLong) <==> may_ask && (username.len() > 256
                || config.min_username_length <= length && config.max_username_length < length)
            &&& refused(r, OnboardingError::UsernameTooShort) <==> may_ask && username.len() <= 256
                && length < config.min_username_length
            &&& refused(r, OnboardingError::AlreadyOnboarded) <==> may_ask && fits
                && i.storage.profiles.contains_key(user)
            &&& refused(r, OnboardingError::UsernameTaken) <==> may_ask && fits
                && !i.storage.profiles.contains_key(user) && i.storage.usernames.contains_key(name)
        }),
{
}

/// `get_user` is accepted exactly for addresses that have a profile.
pub proof fn law_lookup_is_accepted(i: InvocationView, user: AddressView)
    ensures
        i.get_user(user) is Ok <==> i.storage.profiles.contains_key(user),
        refused(i.get_user(user), OnboardingError::UserNotFound)
            <==> !i.storage.profiles.contains_key(user),
{
}

/// `get_user_by_username` is accepted exactly for usernames of at most 256 bytes
/// whose normalized form has an owner with a profile.
pub proof fn law_lookup_by_username_is_accepted(i: InvocationView, username: Seq<u8>)
    ensures
        ({
            let r = i.get_user_by_username(username);
            let name = normalized_name(username);
            let owned = i.storage.usernames.contains_key(name);
            let known = i.storage.profiles.contains_key(i.storage.usernames[name]);
            &&& r is Ok <==> username.len() <= 256 && owned && known
            &&& refused(r, OnboardingError::UsernameTooLong) <==> username.len() > 256
            &&& refused(r, OnboardingError::UsernameNotFound) <==> username.len() <= 256 && !owned
            &&& refused(r, OnboardingError::UserNotFound) <==> username.len() <= 256 && owned
                && !known
        }),
{
}

/// `is_username_taken` is accepted exactly for usernames of at most 256 bytes.
pub proof fn law_username_query_is_accepted(i: InvocationView, username: Seq<u8>)
    ensures
        i.is_username_taken(username) is Ok <==> username.len() <= 256,
        refused(i.is_username_taken(username), OnboardingError::UsernameTooLong)
            <==> username.len() > 256,
{
}

/// `get_config` is accepted exactly once the contract is initialized.
pub proof fn law_config_query_is_accepted(i: InvocationView)
    ensures
        i.get_config() is Ok <==> i.storage.config is Some,
        refused(i.get_config(), OnboardingError::NotInitialized) <==> i.storage.config is None,
{
}

/// `update_user_role` is accepted exactly when the contract is initialized, the
/// admin has signed and the user has a profile, whichever role is given.
pub proof fn law_role_update_is_accepted(i: InvocationView, user: AddressView, new_role: UserRole)
    ensures
        ({
            let r = i.update_user_role(user, new_role);
            let ready = i.storage.config is Some;
            let signed = i.signers.contains(i.storage.config->0.platform_admin);
            let known = i.storage.profiles.contains_key(user);
            &&& r is Ok <==> ready && signed && known
            &&& refused(r, OnboardingError::NotInitialized) <==> !ready
            &&& refused(r, OnboardingError::Unauthorized) <==> ready && !signed
            &&& refused(r, OnboardingError::UserNotFound) <==> ready && signed && !known
        }),
{
}

/// `verify_user` is accepted exactly when the contract is initialized, the admin
/// has signed and the user has a profile.
pub proof fn law_verification_is_accepted(i: InvocationView, user: AddressView)
    ensures
        ({
            let r = i.verify_user(user);
            let ready = i.storage.config is Some;
            let signed = i.signers.contains(i.storage.config->0.platform_admin);
            let known = i.storage.profiles.contains_key(user);
            &&& r is Ok <==> ready && signed && known
            &&& refused(r, OnboardingError::NotInitialized) <==> !ready
            &&& refused(r, OnboardingError::Unauthorized) <==> ready && !signed
            &&& refused(r, OnboardingError::UserNotFound) <==> ready && signed && !known
        }),
{
}

/// `process_verification_request` is accepted exactly when the contract is
/// initialized, the admin has signed and the user has a profile, whatever the queue
/// and the history hold, and however the admin decides.
pub proof fn law_processing_is_accepted(i: InvocationView, user: AddressView, approve: bool)
    ensures
        ({
            let r = i.process_verification_request(user, approve);
            let ready = i.storage.config is Some;
            let signed = i.signers.contains(i.storage.config->0.platform_admin);
            let known = i.storage.profiles.contains_key(user);
            &&& r is Ok <==> ready && signed && known
            &&& refused(r, OnboardingError::NotInitialized) <==> !ready
            &&& refused(r, OnboardingError::Unauthorized) <==> ready && !signed
            &&& refused(r, OnboardingError::UserNotFound) <==> ready && signed && !known
        }),
{
}

/// The configuration can be changed exactly when the contract is initialized and
/// the admin has signed, whatever it is changed to.
pub proof fn law_configuration_is_accepted(
    i: InvocationView,
    contract_address: AddressView,
    min_escrow_count: u32,
    min_volume: i128,
)
    ensures
        ({
            let escrow = i.set_escrow_contract(contract_address);
            let thresholds = i.set_verification_thresholds(min_escrow_count, min_volume);
            let ready = i.storage.config is Some;
            let signed = i.signers.contains(i.storage.config->0.platform_admin);
            &&& escrow is Ok <==> ready && signed
            &&& refused(escrow, OnboardingError::NotInitialized) <==> !ready
            &&& refused(escrow, OnboardingError::Unauthorized) <==> ready && !signed
            &&& thresholds is Ok <==> ready && signed
            &&& refused(thresholds, OnboardingError::NotInitialized) <==> !ready
            &&& refused(thresholds, OnboardingError::Unauthorized) <==> ready && !signed
        }),
{
}

/// Metrics and reputation can be reported of anybody, and by any amount, exactly
/// when the contract is initialized and the registered escrow contract has signed,
/// or the admin while no escrow contract is registered.
pub proof fn law_reports_are_accepted(
    i: InvocationView,
    user: AddressView,
    escrow_count_delta: u32,
    volume_delta: i128,
    successful_delta: u32,
    disputed_delta: u32,
)
    ensures
        ({
            let metrics = i.update_user_metrics(user, escrow_count_delta, volume_delta);
            let reputation = i.update_reputation(user, successful_delta, disputed_delta);
            let ready = i.storage.config is Some;
            let config = i.storage.config->0;
            let signed = match config.escrow_contract {
                Some(contract) => i.signers.contains(contract),
                None => i.signers.contains(config.platform_admin),
            };
            &&& metrics is Ok <==> ready && signed
            &&& refused(metrics, OnboardingError::NotInitialized) <==> !ready
            &&& refused(metrics, OnboardingError::Unauthorized) <==> ready && !signed
            &&& reputation is Ok <==> ready && signed
            &&& refused(reputation, OnboardingError::NotInitialized) <==> !ready
            &&& refused(reputation, OnboardingError::Unauthorized) <==> ready && !signed
        }),
{
}

/// `auto_verify_user` is accepted exactly when the contract is initialized and the
/// user has a profile, whoever has signed.
pub proof fn law_auto_verification_is_accepted(i: InvocationView, user: AddressView)
    ensures
        ({
            let r = i.auto_verify_user(user);
            let ready = i.storage.config is Some;
            let known = i.storage.profiles.contains_key(user);
            &&& r is Ok <==> ready && known
            &&& refused(r, OnboardingError::NotInitialized) <==> !ready
            &&& refused(r, OnboardingError::UserNotFound) <==> ready && !known
        }),
{
}

/// `request_verification` is accepted exactly when the user has signed and has a
/// profile, whatever the queue and the history hold.
pub proof fn law_request_is_accepted(i: InvocationView, user: AddressView)
    ensures
        ({
            let r = i.request_verification(user);
            let signed = i.signers.contains(user);
            let known = i.storage.profiles.contains_key(user);
            &&& r is Ok <==> signed && known
            &&& refused(r, OnboardingError::Unauthorized) <==> !signed
            &&& refused(r, OnboardingError::UserNotFound) <==> signed && !known
        }),
{
}

} // verus!
