//! Laws of sequences of calls: what later calls give back of earlier ones.

use vstd::prelude::*;

use crate::calls::Call;
use crate::error::OnboardingError;
use crate::invocation::InvocationView;
use crate::laws::profiles::law_profile_after_call;
use crate::model::{initial_config, new_profile, saturating_count};
use crate::storage::StorageView;
use crate::types::{AddressView, OnboardingConfigView, UserProfileView, UserRole, SCHEMA_VERSION};
use crate::username::{normalized_name, MAX_INPUT_BYTES};

verus! {

proof fn lemma_upgraded_reads_alike(s: StorageView, user: AddressView, a: AddressView)
    ensures
        s.upgraded(user).onboarded(a) == s.onboarded(a),
        s.upgraded(user).profile(a) == s.profile(a),
{
    assert(s.profile(user).record().profile() == s.profile(user));
}

/// What `onboard_user` registers can be read back: by the user's address, and by
/// every username that normalizes to the same name.
pub proof fn law_onboarding_reads_back(
    i: InvocationView,
    user: AddressView,
    username: Seq<u8>,
    role: UserRole,
    j: InvocationView,
    variant: Seq<u8>,
)
    requires
        i.onboard_user(user, username, role) is Ok,
        j.storage == i.onboard_user(user, username, role)->Ok_0.storage,
        variant.len() <= MAX_INPUT_BYTES,
        normalized_name(variant) == normalized_name(username),
    ensures
        ({
            let profile = i.onboard_user(user, username, role)->Ok_0.value;
            &&& j.get_user(user) matches Ok(o) && o.value == profile
            &&& j.get_user_by_username(variant) matches Ok(o) && o.value == profile
            &&& j.is_username_taken(variant) matches Ok(o) && o.value
            &&& j.is_onboarded(user).value
            &&& j.get_user_role(user).value == role
            &&& j.has_role(user, role).value
            &&& !j.is_verified(user).value
            &&& j.get_user_reputation(user).value == (0u32, 0u32)
            &&& profile.version == SCHEMA_VERSION
            &&& profile.address == user
            &&& profile.username == normalized_name(username)
            &&& profile.registered_at == i.timestamp
        }),
{
    let profile = i.onboard_user(user, username, role)->Ok_0.value;
    assert(profile.record().profile() == profile);
}

/// A username is given once: when it has been taken, nobody can onboard under any
/// username that normalizes to the same name.
pub proof fn law_taken_username_is_refused(
    i: InvocationView,
    user: AddressView,
    username: Seq<u8>,
    role: UserRole,
)
    requires
        i.storage.usernames.contains_key(normalized_name(username)),
    ensures
        i.onboard_user(user, username, role) is Err,
{
}

/// Two users cannot both onboard under usernames that normalize to the same name:
/// the second, if authorized and in a valid role, is told that it is taken.
pub proof fn law_second_onboarding_under_same_name_is_refused(
    i: InvocationView,
    user: AddressView,
    username: Seq<u8>,
    role: UserRole,
    j: InvocationView,
    other: AddressView,
    variant: Seq<u8>,
    other_role: UserRole,
)
    requires
        i.onboard_user(user, username, role) is Ok,
        j.storage == i.onboard_user(user, username, role)->Ok_0.storage,
        variant.len() <= MAX_INPUT_BYTES,
        normalized_name(variant) == normalized_name(username),
        j.signed_by(other),
        other_role == UserRole::Buyer || other_role == UserRole::Artisan,
        !j.storage.onboarded(other),
    ensures
        j.onboard_user(other, variant, other_role) matches Err(e) && e
            == OnboardingError::UsernameTaken,
{
}

/// Nobody onboards twice, under whatever username.
pub proof fn law_nobody_onboards_twice(
    i: InvocationView,
    user: AddressView,
    username: Seq<u8>,
    role: UserRole,
)
    requires
        i.storage.onboarded(user),
    ensures
        i.onboard_user(user, username, role) is Err,
{
}

/// Users onboard themselves as buyers or artisans only.
pub proof fn law_self_onboarding_gives_no_other_role(
    i: InvocationView,
    user: AddressView,
    username: Seq<u8>,
    role: UserRole,
)
    requires
        i.onboard_user(user, username, role) is Ok,
    ensures
        role == UserRole::Buyer || role == UserRole::Artisan,
        !i.onboard_user(user, username, role)->Ok_0.value.is_verified,
{
}

/// After `initialize` the admin is the one who was given, is registered as a
/// verified admin, and owns the username "admin" in every spelling.
pub proof fn law_initialization_reads_back(
    i: InvocationView,
    admin: AddressView,
    j: InvocationView,
    variant: Seq<u8>,
)
    requires
        i.initialize(admin) is Ok,
        j.storage == i.initialize(admin)->Ok_0.storage,
        variant.len() <= MAX_INPUT_BYTES,
        normalized_name(variant) == "admin"@,
    ensures
        i.initialize(admin)->Ok_0.value == initial_config(admin),
        j.get_config() matches Ok(o) && o.value == initial_config(admin),
        j.get_user_role(admin).value == UserRole::Admin,
        j.is_verified(admin).value,
        j.is_username_taken(variant) matches Ok(o) && o.value,
        j.get_user_by_username(variant) matches Ok(o) && o.value.address == admin,
{
    let profile = new_profile(admin, UserRole::Admin, "admin"@, i.timestamp, true);
    assert(profile.record().profile() == profile);
}

/// Nobody but the admin can have the username "admin", in any spelling.
pub proof fn law_admin_username_is_reserved(
    i: InvocationView,
    admin: AddressView,
    j: InvocationView,
    user: AddressView,
    variant: Seq<u8>,
    role: UserRole,
)
    requires
        i.initialize(admin) is Ok,
        j.storage == i.initialize(admin)->Ok_0.storage,
        normalized_name(variant) == "admin"@,
    ensures
        j.onboard_user(user, variant, role) is Err,
{
}

/// The role that the admin gives is the role that is read back.
pub proof fn law_role_update_reads_back(
    i: InvocationView,
    user: AddressView,
    new_role: UserRole,
    j: InvocationView,
)
    requires
        i.update_user_role(user, new_role) is Ok,
        j.storage == i.update_user_role(user, new_role)->Ok_0.storage,
    ensures
        i.update_user_role(user, new_role)->Ok_0.value == (UserProfileView {
            role: new_role,
            ..i.storage.profile(user)
        }),
        j.get_user(user) matches Ok(o) && o.value == i.update_user_role(
            user,
            new_role,
        )->Ok_0.value,
        j.get_user_role(user).value == new_role,
        j.has_role(user, new_role).value,
{
    law_profile_after_call(i, Call::UpdateUserRole { user, new_role }, user);
}

/// A user whom the admin verifies reads as verified, and is otherwise as before.
pub proof fn law_verification_reads_back(i: InvocationView, user: AddressView, j: InvocationView)
    requires
        i.verify_user(user) is Ok,
        j.storage == i.verify_user(user)->Ok_0.storage,
    ensures
        i.verify_user(user)->Ok_0.value == (UserProfileView {
            is_verified: true,
            ..i.storage.profile(user)
        }),
        j.get_user(user) matches Ok(o) && o.value == i.verify_user(user)->Ok_0.value,
        j.is_verified(user).value,
{
    law_profile_after_call(i, Call::VerifyUser { user }, user);
}

/// The escrow contract that is registered is read back, and the rest of the
/// configuration is as before.
pub proof fn law_escrow_contract_reads_back(
    i: InvocationView,
    contract_address: AddressView,
    j: InvocationView,
)
    requires
        i.set_escrow_contract(contract_address) is Ok,
        j.storage == i.set_escrow_contract(contract_address)->Ok_0.storage,
    ensures
        j.get_config() matches Ok(o) && o.value == (OnboardingConfigView {
            escrow_contract: Some(contract_address),
            ..i.storage.config->0
        }),
{
}

/// Reputation adds up: a report adds to the counters that are read back, up to the
/// numeric bound; for an address that is not onboarded it changes nothing.
pub proof fn law_reputation_reads_back(
    i: InvocationView,
    user: AddressView,
    successful_delta: u32,
    disputed_delta: u32,
    j: InvocationView,
)
    requires
        i.update_reputation(user, successful_delta, disputed_delta) is Ok,
        j.storage == i.update_reputation(user, successful_delta, disputed_delta)->Ok_0.storage,
    ensures
        i.storage.onboarded(user) ==> j.get_user_reputation(user).value == (
            saturating_count(i.get_user_reputation(user).value.0, successful_delta),
            saturating_count(i.get_user_reputation(user).value.1, disputed_delta),
        ),
        !i.storage.onboarded(user) ==> j.storage == i.storage,
{
    if i.storage.onboarded(user) {
        law_profile_after_call(
            i,
            Call::UpdateReputation { user, successful_delta, disputed_delta },
            user,
        );
    }
}

/// Whether a call only asks.
pub open spec fn asks(call: Call) -> bool {
    match call {
        Call::GetUser { .. } => true,
        Call::GetUserByUsername { .. } => true,
        Call::IsUsernameTaken { .. } => true,
        Call::IsOnboarded { .. } => true,
        Call::GetUserRole { .. } => true,
        Call::GetConfig => true,
        Call::HasRole { .. } => true,
        Call::IsVerified { .. } => true,
        Call::GetUserMetrics { .. } => true,
        Call::GetVerificationHistory { .. } => true,
        Call::GetVerificationQueue => true,
        Call::GetUserReputation { .. } => true,
        _ => false,
    }
}

/// A call that only asks changes no profile as it is read, nothing else that is
/// stored, and publishes nothing.
pub proof fn law_questions_change_nothing(i: InvocationView, call: Call, a: AddressView)
    requires
        asks(call),
    ensures
        ({
            let s = i.storage;
            let t = i.after(i.step(call)).storage;
            &&& t.onboarded(a) == s.onboarded(a)
            &&& t.profile(a) == s.profile(a)
            &&& t == (StorageView { profiles: t.profiles, ..s })
        }),
        i.step(call) matches Ok(o) ==> forall|k: int|
            0 <= k < o.effects.len() ==> !(#[trigger] o.effects[k] is Publish),
{
    lemma_upgraded_reads_alike(i.storage, a, a);
    match call {
        Call::GetUser { user } => lemma_upgraded_reads_alike(i.storage, user, a),
        Call::GetUserByUsername { username } => lemma_upgraded_reads_alike(
            i.storage,
            i.storage.usernames[normalized_name(username)],
            a,
        ),
        Call::IsOnboarded { user } => lemma_upgraded_reads_alike(i.storage, user, a),
        Call::GetUserRole { user } => lemma_upgraded_reads_alike(i.storage, user, a),
        Call::HasRole { user, .. } => lemma_upgraded_reads_alike(i.storage, user, a),
        Call::IsVerified { user } => lemma_upgraded_reads_alike(i.storage, user, a),
        Call::GetUserReputation { user } => lemma_upgraded_reads_alike(i.storage, user, a),
        _ => {},
    }
}

} // verus!
