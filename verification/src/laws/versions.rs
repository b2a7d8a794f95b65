//! Laws of schema versions: profiles that were stored without one.

use vstd::prelude::*;

use crate::calls::Call;
use crate::invocation::{extension, InvocationView};
use crate::model::metrics_plus;
use crate::storage::{DataKeyView, StorageView};
use crate::types::{
    AddressView, OnboardingConfigView, ProfileRecordView, UserMetrics, UserProfileView,
    SCHEMA_VERSION,
};
use crate::username::normalized_name;

verus! {

/// A profile without a version is read under the current version with all other
/// fields as they are stored; a profile with a version is read as it is stored.
pub proof fn law_records_read_back(r: ProfileRecordView)
    ensures
        r.profile().version == match r.version {
            Some(version) => version,
            None => SCHEMA_VERSION,
        },
        r.profile().address == r.address,
        r.profile().role == r.role,
        r.profile().username == r.username,
        r.profile().registered_at == r.registered_at,
        r.profile().is_verified == r.is_verified,
        r.profile().successful_trades == r.successful_trades,
        r.profile().disputed_trades == r.disputed_trades,
        r.version is Some ==> r.profile().record() == r,
{
}

/// A profile that is stored is read back as it was.
pub proof fn law_profiles_read_back(p: UserProfileView)
    ensures
        p.record().profile() == p,
{
}

/// Reading a profile upgrades it for good: what is returned is what is stored from
/// then on, under a version, and a second read returns the same and writes nothing.
pub proof fn law_reading_upgrades_profile(i: InvocationView, user: AddressView, j: InvocationView)
    requires
        i.get_user(user) is Ok,
        j.storage == i.get_user(user)->Ok_0.storage,
    ensures
        i.storage.profiles[user].version is None ==> i.get_user(user)->Ok_0.value.version
            == SCHEMA_VERSION,
        j.storage.profiles[user] == i.get_user(user)->Ok_0.value.record(),
        j.get_user(user) matches Ok(again) && {
            &&& again.value == i.get_user(user)->Ok_0.value
            &&& again.storage == j.storage
            &&& again.effects == seq![extension(DataKeyView::UserProfile(user))]
        },
{
    law_records_read_back(i.storage.profiles[user]);
    law_profiles_read_back(i.storage.profile(user));
    assert(Seq::empty().push(extension(DataKeyView::UserProfile(user))) =~= seq![
        extension(DataKeyView::UserProfile(user)),
    ]);
}

/// Whether a call loads the profile of `a`.
pub open spec fn loads(i: InvocationView, call: Call, a: AddressView) -> bool {
    match call {
        Call::GetUser { user } => user == a,
        Call::GetUserByUsername { username } => i.storage.usernames[normalized_name(username)] == a,
        Call::IsOnboarded { user } => user == a,
        Call::GetUserRole { user } => user == a,
        Call::UpdateUserRole { user, .. } => user == a,
        Call::VerifyUser { user } => user == a,
        Call::HasRole { user, .. } => user == a,
        Call::IsVerified { user } => user == a,
        Call::UpdateUserMetrics { user, .. } => user == a,
        Call::AutoVerifyUser { user } => user == a,
        Call::ProcessVerificationRequest { user, .. } => user == a,
        Call::UpdateReputation { user, .. } => user == a,
        Call::GetUserReputation { user } => user == a,
        _ => false,
    }
}

/// A profile that has been read or written has a version.
proof fn lemma_touched_profile_has_version(s: StorageView, a: AddressView, p: UserProfileView)
    ensures
        !s.upgraded(a).outdated(a),
        !s.with_profile(a, p).outdated(a),
{
}

/// A profile that has been checked for auto-verification has a version.
proof fn lemma_checked_profile_has_version(
    s: StorageView,
    a: AddressView,
    config: OnboardingConfigView,
    metrics: UserMetrics,
    now: u64,
)
    ensures
        !s.auto_verify(a, config, metrics, now).storage.outdated(a),
{
}

/// Every accepted call that loads a profile leaves it with a version.
pub proof fn law_loaded_profiles_are_upgraded(i: InvocationView, call: Call, a: AddressView)
    requires
        i.step(call) is Ok,
        loads(i, call, a),
    ensures
        !i.after(i.step(call)).storage.outdated(a),
{
    match call {
        Call::UpdateUserMetrics { user, escrow_count_delta, volume_delta } => {
            let metrics = metrics_plus(
                i.storage.metrics_of(user),
                escrow_count_delta,
                volume_delta,
            );
            let counted = StorageView {
                metrics: i.storage.metrics.insert(user, metrics),
                ..i.storage
            };
            lemma_checked_profile_has_version(
                counted,
                a,
                i.storage.config->0,
                metrics,
                i.timestamp,
            );
        },
        Call::AutoVerifyUser { user } => {
            lemma_checked_profile_has_version(
                i.storage.upgraded(a),
                a,
                i.storage.config->0,
                i.storage.metrics_of(user),
                i.timestamp,
            );
        },
        _ => {
            lemma_touched_profile_has_version(i.storage, a, i.storage.profile(a));
        },
    }
}

/// No call makes a profile lose its version, and nobody is registered without one.
pub proof fn law_versions_are_kept(i: InvocationView, call: Call, a: AddressView)
    requires
        !i.storage.outdated(a),
    ensures
        !i.after(i.step(call)).storage.outdated(a),
{
}

} // verus!
