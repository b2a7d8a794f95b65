//! Laws of the registry: who is onboarded, and under which username.

use vstd::prelude::*;
use vstd::utf8::{encode_utf8, is_ascii_chars_encode_utf8};

use crate::calls::Call;
use crate::invocation::InvocationView;
use crate::laws::authorization::law_config_changes_only_by_admin;
use crate::model::{new_profile, saturating_count};
use crate::storage::StorageView;
use crate::types::{
    AddressView, OnboardingConfigView, UserMetrics, UserProfileView, UserRole,
};
use crate::username::{
    law_normalization_is_idempotent, law_plain_text_is_normalized, normalized_name,
};

verus! {

/// The registry is consistent: the profiles and the username index agree, each
/// profile is filed under its own address, every username in the index is in
/// normalized form, and nobody is registered before the contract is initialized.
pub open spec fn consistent(s: StorageView) -> bool {
    &&& forall|n: Seq<char>| #[trigger]
        s.usernames.contains_key(n) ==> {
            &&& s.onboarded(s.usernames[n])
            &&& s.profile(s.usernames[n]).username == n
            &&& normalized_name(encode_utf8(n)) == n
        }
    &&& forall|a: AddressView| #[trigger]
        s.onboarded(a) ==> {
            &&& s.profile(a).address == a
            &&& s.usernames.contains_key(s.profile(a).username)
            &&& s.usernames[s.profile(a).username] == a
        }
    &&& s.config is None ==> forall|a: AddressView| !#[trigger] s.onboarded(a)
}

/// Storage that holds nothing is consistent.
pub proof fn law_empty_storage_is_consistent()
    ensures
        consistent(StorageView::empty()),
{
}

/// Nobody enters or leaves the registry, and everybody in it keeps address,
/// username and time of registration.
pub open spec fn same_registry(s: StorageView, t: StorageView) -> bool {
    &&& t.usernames == s.usernames
    &&& t.config is Some == s.config is Some
    &&& forall|a: AddressView| #[trigger] t.onboarded(a) == s.onboarded(a)
    &&& forall|a: AddressView| #[trigger]
        s.onboarded(a) ==> {
            &&& t.profile(a).address == s.profile(a).address
            &&& t.profile(a).username == s.profile(a).username
            &&& t.profile(a).registered_at == s.profile(a).registered_at
        }
}

proof fn lemma_with_profile(s: StorageView, a: AddressView, p: UserProfileView)
    requires
        s.onboarded(a),
        p.address == s.profile(a).address,
        p.username == s.profile(a).username,
        p.registered_at == s.profile(a).registered_at,
    ensures
        same_registry(s, s.with_profile(a, p)),
{
    let t = s.with_profile(a, p);
    assert(p.record().profile() == p);
    assert forall|b: AddressView| #[trigger] s.onboarded(b) implies {
        &&& t.profile(b).address == s.profile(b).address
        &&& t.profile(b).username == s.profile(b).username
        &&& t.profile(b).registered_at == s.profile(b).registered_at
    } by {
        assert(b == a || t.profiles[b] == s.profiles[b]);
    }
    assert forall|b: AddressView| #[trigger] t.onboarded(b) == s.onboarded(b) by {}
}

proof fn lemma_upgraded(s: StorageView, a: AddressView)
    ensures
        same_registry(s, s.upgraded(a)),
{
    if s.outdated(a) {
        lemma_with_profile(s, a, s.profile(a));
    }
}

proof fn lemma_auto_verify(
    s: StorageView,
    a: AddressView,
    config: OnboardingConfigView,
    metrics: UserMetrics,
    now: u64,
)
    ensures
        same_registry(s, s.auto_verify(a, config, metrics, now).storage),
{
    if s.due(a, config, metrics) {
        let p = UserProfileView { is_verified: true, ..s.profile(a) };
        lemma_with_profile(s, a, p);
        let t = s.with_profile(a, p);
        let u = s.auto_verify(a, config, metrics, now).storage;
        assert(u.profiles == t.profiles);
        lemma_same_profiles(t, u);
        lemma_same_registry_trans(s, t, u);
    } else {
        lemma_upgraded(s, a);
    }
}

proof fn lemma_same_profiles(s: StorageView, t: StorageView)
    requires
        t.profiles == s.profiles,
        t.usernames == s.usernames,
        t.config is Some == s.config is Some,
    ensures
        same_registry(s, t),
{
    assert forall|b: AddressView| #[trigger] t.onboarded(b) == s.onboarded(b) by {}
    assert forall|b: AddressView| t.profile(b) == s.profile(b) by {}
}

proof fn lemma_same_registry_trans(s: StorageView, t: StorageView, u: StorageView)
    requires
        same_registry(s, t),
        same_registry(t, u),
    ensures
        same_registry(s, u),
{
    assert forall|b: AddressView| #[trigger] u.onboarded(b) == s.onboarded(b) by {
        assert(t.onboarded(b) == s.onboarded(b));
    }
    assert forall|b: AddressView| #[trigger] s.onboarded(b) implies {
        &&& u.profile(b).address == s.profile(b).address
        &&& u.profile(b).username == s.profile(b).username
        &&& u.profile(b).registered_at == s.profile(b).registered_at
    } by {
        assert(t.onboarded(b));
    }
}

/// A change of the profile of `a` to `p`, followed by a change that touches
/// neither profiles nor the index.
proof fn lemma_edited(s: StorageView, a: AddressView, p: UserProfileView, t: StorageView)
    requires
        s.onboarded(a),
        p.address == s.profile(a).address,
        p.username == s.profile(a).username,
        p.registered_at == s.profile(a).registered_at,
        t.profiles == s.with_profile(a, p).profiles,
        t.usernames == s.usernames,
        t.config is Some == s.config is Some,
    ensures
        same_registry(s, t),
{
    lemma_with_profile(s, a, p);
    lemma_same_profiles(s.with_profile(a, p), t);
    lemma_same_registry_trans(s, s.with_profile(a, p), t);
}

/// Registration is permanent: every call but `initialize` and `onboard_user`
/// leaves the registry as it is.
pub proof fn law_registration_is_permanent(i: InvocationView, call: Call)
    requires
        !(call is Initialize),
        !(call is OnboardUser),
    ensures
        same_registry(i.storage, i.after(i.step(call)).storage),
{
    let s = i.storage;
    let t = i.after(i.step(call)).storage;
    if i.step(call) is Err {
        lemma_same_profiles(s, s);
    } else {
        match call {
            Call::Initialize { .. } => {},
            Call::OnboardUser { .. } => {},
            Call::GetUser { user } => lemma_upgraded(s, user),
            Call::GetUserByUsername { username } => lemma_upgraded(
                s,
                s.usernames[normalized_name(username)],
            ),
            Call::IsUsernameTaken { .. } => lemma_same_profiles(s, t),
            Call::IsOnboarded { user } => lemma_upgraded(s, user),
            Call::GetUserRole { user } => lemma_upgraded(s, user),
            Call::UpdateUserRole { user, new_role } => lemma_edited(
                s,
                user,
                UserProfileView { role: new_role, ..s.profile(user) },
                t,
            ),
            Call::VerifyUser { user } => lemma_edited(
                s,
                user,
                UserProfileView { is_verified: true, ..s.profile(user) },
                t,
            ),
            Call::GetConfig => lemma_same_profiles(s, t),
            Call::HasRole { user, .. } => lemma_upgraded(s, user),
            Call::IsVerified { user } => lemma_upgraded(s, user),
            Call::SetEscrowContract { .. } => lemma_same_profiles(s, t),
            Call::SetVerificationThresholds { .. } => lemma_same_profiles(s, t),
            Call::GetUserMetrics { .. } => lemma_same_profiles(s, t),
            Call::UpdateUserMetrics { user, .. } => {
                let counted = StorageView { metrics: t.metrics, ..s };
                lemma_same_profiles(s, counted);
                lemma_auto_verify(
                    counted,
                    user,
                    s.config->0,
                    t.metrics[user],
                    i.timestamp,
                );
                lemma_same_registry_trans(s, counted, t);
            },
            Call::AutoVerifyUser { user } => {
                let seen = s.upgraded(user);
                lemma_upgraded(s, user);
                lemma_auto_verify(
                    seen,
                    user,
                    s.config->0,
                    s.metrics_of(user),
                    i.timestamp,
                );
                lemma_same_registry_trans(s, seen, t);
            },
            Call::RequestVerification { .. } => lemma_same_profiles(s, t),
            Call::ProcessVerificationRequest { user, approve } => lemma_edited(
                s,
                user,
                UserProfileView { is_verified: approve, ..s.profile(user) },
                t,
            ),
            Call::GetVerificationHistory { .. } => lemma_same_profiles(s, t),
            Call::GetVerificationQueue => lemma_same_profiles(s, t),
            Call::UpdateReputation { user, successful_delta, disputed_delta } => {
                if s.onboarded(user) {
                    let p = s.profile(user);
                    lemma_edited(
                        s,
                        user,
                        UserProfileView {
                            successful_trades: saturating_count(
                                p.successful_trades,
                                successful_delta,
                            ),
                            disputed_trades: saturating_count(p.disputed_trades, disputed_delta),
                            ..p
                        },
                        t,
                    );
                } else {
                    lemma_same_profiles(s, t);
                }
            },
            Call::GetUserReputation { user } => lemma_upgraded(s, user),
        }
    }
}

proof fn lemma_same_registry_consistent(s: StorageView, t: StorageView)
    requires
        consistent(s),
        same_registry(s, t),
    ensures
        consistent(t),
{
    assert forall|a: AddressView| #[trigger] t.onboarded(a) implies {
        &&& t.profile(a).address == a
        &&& t.usernames.contains_key(t.profile(a).username)
        &&& t.usernames[t.profile(a).username] == a
    } by {
        assert(s.onboarded(a));
    }
    assert forall|n: Seq<char>| #[trigger] t.usernames.contains_key(n) implies {
        &&& t.onboarded(t.usernames[n])
        &&& t.profile(t.usernames[n]).username == n
        &&& normalized_name(encode_utf8(n)) == n
    } by {
        assert(s.usernames.contains_key(n));
        assert(s.onboarded(s.usernames[n]));
    }
}

/// A registration of `a` under a username that nobody owns.
proof fn lemma_registered(s: StorageView, a: AddressView, p: UserProfileView, t: StorageView)
    requires
        consistent(s),
        !s.onboarded(a),
        !s.usernames.contains_key(p.username),
        p.address == a,
        normalized_name(encode_utf8(p.username)) == p.username,
        t.profiles == s.profiles.insert(a, p.record()),
        t.usernames == s.usernames.insert(p.username, a),
        t.config is Some,
    ensures
        consistent(t),
{
    assert(p.record().profile() == p);
    assert forall|b: AddressView| #[trigger] t.onboarded(b) implies {
        &&& t.profile(b).address == b
        &&& t.usernames.contains_key(t.profile(b).username)
        &&& t.usernames[t.profile(b).username] == b
    } by {
        if b != a {
            assert(s.onboarded(b));
            assert(t.profile(b) == s.profile(b));
        }
    }
    assert forall|n: Seq<char>| #[trigger] t.usernames.contains_key(n) implies {
        &&& t.onboarded(t.usernames[n])
        &&& t.profile(t.usernames[n]).username == n
        &&& normalized_name(encode_utf8(n)) == n
    } by {
        if n != p.username {
            assert(s.usernames.contains_key(n));
            let owner = s.usernames[n];
            assert(s.onboarded(owner));
            assert(t.profile(owner) == s.profile(owner));
        }
    }
}

/// A registration of `a` under the username that `a` has already.
proof fn lemma_registered_again(s: StorageView, a: AddressView, p: UserProfileView, t: StorageView)
    requires
        consistent(s),
        s.usernames.contains_key(p.username),
        s.usernames[p.username] == a,
        p.address == a,
        t.profiles == s.profiles.insert(a, p.record()),
        t.usernames == s.usernames.insert(p.username, a),
        t.config is Some,
    ensures
        consistent(t),
{
    assert(s.onboarded(a));
    assert(t.usernames =~= s.usernames);
    assert(p.record().profile() == p);
    assert forall|b: AddressView| #[trigger] t.onboarded(b) implies {
        &&& t.profile(b).address == b
        &&& t.usernames.contains_key(t.profile(b).username)
        &&& t.usernames[t.profile(b).username] == b
    } by {
        assert(s.onboarded(b));
        assert(b == a || t.profile(b) == s.profile(b));
    }
    assert forall|n: Seq<char>| #[trigger] t.usernames.contains_key(n) implies {
        &&& t.onboarded(t.usernames[n])
        &&& t.profile(t.usernames[n]).username == n
        &&& normalized_name(encode_utf8(n)) == n
    } by {
        assert(s.usernames.contains_key(n));
        let owner = s.usernames[n];
        assert(s.onboarded(owner));
        assert(owner == a || t.profile(owner) == s.profile(owner));
    }
}

/// Whether `admin` can be made admin without a clash over the reserved username:
/// `admin` owns it already, or nobody owns it and `admin` is not registered yet.
pub open spec fn admits_admin(s: StorageView, admin: AddressView) -> bool {
    if s.usernames.contains_key("admin"@) {
        s.usernames["admin"@] == admin
    } else {
        !s.onboarded(admin)
    }
}

/// Before the contract is initialized anybody can be made admin.
pub proof fn law_first_initialization_admits_any_admin(s: StorageView, admin: AddressView)
    requires
        consistent(s),
        s.config is None,
    ensures
        admits_admin(s, admin),
{
    if s.usernames.contains_key("admin"@) {
        assert(s.onboarded(s.usernames["admin"@]));
    }
}

/// Every call keeps the registry consistent. Only an initialization that clashes
/// over the reserved username is left out: it gives the username to the new admin
/// while the profile of the old one still has it.
pub proof fn law_calls_keep_registry_consistent(i: InvocationView, call: Call)
    requires
        consistent(i.storage),
        call matches Call::Initialize { admin } ==> i.signed_by(admin) ==> admits_admin(
            i.storage,
            admin,
        ),
    ensures
        consistent(i.after(i.step(call)).storage),
{
    let s = i.storage;
    let t = i.after(i.step(call)).storage;
    if i.step(call) is Ok {
        match call {
            Call::Initialize { admin } => {
                let p = new_profile(admin, UserRole::Admin, "admin"@, i.timestamp, true);
                reveal_strlit("admin");
                law_plain_text_is_normalized("admin"@);
                if s.usernames.contains_key("admin"@) {
                    lemma_registered_again(s, admin, p, t);
                } else {
                    lemma_registered(s, admin, p, t);
                }
            },
            Call::OnboardUser { user, username, role } => {
                let p = new_profile(user, role, normalized_name(username), i.timestamp, false);
                law_normalization_is_idempotent(username);
                lemma_registered(s, user, p, t);
            },
            _ => {
                law_registration_is_permanent(i, call);
                lemma_same_registry_consistent(s, t);
            },
        }
    }
}

/// Once the contract is initialized, usernames are required and their bounds are
/// fixed; every username in the index is within them.
pub open spec fn well_sized(s: StorageView) -> bool {
    &&& s.config matches Some(config) ==> {
        &&& config.require_username
        &&& config.min_username_length == 3
        &&& config.max_username_length == 50
    }
    &&& forall|n: Seq<char>| #[trigger]
        s.usernames.contains_key(n) ==> 3 <= encode_utf8(n).len() <= 50
}

/// Storage that holds nothing is well-sized.
pub proof fn law_empty_storage_is_well_sized()
    ensures
        well_sized(StorageView::empty()),
{
}

/// Every call keeps the bounds of usernames and the usernames within them.
pub proof fn law_calls_keep_usernames_well_sized(i: InvocationView, call: Call)
    requires
        well_sized(i.storage),
    ensures
        well_sized(i.after(i.step(call)).storage),
{
    let s = i.storage;
    let t = i.after(i.step(call)).storage;
    if i.step(call) is Ok {
        match call {
            Call::Initialize { .. } => {
                reveal_strlit("admin");
                is_ascii_chars_encode_utf8("admin"@);
                assert forall|n: Seq<char>| #[trigger] t.usernames.contains_key(n) implies 3
                    <= encode_utf8(n).len() <= 50 by {
                    assert(n == "admin"@ || s.usernames.contains_key(n));
                }
            },
            Call::OnboardUser { username, .. } => {
                assert forall|n: Seq<char>| #[trigger] t.usernames.contains_key(n) implies 3
                    <= encode_utf8(n).len() <= 50 by {
                    assert(n == normalized_name(username) || s.usernames.contains_key(n));
                }
            },
            _ => {
                law_registration_is_permanent(i, call);
                if t.config != s.config {
                    law_config_changes_only_by_admin(i, call);
                }
            },
        }
    }
}

/// No two users have the same username.
pub proof fn law_usernames_are_unique(s: StorageView, a: AddressView, b: AddressView)
    requires
        consistent(s),
        s.onboarded(a),
        s.onboarded(b),
        s.profile(a).username == s.profile(b).username,
    ensures
        a == b,
{
}

} // verus!
