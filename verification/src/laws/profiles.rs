//! Laws of profiles: what may change of them, and by whom.

use vstd::prelude::*;

use crate::calls::Call;
use crate::invocation::{EffectView, EventView, InvocationView};
use crate::model::{metrics_plus, new_profile, saturating_count};
use crate::storage::StorageView;
use crate::types::{AddressView, OnboardingConfigView, UserMetrics, UserProfileView, UserRole};
use crate::username::normalized_name;

verus! {

/// Whether a call is an accepted initialization that makes `a` the admin.
pub open spec fn installs(i: InvocationView, call: Call, a: AddressView) -> bool {
    call matches Call::Initialize { admin } && admin == a && i.signed_by(a)
}

/// What an accepted call makes of the profile of an onboarded `a`.
pub open spec fn profile_after(i: InvocationView, call: Call, a: AddressView) -> UserProfileView {
    let p = i.storage.profile(a);
    match call {
        Call::Initialize { admin } if admin == a => new_profile(
            a,
            UserRole::Admin,
            "admin"@,
            i.timestamp,
            true,
        ),
        Call::UpdateUserRole { user, new_role } if user == a => UserProfileView {
            role: new_role,
            ..p
        },
        Call::VerifyUser { user } if user == a => UserProfileView { is_verified: true, ..p },
        Call::ProcessVerificationRequest { user, approve } if user == a => UserProfileView {
            is_verified: approve,
            ..p
        },
        Call::UpdateUserMetrics { user, escrow_count_delta, volume_delta } if user == a =>
            UserProfileView {
                is_verified: p.is_verified || i.storage.config->0.qualifies(
                    metrics_plus(i.storage.metrics_of(a), escrow_count_delta, volume_delta),
                ),
                ..p
            },
        Call::AutoVerifyUser { user } if user == a => UserProfileView {
            is_verified: p.is_verified || i.storage.config->0.qualifies(i.storage.metrics_of(a)),
            ..p
        },
        Call::UpdateReputation { user, successful_delta, disputed_delta } if user == a =>
            UserProfileView {
                successful_trades: saturating_count(p.successful_trades, successful_delta),
                disputed_trades: saturating_count(p.disputed_trades, disputed_delta),
                ..p
            },
        _ => p,
    }
}

/// A profile that is written is the profile that is read, and no other profile
/// changes.
proof fn lemma_with_profile(s: StorageView, u: AddressView, p: UserProfileView, a: AddressView)
    ensures
        s.with_profile(u, p).onboarded(a) == (a == u || s.onboarded(a)),
        s.with_profile(u, p).profile(a) == if a == u {
            p
        } else {
            s.profile(a)
        },
{
    assert(p.record().profile() == p);
}

/// Reading a profile changes none.
proof fn lemma_upgraded(s: StorageView, u: AddressView, a: AddressView)
    ensures
        s.upgraded(u).onboarded(a) == s.onboarded(a),
        s.upgraded(u).profile(a) == s.profile(a),
{
    lemma_with_profile(s, u, s.profile(u), a);
}

proof fn lemma_auto_verify(
    s: StorageView,
    u: AddressView,
    config: OnboardingConfigView,
    metrics: UserMetrics,
    now: u64,
    a: AddressView,
)
    ensures
        ({
            let t = s.auto_verify(u, config, metrics, now).storage;
            &&& t.onboarded(a) == s.onboarded(a)
            &&& t.profile(a) == if a == u && s.due(u, config, metrics) {
                UserProfileView { is_verified: true, ..s.profile(a) }
            } else {
                s.profile(a)
            }
        }),
{
    lemma_with_profile(s, u, UserProfileView { is_verified: true, ..s.profile(u) }, a);
    lemma_upgraded(s, u, a);
}

/// What an accepted call makes of the profile of a user: exactly what
/// `profile_after` says, so a call changes the profile of nobody but the user it
/// is about.
#[verifier::rlimit(40)]
pub proof fn law_profile_after_call(i: InvocationView, call: Call, a: AddressView)
    requires
        i.storage.onboarded(a),
        i.step(call) is Ok,
    ensures
        i.after(i.step(call)).storage.onboarded(a),
        i.after(i.step(call)).storage.profile(a) == profile_after(i, call, a),
{
    let s = i.storage;
    let p = s.profile(a);
    match call {
        Call::Initialize { admin } => lemma_with_profile(
            s,
            admin,
            new_profile(admin, UserRole::Admin, "admin"@, i.timestamp, true),
            a,
        ),
        Call::OnboardUser { user, username, role } => lemma_with_profile(
            s,
            user,
            new_profile(user, role, normalized_name(username), i.timestamp, false),
            a,
        ),
        Call::GetUser { user } => lemma_upgraded(s, user, a),
        Call::GetUserByUsername { username } => lemma_upgraded(
            s,
            s.usernames[normalized_name(username)],
            a,
        ),
        Call::IsOnboarded { user } => lemma_upgraded(s, user, a),
        Call::GetUserRole { user } => lemma_upgraded(s, user, a),
        Call::UpdateUserRole { user, new_role } => lemma_with_profile(
            s,
            user,
            UserProfileView { role: new_role, ..s.profile(user) },
            a,
        ),
        Call::VerifyUser { user } => lemma_with_profile(
            s,
            user,
            UserProfileView { is_verified: true, ..s.profile(user) },
            a,
        ),
        Call::HasRole { user, .. } => lemma_upgraded(s, user, a),
        Call::IsVerified { user } => lemma_upgraded(s, user, a),
        Call::UpdateUserMetrics { user, escrow_count_delta, volume_delta } => {
            let metrics = metrics_plus(s.metrics_of(user), escrow_count_delta, volume_delta);
            let counted = StorageView { metrics: s.metrics.insert(user, metrics), ..s };
            lemma_auto_verify(counted, user, s.config->0, metrics, i.timestamp, a);
        },
        Call::AutoVerifyUser { user } => {
            lemma_upgraded(s, user, a);
            lemma_auto_verify(
                s.upgraded(user),
                user,
                s.config->0,
                s.metrics_of(user),
                i.timestamp,
                a,
            );
        },
        Call::ProcessVerificationRequest { user, approve } => lemma_with_profile(
            s,
            user,
            UserProfileView { is_verified: approve, ..s.profile(user) },
            a,
        ),
        Call::UpdateReputation { user, successful_delta, disputed_delta } => {
            let q = s.profile(user);
            lemma_with_profile(
                s,
                user,
                UserProfileView {
                    successful_trades: saturating_count(q.successful_trades, successful_delta),
                    disputed_trades: saturating_count(q.disputed_trades, disputed_delta),
                    ..q
                },
                a,
            );
        },
        Call::GetUserReputation { user } => lemma_upgraded(s, user, a),
        _ => {},
    }
}

/// Nobody loses their profile.
pub proof fn law_users_stay_onboarded(i: InvocationView, call: Call, a: AddressView)
    requires
        i.storage.onboarded(a),
    ensures
        i.after(i.step(call)).storage.onboarded(a),
{
    if i.step(call) is Ok {
        law_profile_after_call(i, call, a);
    }
}

/// Address, username and time of registration of a user never change, unless the
/// user becomes the admin by an initialization.
pub proof fn law_identity_is_permanent(i: InvocationView, call: Call, a: AddressView)
    requires
        i.storage.onboarded(a),
        !installs(i, call, a),
    ensures
        ({
            let before = i.storage.profile(a);
            let after = i.after(i.step(call)).storage.profile(a);
            &&& after.address == before.address
            &&& after.username == before.username
            &&& after.registered_at == before.registered_at
        }),
{
    if i.step(call) is Ok {
        law_profile_after_call(i, call, a);
    }
}

/// A user's role changes only by the admin, or when the user becomes the admin by
/// an initialization.
pub proof fn law_role_changes_only_by_admin(i: InvocationView, call: Call, a: AddressView)
    requires
        i.storage.onboarded(a),
        i.after(i.step(call)).storage.profile(a).role != i.storage.profile(a).role,
    ensures
        installs(i, call, a) || (i.admin_refusal() is None && (
        call matches Call::UpdateUserRole { user, new_role } && user == a && new_role == i.after(
            i.step(call),
        ).storage.profile(a).role)),
{
    if i.step(call) is Ok {
        law_profile_after_call(i, call, a);
    }
}

/// The trade counters of a user never go down, unless the user becomes the admin
/// by an initialization.
pub proof fn law_trade_counters_never_decrease(i: InvocationView, call: Call, a: AddressView)
    requires
        i.storage.onboarded(a),
        !installs(i, call, a),
    ensures
        ({
            let before = i.storage.profile(a);
            let after = i.after(i.step(call)).storage.profile(a);
            &&& after.successful_trades >= before.successful_trades
            &&& after.disputed_trades >= before.disputed_trades
        }),
{
    if i.step(call) is Ok {
        law_profile_after_call(i, call, a);
    }
}

/// The trade counters of a user change only by a report of the reporter, or when
/// the user becomes the admin by an initialization.
pub proof fn law_trade_counters_change_only_by_reporter(
    i: InvocationView,
    call: Call,
    a: AddressView,
)
    requires
        i.storage.onboarded(a),
        ({
            let before = i.storage.profile(a);
            let after = i.after(i.step(call)).storage.profile(a);
            ||| after.successful_trades != before.successful_trades
            ||| after.disputed_trades != before.disputed_trades
        }),
    ensures
        installs(i, call, a) || (i.reporter_refusal() is None && (
        call matches Call::UpdateReputation { user, .. } && user == a)),
{
    if i.step(call) is Ok {
        law_profile_after_call(i, call, a);
    }
}

/// A verified user stays verified until the admin rejects a request of theirs.
pub proof fn law_only_rejection_ends_verification(i: InvocationView, call: Call, a: AddressView)
    requires
        i.storage.onboarded(a),
        i.storage.profile(a).is_verified,
        !i.after(i.step(call)).storage.profile(a).is_verified,
    ensures
        i.admin_refusal() is None,
        call == (Call::ProcessVerificationRequest { user: a, approve: false }),
{
    if i.step(call) is Ok {
        law_profile_after_call(i, call, a);
    }
}

/// A user becomes verified by the admin, by metrics that reach the thresholds, or
/// by becoming the admin in an initialization.
pub proof fn law_ways_to_become_verified(i: InvocationView, call: Call, a: AddressView)
    requires
        i.storage.onboarded(a),
        !i.storage.profile(a).is_verified,
        i.after(i.step(call)).storage.profile(a).is_verified,
    ensures
        ({
            let after = i.after(i.step(call)).storage;
            ||| installs(i, call, a)
            ||| i.admin_refusal() is None && (call == (Call::VerifyUser { user: a }) || call == (
            Call::ProcessVerificationRequest { user: a, approve: true }))
            ||| i.storage.config->0.qualifies(after.metrics_of(a)) && (call == (
            Call::AutoVerifyUser { user: a }) || (i.reporter_refusal() is None && (
            call matches Call::UpdateUserMetrics { user, .. } && user == a)))
        }),
{
    if i.step(call) is Ok {
        law_profile_after_call(i, call, a);
    }
}

/// Whenever a user becomes verified, but for an initialization, the call
/// publishes it.
pub proof fn law_verification_is_published(i: InvocationView, call: Call, a: AddressView)
    requires
        i.storage.onboarded(a),
        !i.storage.profile(a).is_verified,
        i.after(i.step(call)).storage.profile(a).is_verified,
        !installs(i, call, a),
    ensures
        i.step(call) is Ok,
        i.step(call)->Ok_0.effects.contains(EffectView::Publish(EventView::UserVerified(a))),
{
    if i.step(call) is Ok {
        law_profile_after_call(i, call, a);
    }
    let effects = i.step(call)->Ok_0.effects;
    let event = EffectView::Publish(EventView::UserVerified(a));
    assert(effects.last() == event);
    assert(effects[effects.len() - 1] == event);
}

/// Somebody new enters the registry only by their own onboarding, or as the admin
/// by an initialization.
pub proof fn law_users_register_themselves(i: InvocationView, call: Call, a: AddressView)
    requires
        !i.storage.onboarded(a),
        i.after(i.step(call)).storage.onboarded(a),
    ensures
        i.signed_by(a),
        installs(i, call, a) || (call matches Call::OnboardUser { user, .. } && user == a),
{
}

} // verus!
