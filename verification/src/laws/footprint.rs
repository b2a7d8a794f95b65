//! Laws of locality: which entries a call looks at.

use vstd::prelude::*;

use crate::calls::{reads, touches, Call};
use crate::invocation::{EffectView, InvocationView};
use crate::laws::effects::{
    law_changed_entries_are_written, law_effects_are_sound, sound_effect, stores,
};
use crate::model::metrics_plus;
use crate::storage::{DataKeyView, StorageView};
use crate::types::{AddressView, OnboardingConfigView, UserMetrics};
use crate::username::normalized_name;

verus! {

/// Whether two invocations look the same to a call: they are at the same time,
/// have the same signers, and have the same entries where the call looks.
pub open spec fn alike(i: InvocationView, j: InvocationView, call: Call) -> bool {
    &&& i.timestamp == j.timestamp
    &&& i.signers == j.signers
    &&& forall|key: DataKeyView|
        reads(i.storage, call, key) ==> #[trigger] i.storage.entry(key) == j.storage.entry(key)
}

proof fn lemma_alike(s: StorageView, t: StorageView, user: AddressView, name: Seq<char>)
    ensures
        s.entry(DataKeyView::Config) == t.entry(DataKeyView::Config) ==> s.config == t.config,
        s.entry(DataKeyView::UserProfile(user)) == t.entry(DataKeyView::UserProfile(user)) ==> {
            &&& s.onboarded(user) == t.onboarded(user)
            &&& s.onboarded(user) ==> s.profiles[user] == t.profiles[user]
            &&& s.upgrade(user) == t.upgrade(user)
            &&& s.lookup(user) == t.lookup(user)
        },
        s.entry(DataKeyView::Username(name)) == t.entry(DataKeyView::Username(name)) ==> {
            &&& s.usernames.contains_key(name) == t.usernames.contains_key(name)
            &&& s.usernames.contains_key(name) ==> s.usernames[name] == t.usernames[name]
        },
        s.entry(DataKeyView::UserMetrics(user)) == t.entry(DataKeyView::UserMetrics(user)) ==> {
            &&& s.metrics.contains_key(user) == t.metrics.contains_key(user)
            &&& s.metrics_of(user) == t.metrics_of(user)
        },
        s.entry(DataKeyView::VerificationQueue) == t.entry(DataKeyView::VerificationQueue)
            ==> s.queue == t.queue,
        s.entry(DataKeyView::VerificationHistory(user)) == t.entry(
            DataKeyView::VerificationHistory(user),
        ) ==> {
            &&& s.histories.contains_key(user) == t.histories.contains_key(user)
            &&& s.history_of(user) == t.history_of(user)
        },
{
}

/// The user and the username that a call is about, where it is about one.
spec fn subject(s: StorageView, call: Call) -> (AddressView, Seq<char>) {
    match call {
        Call::Initialize { admin } => (admin, "admin"@),
        Call::OnboardUser { user, username, .. } => (user, normalized_name(username)),
        Call::GetUser { user } => (user, Seq::empty()),
        Call::GetUserByUsername { username } => (
            s.usernames[normalized_name(username)],
            normalized_name(username),
        ),
        Call::IsUsernameTaken { username } => (Seq::empty(), normalized_name(username)),
        Call::IsOnboarded { user } => (user, Seq::empty()),
        Call::GetUserRole { user } => (user, Seq::empty()),
        Call::UpdateUserRole { user, .. } => (user, Seq::empty()),
        Call::VerifyUser { user } => (user, Seq::empty()),
        Call::GetConfig => (Seq::empty(), Seq::empty()),
        Call::HasRole { user, .. } => (user, Seq::empty()),
        Call::IsVerified { user } => (user, Seq::empty()),
        Call::SetEscrowContract { .. } => (Seq::empty(), Seq::empty()),
        Call::SetVerificationThresholds { .. } => (Seq::empty(), Seq::empty()),
        Call::GetUserMetrics { user } => (user, Seq::empty()),
        Call::UpdateUserMetrics { user, .. } => (user, Seq::empty()),
        Call::AutoVerifyUser { user } => (user, Seq::empty()),
        Call::RequestVerification { user } => (user, Seq::empty()),
        Call::ProcessVerificationRequest { user, .. } => (user, Seq::empty()),
        Call::GetVerificationHistory { user } => (user, Seq::empty()),
        Call::GetVerificationQueue => (Seq::empty(), Seq::empty()),
        Call::UpdateReputation { user, .. } => (user, Seq::empty()),
        Call::GetUserReputation { user } => (user, Seq::empty()),
    }
}

/// What a call finds in invocations that look the same to it.
proof fn lemma_read_alike(i: InvocationView, j: InvocationView, call: Call)
    requires
        alike(i, j, call),
    ensures
        ({
            let s = i.storage;
            let t = j.storage;
            let (user, name) = subject(s, call);
            &&& reads(s, call, DataKeyView::Config) ==> s.config == t.config
            &&& reads(s, call, DataKeyView::UserProfile(user)) ==> {
                &&& s.onboarded(user) == t.onboarded(user)
                &&& s.onboarded(user) ==> s.profiles[user] == t.profiles[user]
                &&& s.upgrade(user) == t.upgrade(user)
                &&& s.lookup(user) == t.lookup(user)
            }
            &&& reads(s, call, DataKeyView::Username(name)) ==> {
                &&& s.usernames.contains_key(name) == t.usernames.contains_key(name)
                &&& s.usernames.contains_key(name) ==> s.usernames[name] == t.usernames[name]
            }
            &&& reads(s, call, DataKeyView::UserMetrics(user)) ==> {
                &&& s.metrics.contains_key(user) == t.metrics.contains_key(user)
                &&& s.metrics_of(user) == t.metrics_of(user)
            }
            &&& reads(s, call, DataKeyView::VerificationQueue) ==> s.queue == t.queue
            &&& reads(s, call, DataKeyView::VerificationHistory(user)) ==> {
                &&& s.histories.contains_key(user) == t.histories.contains_key(user)
                &&& s.history_of(user) == t.history_of(user)
            }
        }),
{
    let s = i.storage;
    let t = j.storage;
    let (user, name) = subject(s, call);
    assert(reads(s, call, DataKeyView::Config) ==> s.entry(DataKeyView::Config) == t.entry(
        DataKeyView::Config,
    ));
    assert(reads(s, call, DataKeyView::UserProfile(user)) ==> s.entry(
        DataKeyView::UserProfile(user),
    ) == t.entry(DataKeyView::UserProfile(user)));
    assert(reads(s, call, DataKeyView::Username(name)) ==> s.entry(DataKeyView::Username(name))
        == t.entry(DataKeyView::Username(name)));
    assert(reads(s, call, DataKeyView::UserMetrics(user)) ==> s.entry(
        DataKeyView::UserMetrics(user),
    ) == t.entry(DataKeyView::UserMetrics(user)));
    assert(reads(s, call, DataKeyView::VerificationQueue) ==> s.entry(
        DataKeyView::VerificationQueue,
    ) == t.entry(DataKeyView::VerificationQueue));
    assert(reads(s, call, DataKeyView::VerificationHistory(user)) ==> s.entry(
        DataKeyView::VerificationHistory(user),
    ) == t.entry(DataKeyView::VerificationHistory(user)));
    lemma_alike(s, t, user, name);
}

/// A call depends on nothing but what it looks at: on invocations that look the
/// same to it, it gives the same answer or the same refusal, and does the same.
#[verifier::rlimit(60)]
pub proof fn law_calls_depend_on_footprint_only(i: InvocationView, j: InvocationView, call: Call)
    requires
        alike(i, j, call),
    ensures
        match (i.step(call), j.step(call)) {
            (Ok(o), Ok(p)) => o.value == p.value && o.effects == p.effects,
            (Err(e), Err(f)) => e == f,
            _ => false,
        },
{
    lemma_read_alike(i, j, call);
}

/// A call writes nothing but entries that it is about.
pub proof fn law_writes_are_in_scope(i: InvocationView, call: Call, key: DataKeyView)
    requires
        i.step(call) is Ok,
        stores(i.step(call)->Ok_0.effects, key),
    ensures
        touches(i.storage, call, key),
{
    let effects = i.step(call)->Ok_0.effects;
    let left = i.after(i.step(call)).storage;
    law_effects_are_sound(i, call);
    let n = choose|n: int| 0 <= n < effects.len() && effects[n] == EffectView::Store(key);
    assert(sound_effect(effects, n, left, |key: DataKeyView| touches(i.storage, call, key)));
}

proof fn lemma_upgraded_alike(s: StorageView, t: StorageView, user: AddressView, key: DataKeyView)
    requires
        s.entry(DataKeyView::UserProfile(user)) == t.entry(DataKeyView::UserProfile(user)),
        s.entry(key) == t.entry(key),
    ensures
        s.upgraded(user).entry(key) == t.upgraded(user).entry(key),
{
    lemma_alike(s, t, user, Seq::empty());
}

proof fn lemma_auto_verify_alike(
    s: StorageView,
    t: StorageView,
    user: AddressView,
    config: OnboardingConfigView,
    metrics: UserMetrics,
    now: u64,
    key: DataKeyView,
)
    requires
        s.entry(DataKeyView::UserProfile(user)) == t.entry(DataKeyView::UserProfile(user)),
        s.history_of(user) == t.history_of(user),
        s.entry(key) == t.entry(key),
    ensures
        s.auto_verify(user, config, metrics, now).storage.entry(key) == t.auto_verify(
            user,
            config,
            metrics,
            now,
        ).storage.entry(key),
{
    lemma_alike(s, t, user, Seq::empty());
    lemma_upgraded_alike(s, t, user, key);
}

/// On invocations that look the same to it, a call leaves the same entries where
/// it is about them, and changes no others.
#[verifier::rlimit(60)]
pub proof fn law_calls_leave_footprint_alike(
    i: InvocationView,
    j: InvocationView,
    call: Call,
    key: DataKeyView,
)
    requires
        alike(i, j, call),
        i.step(call) is Ok,
    ensures
        touches(i.storage, call, key) ==> i.after(i.step(call)).storage.entry(key) == j.after(
            j.step(call),
        ).storage.entry(key),
        !touches(i.storage, call, key) ==> i.after(i.step(call)).storage.entry(key)
            == i.storage.entry(key),
{
    let s = i.storage;
    let t = j.storage;
    let (user, name) = subject(s, call);
    law_calls_depend_on_footprint_only(i, j, call);
    if touches(s, call, key) {
        lemma_read_alike(i, j, call);
        assert(reads(s, call, key) ==> s.entry(key) == t.entry(key));
        match call {
            Call::Initialize { .. } => {},
            Call::OnboardUser { .. } => {},
            Call::GetUser { .. } => lemma_upgraded_alike(s, t, user, key),
            Call::GetUserByUsername { .. } => lemma_upgraded_alike(s, t, user, key),
            Call::IsUsernameTaken { .. } => {},
            Call::IsOnboarded { .. } => lemma_upgraded_alike(s, t, user, key),
            Call::GetUserRole { .. } => lemma_upgraded_alike(s, t, user, key),
            Call::UpdateUserRole { .. } => {},
            Call::VerifyUser { .. } => {},
            Call::GetConfig => {},
            Call::HasRole { .. } => lemma_upgraded_alike(s, t, user, key),
            Call::IsVerified { .. } => lemma_upgraded_alike(s, t, user, key),
            Call::SetEscrowContract { .. } => {},
            Call::SetVerificationThresholds { .. } => {},
            Call::GetUserMetrics { .. } => {},
            Call::UpdateUserMetrics { escrow_count_delta, volume_delta, .. } => {
                let metrics = metrics_plus(s.metrics_of(user), escrow_count_delta, volume_delta);
                let s1 = StorageView { metrics: s.metrics.insert(user, metrics), ..s };
                let t1 = StorageView { metrics: t.metrics.insert(user, metrics), ..t };
                assert(s1.entry(key) == t1.entry(key));
                assert(s1.history_of(user) == t1.history_of(user));
                lemma_auto_verify_alike(s1, t1, user, s.config->0, metrics, i.timestamp, key);
            },
            Call::AutoVerifyUser { .. } => {
                lemma_upgraded_alike(s, t, user, key);
                lemma_upgraded_alike(s, t, user, DataKeyView::UserProfile(user));
                assert(s.upgraded(user).history_of(user) == t.upgraded(user).history_of(user));
                lemma_auto_verify_alike(
                    s.upgraded(user),
                    t.upgraded(user),
                    user,
                    s.config->0,
                    s.metrics_of(user),
                    i.timestamp,
                    key,
                );
            },
            Call::RequestVerification { .. } => {},
            Call::ProcessVerificationRequest { .. } => {},
            Call::GetVerificationHistory { .. } => {},
            Call::GetVerificationQueue => {},
            Call::UpdateReputation { .. } => {},
            Call::GetUserReputation { .. } => lemma_upgraded_alike(s, t, user, key),
        }
    } else if i.after(i.step(call)).storage.entry(key) != s.entry(key) {
        law_changed_entries_are_written(i, call, key);
        law_writes_are_in_scope(i, call, key);
    }
}

} // verus!
