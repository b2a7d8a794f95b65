//! Laws of effects: what a call does to its host, and what it needs from it.

use vstd::prelude::*;

use crate::calls::{touches, Call};
use crate::invocation::{extension, written, EffectView, EventView, InvocationView};
use crate::model::{metrics_plus, saturating_count};
use crate::storage::{DataKeyView, StorageView};
use crate::types::{AddressView, OnboardingConfigView, UserMetrics, UserProfileView};
use crate::username::normalized_name;

verus! {

/// The keys of the entries that a call is about.
pub type Scope = spec_fn(DataKeyView) -> bool;

/// Whether the `n`th effect is in order, given the storage that the call leaves: a
/// key that it names is in scope and has an entry, an extension has the standard
/// values, and a write is followed by the extension of what was written.
pub open spec fn sound_effect(
    effects: Seq<EffectView>,
    n: int,
    left: StorageView,
    scope: Scope,
) -> bool {
    match effects[n] {
        EffectView::Store(key) => {
            &&& scope(key)
            &&& left.has(key)
            &&& n + 1 < effects.len()
            &&& effects[n + 1] == extension(key)
        },
        EffectView::ExtendTtl { key, .. } => {
            &&& scope(key)
            &&& left.has(key)
            &&& effects[n] == extension(key)
        },
        EffectView::Publish(_) => true,
    }
}

/// Whether all effects are in order.
pub open spec fn sound(effects: Seq<EffectView>, left: StorageView, scope: Scope) -> bool {
    forall|n: int| 0 <= n < effects.len() ==> #[trigger] sound_effect(effects, n, left, scope)
}

proof fn lemma_sound_cat(a: Seq<EffectView>, b: Seq<EffectView>, left: StorageView, scope: Scope)
    requires
        sound(a, left, scope),
        sound(b, left, scope),
    ensures
        sound(a + b, left, scope),
{
    assert forall|n: int| 0 <= n < (a + b).len() implies #[trigger] sound_effect(
        a + b,
        n,
        left,
        scope,
    ) by {
        if n < a.len() {
            assert(sound_effect(a, n, left, scope));
        } else {
            assert(sound_effect(b, n - a.len(), left, scope));
        }
    }
}

proof fn lemma_sound_parts(left: StorageView, scope: Scope)
    ensures
        sound(Seq::empty(), left, scope),
        forall|k: DataKeyView|
            left.has(k) && scope(k) ==> sound(seq![#[trigger] extension(k)], left, scope),
        forall|k: DataKeyView|
            left.has(k) && scope(k) ==> sound(#[trigger] written(k), left, scope),
{
    assert forall|k: DataKeyView| left.has(k) && scope(k) implies sound(
        #[trigger] written(k),
        left,
        scope,
    ) by {
        assert forall|n: int| 0 <= n < written(k).len() implies #[trigger] sound_effect(
            written(k),
            n,
            left,
            scope,
        ) by {
            assert(n == 0 || n == 1);
        }
    }
}

proof fn lemma_sound_publish(event: EventView, left: StorageView, scope: Scope)
    ensures
        sound(seq![EffectView::Publish(event)], left, scope),
{
}

proof fn lemma_sound_lookup(s: StorageView, a: AddressView, left: StorageView, scope: Scope)
    requires
        scope(DataKeyView::UserProfile(a)),
        s.onboarded(a) ==> left.onboarded(a),
    ensures
        sound(s.upgrade(a), left, scope),
        sound(s.lookup(a), left, scope),
{
    lemma_sound_parts(left, scope);
    if s.onboarded(a) {
        let key = DataKeyView::UserProfile(a);
        assert(left.has(key));
        lemma_sound_cat(s.upgrade(a), seq![extension(key)], left, scope);
        assert(s.lookup(a) =~= s.upgrade(a) + seq![extension(key)]);
    }
}

proof fn lemma_sound_edit(
    i: InvocationView,
    user: AddressView,
    p: UserProfileView,
    left: StorageView,
    scope: Scope,
)
    requires
        scope(DataKeyView::Config),
        scope(DataKeyView::UserProfile(user)),
        left.config is Some,
        left.onboarded(user),
    ensures
        sound(i.edit_user(user, p).effects, left, scope),
{
    let key = DataKeyView::UserProfile(user);
    let read = seq![extension(DataKeyView::Config)];
    lemma_sound_parts(left, scope);
    assert(left.has(DataKeyView::Config));
    assert(left.has(key));
    lemma_sound_lookup(i.storage, user, left, scope);
    lemma_sound_cat(read, i.storage.lookup(user), left, scope);
    lemma_sound_cat(read + i.storage.lookup(user), written(key), left, scope);
}

proof fn lemma_sound_auto_verify(
    s: StorageView,
    user: AddressView,
    config: OnboardingConfigView,
    metrics: UserMetrics,
    now: u64,
    scope: Scope,
)
    requires
        scope(DataKeyView::UserProfile(user)),
        scope(DataKeyView::VerificationHistory(user)),
    ensures
        sound(
            s.auto_verify(user, config, metrics, now).effects,
            s.auto_verify(user, config, metrics, now).storage,
            scope,
        ),
{
    let left = s.auto_verify(user, config, metrics, now).storage;
    lemma_sound_parts(left, scope);
    lemma_sound_lookup(s, user, left, scope);
    if s.due(user, config, metrics) {
        let event = EventView::UserVerified(user);
        let profile = written(DataKeyView::UserProfile(user));
        let history = written(DataKeyView::VerificationHistory(user));
        assert(left.has(DataKeyView::UserProfile(user)));
        assert(left.has(DataKeyView::VerificationHistory(user)));
        lemma_sound_publish(event, left, scope);
        lemma_sound_cat(s.upgrade(user), profile, left, scope);
        lemma_sound_cat(s.upgrade(user) + profile, history, left, scope);
        lemma_sound_cat(
            s.upgrade(user) + profile + history,
            seq![EffectView::Publish(event)],
            left,
            scope,
        );
    }
}

/// All that an accepted call does is in order: it names only entries that it is
/// about and that storage has once the call is done, it extends TTLs by the
/// standard values, and it extends the TTL of everything it writes.
pub proof fn law_effects_are_sound(i: InvocationView, call: Call)
    requires
        i.step(call) is Ok,
    ensures
        sound(
            i.step(call)->Ok_0.effects,
            i.after(i.step(call)).storage,
            |key: DataKeyView| touches(i.storage, call, key),
        ),
{
    let scope = |key: DataKeyView| touches(i.storage, call, key);
    let s = i.storage;
    let left = i.after(i.step(call)).storage;
    let effects = i.step(call)->Ok_0.effects;
    let config = DataKeyView::Config;
    lemma_sound_parts(left, scope);
    match call {
        Call::Initialize { admin } => {
            let profile = DataKeyView::UserProfile(admin);
            let name = DataKeyView::Username("admin"@);
            assert(left.has(config) && left.has(profile) && left.has(name));
            lemma_sound_cat(written(config), written(profile), left, scope);
            lemma_sound_cat(written(config) + written(profile), written(name), left, scope);
        },
        Call::OnboardUser { user, username, role } => {
            let profile = DataKeyView::UserProfile(user);
            let name = DataKeyView::Username(normalized_name(username));
            let event = EventView::UserOnboarded(user);
            let read = seq![extension(config)];
            assert(left.has(config) && left.has(profile) && left.has(name));
            lemma_sound_publish(event, left, scope);
            lemma_sound_cat(read, written(profile), left, scope);
            lemma_sound_cat(read + written(profile), written(name), left, scope);
            lemma_sound_cat(
                read + written(profile) + written(name),
                seq![EffectView::Publish(event)],
                left,
                scope,
            );
        },
        Call::GetUser { user } => lemma_sound_lookup(s, user, left, scope),
        Call::GetUserByUsername { username } => {
            let name = normalized_name(username);
            assert(left.has(DataKeyView::Username(name)));
            lemma_sound_lookup(s, s.usernames[name], left, scope);
            lemma_sound_cat(
                seq![extension(DataKeyView::Username(name))],
                s.lookup(s.usernames[name]),
                left,
                scope,
            );
        },
        Call::IsUsernameTaken { username } => {
            let name = normalized_name(username);
            assert(left.has(DataKeyView::Username(name)) == s.usernames.contains_key(name));
        },
        Call::IsOnboarded { user } => lemma_sound_lookup(s, user, left, scope),
        Call::GetUserRole { user } => lemma_sound_lookup(s, user, left, scope),
        Call::UpdateUserRole { user, new_role } => {
            let p = UserProfileView { role: new_role, ..s.profile(user) };
            let event = EventView::RoleUpdated(user);
            lemma_sound_edit(i, user, p, left, scope);
            lemma_sound_publish(event, left, scope);
            lemma_sound_cat(
                i.edit_user(user, p).effects,
                seq![EffectView::Publish(event)],
                left,
                scope,
            );
            assert(effects =~= i.edit_user(user, p).effects + seq![EffectView::Publish(event)]);
        },
        Call::VerifyUser { user } => {
            let p = UserProfileView { is_verified: true, ..s.profile(user) };
            let event = EventView::UserVerified(user);
            lemma_sound_edit(i, user, p, left, scope);
            lemma_sound_publish(event, left, scope);
            lemma_sound_cat(
                i.edit_user(user, p).effects,
                seq![EffectView::Publish(event)],
                left,
                scope,
            );
            assert(effects =~= i.edit_user(user, p).effects + seq![EffectView::Publish(event)]);
        },
        Call::GetConfig => {
            assert(left.has(config));
        },
        Call::HasRole { user, .. } => lemma_sound_lookup(s, user, left, scope),
        Call::IsVerified { user } => lemma_sound_lookup(s, user, left, scope),
        Call::SetEscrowContract { .. } => {
            assert(left.has(config));
            lemma_sound_cat(seq![extension(config)], written(config), left, scope);
        },
        Call::SetVerificationThresholds { .. } => {
            assert(left.has(config));
            lemma_sound_cat(seq![extension(config)], written(config), left, scope);
        },
        Call::GetUserMetrics { user } => {
            assert(left.has(DataKeyView::UserMetrics(user)) == s.metrics.contains_key(user));
        },
        Call::UpdateUserMetrics { user, escrow_count_delta, volume_delta } => {
            let metrics = metrics_plus(s.metrics_of(user), escrow_count_delta, volume_delta);
            let counted = StorageView { metrics: s.metrics.insert(user, metrics), ..s };
            let key = DataKeyView::UserMetrics(user);
            let read = seq![extension(config)];
            assert(left.has(config));
            assert(left.has(key));
            lemma_sound_auto_verify(counted, user, s.config->0, metrics, i.timestamp, scope);
            lemma_sound_cat(read, written(key), left, scope);
            lemma_sound_cat(
                read + written(key),
                counted.auto_verify(user, s.config->0, metrics, i.timestamp).effects,
                left,
                scope,
            );
        },
        Call::AutoVerifyUser { user } => {
            let seen = s.upgraded(user);
            let metrics = s.metrics_of(user);
            let read = seq![extension(config)];
            assert(left.has(config));
            lemma_sound_lookup(s, user, left, scope);
            lemma_sound_auto_verify(seen, user, s.config->0, metrics, i.timestamp, scope);
            lemma_sound_cat(read, s.lookup(user), left, scope);
            lemma_sound_cat(
                read + s.lookup(user),
                seen.auto_verify(user, s.config->0, metrics, i.timestamp).effects,
                left,
                scope,
            );
        },
        Call::RequestVerification { user } => {
            let queue = DataKeyView::VerificationQueue;
            let history = DataKeyView::VerificationHistory(user);
            if !s.pending().contains(user) {
                assert(left.has(queue) && left.has(history));
                lemma_sound_cat(written(queue), written(history), left, scope);
            }
        },
        Call::ProcessVerificationRequest { user, approve } => {
            let p = UserProfileView { is_verified: approve, ..s.profile(user) };
            let edit = i.edit_user(user, p).effects;
            let queue = written(DataKeyView::VerificationQueue);
            let history = written(DataKeyView::VerificationHistory(user));
            let event = EventView::UserVerified(user);
            assert(left.has(DataKeyView::VerificationQueue));
            assert(left.has(DataKeyView::VerificationHistory(user)));
            lemma_sound_edit(i, user, p, left, scope);
            lemma_sound_publish(event, left, scope);
            lemma_sound_cat(edit, queue, left, scope);
            lemma_sound_cat(edit + queue, history, left, scope);
            lemma_sound_cat(edit + queue + history, seq![EffectView::Publish(event)], left, scope);
            lemma_sound_cat(edit + queue + history, Seq::empty(), left, scope);
        },
        Call::GetVerificationHistory { user } => {
            let history = DataKeyView::VerificationHistory(user);
            assert(left.has(history) == s.histories.contains_key(user));
        },
        Call::GetVerificationQueue => {
            assert(left.has(DataKeyView::VerificationQueue) == s.queue is Some);
        },
        Call::UpdateReputation { user, successful_delta, disputed_delta } => {
            assert(left.has(config));
            if s.onboarded(user) {
                let q = s.profile(user);
                let p = UserProfileView {
                    successful_trades: saturating_count(q.successful_trades, successful_delta),
                    disputed_trades: saturating_count(q.disputed_trades, disputed_delta),
                    ..q
                };
                lemma_sound_edit(i, user, p, left, scope);
            }
        },
        Call::GetUserReputation { user } => lemma_sound_lookup(s, user, left, scope),
    }
}

/// Whether the effects include a write of the entry under `key`.
pub open spec fn stores(effects: Seq<EffectView>, key: DataKeyView) -> bool {
    effects.contains(EffectView::Store(key))
}

proof fn lemma_stores_cat(a: Seq<EffectView>, b: Seq<EffectView>, key: DataKeyView)
    ensures
        stores(a, key) || stores(b, key) ==> stores(a + b, key),
{
    let e = EffectView::Store(key);
    if a.contains(e) {
        let n = choose|n: int| 0 <= n < a.len() && a[n] == e;
        assert((a + b)[n] == e);
    }
    if b.contains(e) {
        let n = choose|n: int| 0 <= n < b.len() && b[n] == e;
        assert((a + b)[a.len() + n] == e);
    }
}

proof fn lemma_stores_written(key: DataKeyView)
    ensures
        stores(written(key), key),
{
    assert(written(key)[0] == EffectView::Store(key));
}

/// Reading a profile writes whatever it changes.
proof fn lemma_stores_upgrade(s: StorageView, a: AddressView, key: DataKeyView)
    ensures
        s.upgraded(a).entry(key) != s.entry(key) ==> stores(s.upgrade(a), key) && stores(
            s.lookup(a),
            key,
        ),
{
    if s.outdated(a) {
        let profile = DataKeyView::UserProfile(a);
        lemma_stores_written(profile);
        lemma_stores_cat(s.upgrade(a), seq![extension(profile)], profile);
        assert(s.lookup(a) =~= s.upgrade(a) + seq![extension(profile)]);
    }
}

proof fn lemma_stores_edit(i: InvocationView, user: AddressView, p: UserProfileView)
    ensures
        stores(i.edit_user(user, p).effects, DataKeyView::UserProfile(user)),
{
    let key = DataKeyView::UserProfile(user);
    lemma_stores_written(key);
    lemma_stores_cat(
        seq![extension(DataKeyView::Config)] + i.storage.lookup(user),
        written(key),
        key,
    );
}

proof fn lemma_stores_auto_verify(
    s: StorageView,
    user: AddressView,
    config: OnboardingConfigView,
    metrics: UserMetrics,
    now: u64,
    key: DataKeyView,
)
    ensures
        ({
            let check = s.auto_verify(user, config, metrics, now);
            check.storage.entry(key) != s.entry(key) ==> stores(check.effects, key)
        }),
{
    let check = s.auto_verify(user, config, metrics, now);
    if s.due(user, config, metrics) {
        let read = s.upgrade(user);
        let profile = DataKeyView::UserProfile(user);
        let history = DataKeyView::VerificationHistory(user);
        let event = seq![EffectView::Publish(EventView::UserVerified(user))];
        lemma_stores_written(key);
        lemma_stores_cat(read, written(profile), key);
        lemma_stores_cat(read + written(profile), written(history), key);
        lemma_stores_cat(read + written(profile) + written(history), event, key);
    } else {
        lemma_stores_upgrade(s, user, key);
    }
}

/// An accepted call writes every entry that it changes.
pub proof fn law_changed_entries_are_written(i: InvocationView, call: Call, key: DataKeyView)
    requires
        i.step(call) is Ok,
        i.after(i.step(call)).storage.entry(key) != i.storage.entry(key),
    ensures
        stores(i.step(call)->Ok_0.effects, key),
{
    let s = i.storage;
    let effects = i.step(call)->Ok_0.effects;
    let config = DataKeyView::Config;
    let read = seq![extension(config)];
    lemma_stores_written(key);
    match call {
        Call::Initialize { admin } => {
            let profile = DataKeyView::UserProfile(admin);
            let name = DataKeyView::Username("admin"@);
            lemma_stores_cat(written(config), written(profile), key);
            lemma_stores_cat(written(config) + written(profile), written(name), key);
        },
        Call::OnboardUser { user, username, role } => {
            let profile = DataKeyView::UserProfile(user);
            let name = DataKeyView::Username(normalized_name(username));
            let event = seq![EffectView::Publish(EventView::UserOnboarded(user))];
            lemma_stores_cat(read, written(profile), key);
            lemma_stores_cat(read + written(profile), written(name), key);
            lemma_stores_cat(read + written(profile) + written(name), event, key);
        },
        Call::GetUser { user } => lemma_stores_upgrade(s, user, key),
        Call::GetUserByUsername { username } => {
            let name = normalized_name(username);
            let owner = s.usernames[name];
            lemma_stores_upgrade(s, owner, key);
            lemma_stores_cat(seq![extension(DataKeyView::Username(name))], s.lookup(owner), key);
        },
        Call::IsUsernameTaken { .. } => {},
        Call::IsOnboarded { user } => lemma_stores_upgrade(s, user, key),
        Call::GetUserRole { user } => lemma_stores_upgrade(s, user, key),
        Call::UpdateUserRole { user, new_role } => {
            let p = UserProfileView { role: new_role, ..s.profile(user) };
            let event = EffectView::Publish(EventView::RoleUpdated(user));
            lemma_stores_edit(i, user, p);
            lemma_stores_cat(i.edit_user(user, p).effects, seq![event], key);
            assert(effects =~= i.edit_user(user, p).effects + seq![event]);
        },
        Call::VerifyUser { user } => {
            let p = UserProfileView { is_verified: true, ..s.profile(user) };
            let event = EffectView::Publish(EventView::UserVerified(user));
            lemma_stores_edit(i, user, p);
            lemma_stores_cat(i.edit_user(user, p).effects, seq![event], key);
            assert(effects =~= i.edit_user(user, p).effects + seq![event]);
        },
        Call::GetConfig => {},
        Call::HasRole { user, .. } => lemma_stores_upgrade(s, user, key),
        Call::IsVerified { user } => lemma_stores_upgrade(s, user, key),
        Call::SetEscrowContract { .. } => lemma_stores_cat(read, written(config), key),
        Call::SetVerificationThresholds { .. } => lemma_stores_cat(read, written(config), key),
        Call::GetUserMetrics { .. } => {},
        Call::UpdateUserMetrics { user, escrow_count_delta, volume_delta } => {
            let metrics = metrics_plus(s.metrics_of(user), escrow_count_delta, volume_delta);
            let counted = StorageView { metrics: s.metrics.insert(user, metrics), ..s };
            let mine = DataKeyView::UserMetrics(user);
            lemma_stores_auto_verify(counted, user, s.config->0, metrics, i.timestamp, key);
            lemma_stores_cat(read, written(mine), key);
            lemma_stores_cat(
                read + written(mine),
                counted.auto_verify(user, s.config->0, metrics, i.timestamp).effects,
                key,
            );
        },
        Call::AutoVerifyUser { user } => {
            let seen = s.upgraded(user);
            let metrics = s.metrics_of(user);
            lemma_stores_upgrade(s, user, key);
            lemma_stores_auto_verify(seen, user, s.config->0, metrics, i.timestamp, key);
            lemma_stores_cat(read, s.lookup(user), key);
            lemma_stores_cat(
                read + s.lookup(user),
                seen.auto_verify(user, s.config->0, metrics, i.timestamp).effects,
                key,
            );
        },
        Call::RequestVerification { user } => {
            lemma_stores_cat(
                written(DataKeyView::VerificationQueue),
                written(DataKeyView::VerificationHistory(user)),
                key,
            );
        },
        Call::ProcessVerificationRequest { user, approve } => {
            let p = UserProfileView { is_verified: approve, ..s.profile(user) };
            let edit = i.edit_user(user, p).effects;
            let queue = written(DataKeyView::VerificationQueue);
            let history = written(DataKeyView::VerificationHistory(user));
            let event = seq![EffectView::Publish(EventView::UserVerified(user))];
            lemma_stores_edit(i, user, p);
            lemma_stores_cat(edit, queue, key);
            lemma_stores_cat(edit + queue, history, key);
            lemma_stores_cat(edit + queue + history, event, key);
            lemma_stores_cat(edit + queue + history, Seq::empty(), key);
        },
        Call::GetVerificationHistory { .. } => {},
        Call::GetVerificationQueue => {},
        Call::UpdateReputation { user, successful_delta, disputed_delta } => {
            if s.onboarded(user) {
                let q = s.profile(user);
                let p = UserProfileView {
                    successful_trades: saturating_count(q.successful_trades, successful_delta),
                    disputed_trades: saturating_count(q.disputed_trades, disputed_delta),
                    ..q
                };
                lemma_stores_edit(i, user, p);
            }
        },
        Call::GetUserReputation { user } => lemma_stores_upgrade(s, user, key),
    }
}

} // verus!
