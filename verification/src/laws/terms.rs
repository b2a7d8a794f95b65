//! Laws of terms: what the words mean in which contracts and laws are stated.

use vstd::prelude::*;

use crate::error::OnboardingError;
use crate::invocation::{
    extension, written, Effect, EffectView, Event, EventView, Invocation, InvocationView,
    TTL_EXTENSION, TTL_THRESHOLD,
};
use crate::model::{answer, answered, Outcome};
use crate::storage::{DataKey, DataKeyView, Storage, StorageView};
use crate::types::{
    Address, AddressView, OnboardingConfig, OnboardingConfigView, ProfileRecord, UserMetrics,
    UserProfile, UserRole, VerificationEntry, SCHEMA_VERSION,
};

verus! {

/// Profiles are written in schema version 2; entries live on for 518,400 ledgers
/// once less than 10,000 are left to them.
pub proof fn law_constants()
    ensures
        SCHEMA_VERSION == 2,
        TTL_THRESHOLD == 10_000,
        TTL_EXTENSION == 518_400,
{
}

/// The view of a profile has the profile's fields.
pub proof fn law_view_of_profile(p: UserProfile)
    ensures
        p.deep_view() == p@,
        p@.version == p.version,
        p@.address == p.address.strkey@,
        p@.role == p.role,
        p@.username == p.username@,
        p@.registered_at == p.registered_at,
        p@.is_verified == p.is_verified,
        p@.successful_trades == p.successful_trades,
        p@.disputed_trades == p.disputed_trades,
{
}

/// The view of a stored profile has the stored fields.
pub proof fn law_view_of_record(r: ProfileRecord)
    ensures
        r.deep_view() == r@,
        r@.version == r.version,
        r@.address == r.address.strkey@,
        r@.role == r.role,
        r@.username == r.username@,
        r@.registered_at == r.registered_at,
        r@.is_verified == r.is_verified,
        r@.successful_trades == r.successful_trades,
        r@.disputed_trades == r.disputed_trades,
{
}

/// The view of a configuration has the configuration's fields.
pub proof fn law_view_of_config(c: OnboardingConfig)
    ensures
        c.deep_view() == c@,
        c@.require_username == c.require_username,
        c@.min_username_length == c.min_username_length,
        c@.max_username_length == c.max_username_length,
        c@.platform_admin == c.platform_admin.strkey@,
        c@.min_escrow_count_for_verify == c.min_escrow_count_for_verify,
        c@.min_volume_for_verify == c.min_volume_for_verify,
        c.escrow_contract matches Some(a) ==> c@.escrow_contract == Some(a.strkey@),
        c.escrow_contract is None ==> c@.escrow_contract is None,
{
}

/// The view of a history entry has the entry's fields.
pub proof fn law_view_of_entry(e: VerificationEntry)
    ensures
        e.deep_view() == e@,
        e@.timestamp == e.timestamp,
        e@.action == e.action@,
        e.by matches Some(a) ==> e@.by == Some(a.strkey@),
        e.by is None ==> e@.by is None,
{
}

/// Addresses, roles and metrics are viewed as what they are.
pub proof fn law_view_of_plain_records(a: Address, role: UserRole, metrics: UserMetrics)
    ensures
        a@ == a.strkey@,
        a.deep_view() == a.strkey@,
        role.deep_view() == role,
        metrics.deep_view() == metrics,
{
}

/// The view of a key names the same entry.
pub proof fn law_view_of_key(a: Address, name: String)
    ensures
        DataKey::UserProfile(a)@ == DataKeyView::UserProfile(a.strkey@),
        DataKey::Username(name)@ == DataKeyView::Username(name@),
        DataKey::Config@ == DataKeyView::Config,
        DataKey::UserMetrics(a)@ == DataKeyView::UserMetrics(a.strkey@),
        DataKey::VerificationQueue@ == DataKeyView::VerificationQueue,
        DataKey::VerificationHistory(a)@ == DataKeyView::VerificationHistory(a.strkey@),
{
}

/// The view of storage has every entry of it.
pub proof fn law_view_of_storage(s: Storage)
    ensures
        s.config matches Some(config) ==> s@.config == Some(config@),
        s.config is None ==> s@.config is None,
        s@.profiles == s.profiles@,
        s@.usernames == s.usernames@,
        s@.metrics == s.metrics@,
        s.queue is Some <==> s@.queue is Some,
        s.queue matches Some(queue) ==> {
            &&& s@.queue->0.len() == queue@.len()
            &&& forall|k: int|
                0 <= k < queue@.len() ==> #[trigger] s@.queue->0[k] == queue@[k].strkey@
        },
        s@.histories == s.histories@,
{
}

/// The view of an invocation has its entries, time, signers and effects.
pub proof fn law_view_of_invocation(i: Invocation)
    ensures
        i@.storage == i.storage@,
        i@.timestamp == i.timestamp,
        i@.signers.len() == i.signers@.len(),
        forall|k: int|
            0 <= k < i.signers@.len() ==> #[trigger] i@.signers[k] == i.signers@[k].strkey@,
        i@.effects.len() == i.effects@.len(),
        forall|k: int| 0 <= k < i.effects@.len() ==> #[trigger] i@.effects[k] == i.effects@[k]@,
{
}

/// The view of an effect is the same effect; so is that of an event.
pub proof fn law_view_of_effect(
    key: DataKey,
    threshold: u32,
    extend_to: u32,
    event: Event,
    a: Address,
)
    ensures
        Effect::Store(key)@ == EffectView::Store(key@),
        (Effect::ExtendTtl { key, threshold, extend_to })@ == (EffectView::ExtendTtl {
            key: key@,
            threshold,
            extend_to,
        }),
        Effect::Publish(event)@ == EffectView::Publish(event@),
        Event::UserOnboarded(a)@ == EventView::UserOnboarded(a.strkey@),
        Event::RoleUpdated(a)@ == EventView::RoleUpdated(a.strkey@),
        Event::UserVerified(a)@ == EventView::UserVerified(a.strkey@),
{
}

/// Events are published under their names, with the address they are about.
pub proof fn law_events_are_published_by_name(user: AddressView)
    ensures
        EventView::UserOnboarded(user).topic() == "UserOnboarded"@,
        EventView::RoleUpdated(user).topic() == "RoleUpdated"@,
        EventView::UserVerified(user).topic() == "UserVerified"@,
        EventView::UserOnboarded(user).user() == user,
        EventView::RoleUpdated(user).user() == user,
        EventView::UserVerified(user).user() == user,
{
}

/// What the host reports of each refusal.
pub proof fn law_refusals_are_reported()
    ensures
        OnboardingError::NotInitialized.text() == "Contract not initialized"@,
        OnboardingError::InvalidRole.text()
            == "Invalid role: can only onboard as Buyer or Artisan"@,
        OnboardingError::UsernameTooShort.text() == "Username too short"@,
        OnboardingError::UsernameTooLong.text() == "Username too long"@,
        OnboardingError::AlreadyOnboarded.text() == "User already onboarded"@,
        OnboardingError::UsernameTaken.text() == "Username already taken"@,
        OnboardingError::UserNotFound.text() == "User not found"@,
        OnboardingError::UsernameNotFound.text() == "Username not found"@,
        OnboardingError::Unauthorized.text() == "Not authorized"@,
{
}

/// The reporter is the registered escrow contract, and the admin while none is
/// registered.
pub proof fn law_reporter(config: OnboardingConfigView)
    ensures
        config.escrow_contract matches Some(contract) ==> config.reporter() == contract,
        config.escrow_contract is None ==> config.reporter() == config.platform_admin,
{
}

/// An accepted call answers its value, leaves its storage, and adds its effects to
/// what was done before; a refused call answers the reason and leaves all as it
/// was. No call changes the time or the signers.
pub proof fn law_outcomes_take_effect<T>(
    i: InvocationView,
    outcome: Outcome<T>,
    error: OnboardingError,
)
    ensures
        answer(Ok(outcome)) == Ok::<T, OnboardingError>(outcome.value),
        answer::<T>(Err(error)) == Err::<T, OnboardingError>(error),
        i.after(Ok(outcome)) == i.done(outcome),
        i.after::<T>(Err(error)) == i,
        i.done(outcome).storage == outcome.storage,
        i.done(outcome).effects == i.effects + outcome.effects,
        i.done(outcome).timestamp == i.timestamp,
        i.done(outcome).signers == i.signers,
{
}

/// What an answer says is the view of the value, or the reason of the refusal.
pub proof fn law_answers_say_values<T: DeepView>(value: T, error: OnboardingError)
    ensures
        answered(Ok(value)) == Ok::<T::V, OnboardingError>(value.deep_view()),
        answered::<T>(Err(error)) == Err::<T::V, OnboardingError>(error),
{
}

/// Storage that holds nothing has no entry.
pub proof fn law_empty_storage_has_no_entries(a: AddressView)
    ensures
        StorageView::empty().config is None,
        StorageView::empty().queue is None,
        !StorageView::empty().profiles.contains_key(a),
        !StorageView::empty().usernames.contains_key(a),
        !StorageView::empty().metrics.contains_key(a),
        !StorageView::empty().histories.contains_key(a),
{
}

/// Writing an entry is the write followed by the extension of its TTL, which has
/// the standard values.
pub proof fn law_writes_extend(key: DataKeyView)
    ensures
        extension(key) == (EffectView::ExtendTtl { key, threshold: 10_000, extend_to: 518_400 }),
        written(key).len() == 2,
        written(key)[0] == EffectView::Store(key),
        written(key)[1] == extension(key),
{
}

} // verus!
