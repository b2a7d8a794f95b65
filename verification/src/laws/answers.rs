//! Laws of answers: what each question is answered, in terms of what storage
//! holds, and how the answers to different questions agree.

use vstd::prelude::*;

use crate::invocation::InvocationView;
use crate::types::{AddressView, UserProfileView, UserRole};
use crate::username::normalized_name;

verus! {

/// `get_user` answers every field of the profile as it is stored, and the current
/// schema version where none is stored.
pub proof fn law_lookup_answers_stored_profile(i: InvocationView, user: AddressView)
    requires
        i.get_user(user) is Ok,
    ensures
        ({
            let stored = i.storage.profiles[user];
            i.get_user(user)->Ok_0.value == UserProfileView {
                version: match stored.version {
                    Some(version) => version,
                    None => 2,
                },
                address: stored.address,
                role: stored.role,
                username: stored.username,
                registered_at: stored.registered_at,
                is_verified: stored.is_verified,
                successful_trades: stored.successful_trades,
                disputed_trades: stored.disputed_trades,
            }
        }),
{
}

/// Looking a user up by username answers exactly what looking up the owner by
/// address answers, in every state.
pub proof fn law_lookup_by_username_agrees_with_lookup(i: InvocationView, username: Seq<u8>)
    requires
        i.get_user_by_username(username) is Ok,
    ensures
        ({
            let owner = i.storage.usernames[normalized_name(username)];
            &&& i.storage.usernames.contains_key(normalized_name(username))
            &&& i.get_user(owner) is Ok
            &&& i.get_user_by_username(username)->Ok_0.value == i.get_user(owner)->Ok_0.value
            &&& i.get_user_by_username(username)->Ok_0.storage == i.get_user(owner)->Ok_0.storage
        }),
{
}

/// A username is taken exactly when the index has an owner for its normalized
/// form; a username by which somebody is found is taken.
pub proof fn law_username_query_answers_index(i: InvocationView, username: Seq<u8>)
    requires
        i.is_username_taken(username) is Ok,
    ensures
        i.is_username_taken(username)->Ok_0.value <==> i.storage.usernames.contains_key(
            normalized_name(username),
        ),
        i.get_user_by_username(username) is Ok ==> i.is_username_taken(username)->Ok_0.value,
{
}

/// The questions about one user agree with the user's profile, and answer nothing
/// of note of an address that has none.
pub proof fn law_questions_agree_with_lookup(i: InvocationView, user: AddressView)
    ensures
        i.is_onboarded(user).value <==> i.get_user(user) is Ok,
        i.get_user(user) matches Ok(o) ==> {
            &&& i.get_user_role(user).value == o.value.role
            &&& i.is_verified(user).value == o.value.is_verified
            &&& i.get_user_reputation(user).value.0 == o.value.successful_trades
            &&& i.get_user_reputation(user).value.1 == o.value.disputed_trades
        },
        i.get_user(user) is Err ==> {
            &&& i.get_user_role(user).value is NoRole
            &&& !i.is_verified(user).value
            &&& i.get_user_reputation(user).value.0 == 0
            &&& i.get_user_reputation(user).value.1 == 0
        },
{
}

/// A user has one role and no other: `has_role` answers `true` exactly for the role
/// that `get_user_role` answers.
pub proof fn law_users_have_one_role(
    i: InvocationView,
    user: AddressView,
    role: UserRole,
    other: UserRole,
)
    ensures
        i.has_role(user, role).value <==> i.get_user_role(user).value == role,
        i.has_role(user, role).value && i.has_role(user, other).value ==> role == other,
        i.has_role(user, UserRole::NoRole).value || i.has_role(user, UserRole::Buyer).value
            || i.has_role(user, UserRole::Artisan).value || i.has_role(
            user,
            UserRole::Admin,
        ).value,
{
}

/// A user who has just been given a role has none of the others.
pub proof fn law_role_update_replaces_role(
    i: InvocationView,
    user: AddressView,
    new_role: UserRole,
    j: InvocationView,
    role: UserRole,
)
    requires
        i.update_user_role(user, new_role) is Ok,
        j.storage == i.update_user_role(user, new_role)->Ok_0.storage,
    ensures
        j.has_role(user, role).value <==> role == new_role,
{
}

/// `get_config` answers the configuration as it is stored.
pub proof fn law_config_query_answers_stored_config(i: InvocationView)
    requires
        i.get_config() is Ok,
    ensures
        Some(i.get_config()->Ok_0.value) == i.storage.config,
{
}

/// `get_user_metrics` answers what is stored, and zeros where nothing is.
pub proof fn law_metrics_query_answers_stored_metrics(i: InvocationView, user: AddressView)
    ensures
        i.storage.metrics.contains_key(user) ==> i.get_user_metrics(user).value
            == i.storage.metrics[user],
        !i.storage.metrics.contains_key(user) ==> {
            &&& i.get_user_metrics(user).value.total_escrow_count == 0
            &&& i.get_user_metrics(user).value.total_volume == 0
        },
{
}

/// `get_verification_history` answers what is stored, and no entry where nothing is.
pub proof fn law_history_query_answers_stored_history(i: InvocationView, user: AddressView)
    ensures
        i.storage.histories.contains_key(user) ==> i.get_verification_history(user).value
            == i.storage.histories[user],
        !i.storage.histories.contains_key(user) ==> i.get_verification_history(user).value.len()
            == 0,
{
}

/// `get_verification_queue` answers what is stored, and nobody where nothing is.
pub proof fn law_queue_query_answers_stored_queue(i: InvocationView)
    ensures
        i.storage.queue matches Some(queue) ==> i.get_verification_queue().value == queue,
        i.storage.queue is None ==> i.get_verification_queue().value.len() == 0,
{
}

/// `auto_verify_user` answers `true` exactly for a user who was not verified and
/// whose stored metrics reach both stored thresholds.
pub proof fn law_auto_verification_answers_by_thresholds(i: InvocationView, user: AddressView)
    requires
        i.auto_verify_user(user) is Ok,
    ensures
        ({
            let metrics = i.get_user_metrics(user).value;
            let config = i.storage.config->0;
            i.auto_verify_user(user)->Ok_0.value <==> !i.storage.profiles[user].is_verified
                && metrics.total_escrow_count >= config.min_escrow_count_for_verify
                && metrics.total_volume >= config.min_volume_for_verify
        }),
{
}

} // verus!
