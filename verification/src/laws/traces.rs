//! Laws of traces: all that each accepted call does to its host, in order. The
//! words `extension` and `written` are those of `laws::terms::law_writes_extend`.

use vstd::prelude::*;

use crate::invocation::{extension, written, EffectView, EventView, InvocationView};
use crate::storage::{DataKeyView, StorageView};
use crate::types::{AddressView, UserRole};
use crate::username::normalized_name;

verus! {

/// Reading a profile writes it if it is stored without a version, and does nothing
/// otherwise; looking a user up extends the profile after that, if there is one.
pub proof fn law_trace_of_reading(s: StorageView, user: AddressView)
    ensures
        ({
            let key = DataKeyView::UserProfile(user);
            let known = s.profiles.contains_key(user);
            &&& s.upgrade(user) == if known && s.profiles[user].version is None {
                written(key)
            } else {
                Seq::empty()
            }
            &&& s.lookup(user) == if known {
                s.upgrade(user) + seq![extension(key)]
            } else {
                Seq::empty()
            }
        }),
{
    let key = DataKeyView::UserProfile(user);
    assert(s.upgrade(user).push(extension(key)) =~= s.upgrade(user) + seq![extension(key)]);
}

/// `initialize` writes the configuration, the admin's profile and the username.
pub proof fn law_trace_of_initialization(i: InvocationView, admin: AddressView)
    requires
        i.initialize(admin) is Ok,
    ensures
        i.initialize(admin)->Ok_0.effects == written(DataKeyView::Config) + written(
            DataKeyView::UserProfile(admin),
        ) + written(DataKeyView::Username("admin"@)),
{
}

/// `onboard_user` extends the configuration, writes the profile and the username,
/// and publishes that the user is onboarded.
pub proof fn law_trace_of_onboarding(
    i: InvocationView,
    user: AddressView,
    username: Seq<u8>,
    role: UserRole,
)
    requires
        i.onboard_user(user, username, role) is Ok,
    ensures
        i.onboard_user(user, username, role)->Ok_0.effects == seq![extension(DataKeyView::Config)]
            + written(DataKeyView::UserProfile(user)) + written(
            DataKeyView::Username(normalized_name(username)),
        ) + seq![EffectView::Publish(EventView::UserOnboarded(user))],
{
}

/// A question extends the entries that it finds, and writes nothing but a profile
/// that is stored without a version.
pub proof fn law_trace_of_questions(
    i: InvocationView,
    user: AddressView,
    username: Seq<u8>,
    role: UserRole,
)
    ensures
        ({
            let s = i.storage;
            let name = normalized_name(username);
            let name_key = DataKeyView::Username(name);
            &&& i.get_user(user) matches Ok(o) ==> o.effects == s.lookup(user)
            &&& i.is_onboarded(user).effects == s.lookup(user)
            &&& i.get_user_role(user).effects == s.lookup(user)
            &&& i.has_role(user, role).effects == s.lookup(user)
            &&& i.is_verified(user).effects == s.lookup(user)
            &&& i.get_user_reputation(user).effects == s.lookup(user)
            &&& i.get_user_by_username(username) matches Ok(o) ==> o.effects == seq![
                extension(name_key),
            ] + s.lookup(s.usernames[name])
            &&& i.is_username_taken(username) matches Ok(o) ==> o.effects
                == if s.usernames.contains_key(name) {
                seq![extension(name_key)]
            } else {
                Seq::empty()
            }
            &&& i.get_config() matches Ok(o) ==> o.effects == seq![extension(DataKeyView::Config)]
            &&& i.get_user_metrics(user).effects == if s.metrics.contains_key(user) {
                seq![extension(DataKeyView::UserMetrics(user))]
            } else {
                Seq::empty()
            }
            &&& i.get_verification_history(user).effects == if s.histories.contains_key(user) {
                seq![extension(DataKeyView::VerificationHistory(user))]
            } else {
                Seq::empty()
            }
            &&& i.get_verification_queue().effects == if s.queue is Some {
                seq![extension(DataKeyView::VerificationQueue)]
            } else {
                Seq::empty()
            }
        }),
{
}

/// `update_user_role` and `verify_user` extend the configuration, look the user up,
/// write the profile, and publish the change.
pub proof fn law_trace_of_administration(i: InvocationView, user: AddressView, new_role: UserRole)
    ensures
        ({
            let edit = seq![extension(DataKeyView::Config)] + i.storage.lookup(user) + written(
                DataKeyView::UserProfile(user),
            );
            &&& i.update_user_role(user, new_role) matches Ok(o) ==> o.effects == edit + seq![
                EffectView::Publish(EventView::RoleUpdated(user)),
            ]
            &&& i.verify_user(user) matches Ok(o) ==> o.effects == edit + seq![
                EffectView::Publish(EventView::UserVerified(user)),
            ]
        }),
{
    let edit = seq![extension(DataKeyView::Config)] + i.storage.lookup(user) + written(
        DataKeyView::UserProfile(user),
    );
    let role = EffectView::Publish(EventView::RoleUpdated(user));
    let verified = EffectView::Publish(EventView::UserVerified(user));
    assert(edit.push(role) =~= edit + seq![role]);
    assert(edit.push(verified) =~= edit + seq![verified]);
}

/// A change of the configuration extends it and writes it.
pub proof fn law_trace_of_configuration(
    i: InvocationView,
    contract_address: AddressView,
    min_escrow_count: u32,
    min_volume: i128,
)
    ensures
        ({
            let edit = seq![extension(DataKeyView::Config)] + written(DataKeyView::Config);
            &&& i.set_escrow_contract(contract_address) matches Ok(o) ==> o.effects == edit
            &&& i.set_verification_thresholds(min_escrow_count, min_volume) matches Ok(o)
                ==> o.effects == edit
        }),
{
}

/// A report of metrics extends the configuration, writes the metrics and reads the
/// profile. Where that verifies the user, it also writes the profile and the
/// history, and publishes it.
pub proof fn law_trace_of_report(
    i: InvocationView,
    user: AddressView,
    escrow_count_delta: u32,
    volume_delta: i128,
)
    requires
        i.update_user_metrics(user, escrow_count_delta, volume_delta) is Ok,
    ensures
        ({
            let s = i.storage;
            let o = i.update_user_metrics(user, escrow_count_delta, volume_delta)->Ok_0;
            let verifies = s.profiles.contains_key(user) && !s.profiles[user].is_verified
                && o.storage.profiles[user].is_verified;
            o.effects == seq![extension(DataKeyView::Config)] + written(
                DataKeyView::UserMetrics(user),
            ) + s.upgrade(user) + if verifies {
                written(DataKeyView::UserProfile(user)) + written(
                    DataKeyView::VerificationHistory(user),
                ) + seq![EffectView::Publish(EventView::UserVerified(user))]
            } else {
                Seq::empty()
            }
        }),
{
}

/// A check for auto-verification extends the configuration and looks the user up.
/// Where it verifies the user, it also writes the profile and the history, and
/// publishes it.
pub proof fn law_trace_of_auto_verification(i: InvocationView, user: AddressView)
    requires
        i.auto_verify_user(user) is Ok,
    ensures
        i.auto_verify_user(user)->Ok_0.effects == seq![extension(DataKeyView::Config)]
            + i.storage.lookup(user) + if i.auto_verify_user(user)->Ok_0.value {
            written(DataKeyView::UserProfile(user)) + written(
                DataKeyView::VerificationHistory(user),
            ) + seq![EffectView::Publish(EventView::UserVerified(user))]
        } else {
            Seq::empty()
        },
{
}

/// A request writes the queue and the history, unless the user is in the queue
/// already: then it does nothing.
pub proof fn law_trace_of_request(i: InvocationView, user: AddressView)
    requires
        i.request_verification(user) is Ok,
    ensures
        i.request_verification(user)->Ok_0.effects == if i.storage.queue is Some
            && i.storage.queue->0.contains(user) {
            Seq::empty()
        } else {
            written(DataKeyView::VerificationQueue) + written(
                DataKeyView::VerificationHistory(user),
            )
        },
{
}

/// Processing a request extends the configuration, looks the user up, writes the
/// profile, the queue and the history, and publishes an approval.
pub proof fn law_trace_of_processing(i: InvocationView, user: AddressView, approve: bool)
    requires
        i.process_verification_request(user, approve) is Ok,
    ensures
        i.process_verification_request(user, approve)->Ok_0.effects == seq![
            extension(DataKeyView::Config),
        ] + i.storage.lookup(user) + written(DataKeyView::UserProfile(user)) + written(
            DataKeyView::VerificationQueue,
        ) + written(DataKeyView::VerificationHistory(user)) + if approve {
            seq![EffectView::Publish(EventView::UserVerified(user))]
        } else {
            Seq::empty()
        },
{
}

/// A report of reputation extends the configuration, looks the user up, and writes
/// the profile, if there is one.
pub proof fn law_trace_of_reputation(
    i: InvocationView,
    user: AddressView,
    successful_delta: u32,
    disputed_delta: u32,
)
    requires
        i.update_reputation(user, successful_delta, disputed_delta) is Ok,
    ensures
        i.update_reputation(user, successful_delta, disputed_delta)->Ok_0.effects == seq![
            extension(DataKeyView::Config),
        ] + if i.storage.profiles.contains_key(user) {
            i.storage.lookup(user) + written(DataKeyView::UserProfile(user))
        } else {
            Seq::empty()
        },
{
}

} // verus!
