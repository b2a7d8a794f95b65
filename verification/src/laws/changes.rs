//! Laws of change: what each accepted call leaves in storage, entry by entry, and
//! that it leaves everything else alone.

use vstd::prelude::*;

use crate::invocation::InvocationView;
use crate::laws::verification::law_others_is_the_queue_without;
use crate::storage::StorageView;
use crate::types::{
    AddressView, OnboardingConfigView, ProfileRecordView, UserProfileView, UserRole,
    VerificationEntryView,
};
use crate::username::normalized_name;

verus! {

/// `initialize` installs the default rules under the new admin, and registers the
/// admin, verified, under the username "admin".
pub proof fn law_initialization_changes(i: InvocationView, admin: AddressView)
    requires
        i.initialize(admin) is Ok,
    ensures
        ({
            let s = i.storage;
            let t = i.initialize(admin)->Ok_0.storage;
            let config = i.initialize(admin)->Ok_0.value;
            &&& config.require_username
            &&& config.min_username_length == 3
            &&& config.max_username_length == 50
            &&& config.platform_admin == admin
            &&& config.min_escrow_count_for_verify == 5
            &&& config.min_volume_for_verify == 10_000_000_000
            &&& config.escrow_contract is None
            &&& t.config == Some(config)
            &&& t.profiles == s.profiles.insert(
                admin,
                ProfileRecordView {
                    version: Some(2),
                    address: admin,
                    role: UserRole::Admin,
                    username: "admin"@,
                    registered_at: i.timestamp,
                    is_verified: true,
                    successful_trades: 0,
                    disputed_trades: 0,
                },
            )
            &&& t.usernames == s.usernames.insert("admin"@, admin)
            &&& t.metrics == s.metrics
            &&& t.queue == s.queue
            &&& t.histories == s.histories
        }),
{
}

/// `onboard_user` registers the user in the asked role under the normalized
/// username, not verified, with no trades, and as of now.
pub proof fn law_onboarding_changes(
    i: InvocationView,
    user: AddressView,
    username: Seq<u8>,
    role: UserRole,
)
    requires
        i.onboard_user(user, username, role) is Ok,
    ensures
        ({
            let s = i.storage;
            let t = i.onboard_user(user, username, role)->Ok_0.storage;
            let name = normalized_name(username);
            &&& i.onboard_user(user, username, role)->Ok_0.value == (UserProfileView {
                version: 2,
                address: user,
                role,
                username: name,
                registered_at: i.timestamp,
                is_verified: false,
                successful_trades: 0,
                disputed_trades: 0,
            })
            &&& t.profiles == s.profiles.insert(
                user,
                ProfileRecordView {
                    version: Some(2),
                    address: user,
                    role,
                    username: name,
                    registered_at: i.timestamp,
                    is_verified: false,
                    successful_trades: 0,
                    disputed_trades: 0,
                },
            )
            &&& t.usernames == s.usernames.insert(name, user)
            &&& t.config == s.config
            &&& t.metrics == s.metrics
            &&& t.queue == s.queue
            &&& t.histories == s.histories
        }),
{
}

/// A question about a user leaves the user's profile with a version and all other
/// fields as they were, and changes nothing else.
pub proof fn law_questions_about_user_change(
    i: InvocationView,
    user: AddressView,
    role: UserRole,
)
    ensures
        ({
            let s = i.storage;
            let t = StorageView {
                profiles: if s.profiles.contains_key(user) && s.profiles[user].version is None {
                    s.profiles.insert(
                        user,
                        ProfileRecordView { version: Some(2), ..s.profiles[user] },
                    )
                } else {
                    s.profiles
                },
                ..s
            };
            &&& i.get_user(user) matches Ok(o) ==> o.storage == t
            &&& i.is_onboarded(user).storage == t
            &&& i.get_user_role(user).storage == t
            &&& i.has_role(user, role).storage == t
            &&& i.is_verified(user).storage == t
            &&& i.get_user_reputation(user).storage == t
        }),
{
}

/// The other questions change nothing at all.
pub proof fn law_other_questions_change_nothing(
    i: InvocationView,
    user: AddressView,
    username: Seq<u8>,
)
    ensures
        i.is_username_taken(username) matches Ok(o) ==> o.storage == i.storage,
        i.get_config() matches Ok(o) ==> o.storage == i.storage,
        i.get_user_metrics(user).storage == i.storage,
        i.get_verification_history(user).storage == i.storage,
        i.get_verification_queue().storage == i.storage,
{
}

/// `update_user_role` and `verify_user` change the role, or the verification, of
/// the one user, and answer the profile that they leave.
pub proof fn law_administration_changes(i: InvocationView, user: AddressView, new_role: UserRole)
    ensures
        ({
            let s = i.storage;
            let before = s.profiles[user];
            let version = match before.version {
                Some(version) => Some(version),
                None => Some(2u32),
            };
            &&& i.update_user_role(user, new_role) matches Ok(o) ==> {
                &&& o.storage == StorageView {
                    profiles: s.profiles.insert(
                        user,
                        ProfileRecordView { version, role: new_role, ..before },
                    ),
                    ..s
                }
                &&& o.value == UserProfileView {
                    version: version->0,
                    address: before.address,
                    role: new_role,
                    username: before.username,
                    registered_at: before.registered_at,
                    is_verified: before.is_verified,
                    successful_trades: before.successful_trades,
                    disputed_trades: before.disputed_trades,
                }
            }
            &&& i.verify_user(user) matches Ok(o) ==> {
                &&& o.storage == StorageView {
                    profiles: s.profiles.insert(
                        user,
                        ProfileRecordView { version, is_verified: true, ..before },
                    ),
                    ..s
                }
                &&& o.value == UserProfileView {
                    version: version->0,
                    address: before.address,
                    role: before.role,
                    username: before.username,
                    registered_at: before.registered_at,
                    is_verified: true,
                    successful_trades: before.successful_trades,
                    disputed_trades: before.disputed_trades,
                }
            }
        }),
{
}

/// `set_escrow_contract` and `set_verification_thresholds` change the fields that
/// they are named after, and nothing else.
pub proof fn law_configuration_changes(
    i: InvocationView,
    contract_address: AddressView,
    min_escrow_count: u32,
    min_volume: i128,
)
    ensures
        i.set_escrow_contract(contract_address) matches Ok(o) ==> o.storage == (StorageView {
            config: Some(
                OnboardingConfigView {
                    escrow_contract: Some(contract_address),
                    ..i.storage.config->0
                },
            ),
            ..i.storage
        }),
        i.set_verification_thresholds(min_escrow_count, min_volume) matches Ok(o) ==> o.storage == (
        StorageView {
            config: Some(
                OnboardingConfigView {
                    min_escrow_count_for_verify: min_escrow_count,
                    min_volume_for_verify: min_volume,
                    ..i.storage.config->0
                },
            ),
            ..i.storage
        }),
{
}

/// Reported metrics add up: the totals after a report are the integer sums of the
/// totals before and what was reported, wherever the sums can be represented, and
/// otherwise the bound that the sum lies beyond. Nobody else's metrics change.
pub proof fn law_reported_metrics_are_sums(
    i: InvocationView,
    user: AddressView,
    escrow_count_delta: u32,
    volume_delta: i128,
)
    requires
        i.update_user_metrics(user, escrow_count_delta, volume_delta) is Ok,
    ensures
        ({
            let s = i.storage;
            let t = i.update_user_metrics(user, escrow_count_delta, volume_delta)->Ok_0.storage;
            let count = escrow_count_delta + if s.metrics.contains_key(user) {
                s.metrics[user].total_escrow_count as int
            } else {
                0
            };
            let volume = volume_delta + if s.metrics.contains_key(user) {
                s.metrics[user].total_volume as int
            } else {
                0
            };
            &&& t.metrics == s.metrics.insert(user, t.metrics[user])
            &&& count <= u32::MAX ==> t.metrics[user].total_escrow_count == count
            &&& count > u32::MAX ==> t.metrics[user].total_escrow_count == u32::MAX
            &&& i128::MIN <= volume <= i128::MAX ==> t.metrics[user].total_volume == volume
            &&& volume > i128::MAX ==> t.metrics[user].total_volume == i128::MAX
            &&& volume < i128::MIN ==> t.metrics[user].total_volume == i128::MIN
        }),
{
}

/// Two reports in a row amount to one report of the sums, as long as no total is
/// driven to a bound on the way.
pub proof fn law_reported_metrics_accumulate(
    i: InvocationView,
    user: AddressView,
    counts: (u32, u32),
    volumes: (i128, i128),
    j: InvocationView,
    k: InvocationView,
)
    requires
        i.update_user_metrics(user, counts.0, volumes.0) is Ok,
        j.storage == i.update_user_metrics(user, counts.0, volumes.0)->Ok_0.storage,
        j.update_user_metrics(user, counts.1, volumes.1) is Ok,
        k.storage == j.update_user_metrics(user, counts.1, volumes.1)->Ok_0.storage,
        i.get_user_metrics(user).value.total_escrow_count + counts.0 + counts.1 <= u32::MAX,
        i128::MIN <= i.get_user_metrics(user).value.total_volume + volumes.0 <= i128::MAX,
        i128::MIN <= i.get_user_metrics(user).value.total_volume + volumes.0 + volumes.1
            <= i128::MAX,
    ensures
        k.get_user_metrics(user).value.total_escrow_count == i.get_user_metrics(
            user,
        ).value.total_escrow_count + counts.0 + counts.1,
        k.get_user_metrics(user).value.total_volume == i.get_user_metrics(user).value.total_volume
            + volumes.0 + volumes.1,
{
    law_reported_metrics_are_sums(i, user, counts.0, volumes.0);
    law_reported_metrics_are_sums(j, user, counts.1, volumes.1);
}

/// A report verifies an unverified user whose new totals reach both thresholds, and
/// logs it as of now and by nobody; it does nothing else but add up metrics.
pub proof fn law_report_changes(
    i: InvocationView,
    user: AddressView,
    escrow_count_delta: u32,
    volume_delta: i128,
)
    requires
        i.update_user_metrics(user, escrow_count_delta, volume_delta) is Ok,
    ensures
        ({
            let s = i.storage;
            let t = i.update_user_metrics(user, escrow_count_delta, volume_delta)->Ok_0.storage;
            let before = s.profiles[user];
            let known = s.profiles.contains_key(user);
            let reached = t.metrics[user].total_escrow_count
                >= s.config->0.min_escrow_count_for_verify && t.metrics[user].total_volume
                >= s.config->0.min_volume_for_verify;
            let verifies = known && !before.is_verified && reached;
            &&& t.config == s.config
            &&& t.usernames == s.usernames
            &&& t.queue == s.queue
            &&& !known ==> t.profiles == s.profiles
            &&& known ==> t.profiles == s.profiles.insert(
                user,
                ProfileRecordView {
                    version: match before.version {
                        Some(version) => Some(version),
                        None => Some(2),
                    },
                    is_verified: before.is_verified || reached,
                    ..before
                },
            )
            &&& !verifies ==> t.histories == s.histories
            &&& verifies ==> t.histories == s.histories.insert(
                user,
                (if s.histories.contains_key(user) {
                    s.histories[user]
                } else {
                    Seq::empty()
                }).push(
                    VerificationEntryView {
                        timestamp: i.timestamp,
                        action: "auto_verified"@,
                        by: None,
                    },
                ),
            )
        }),
{
    let s = i.storage;
    if s.profiles.contains_key(user) {
        lemma_rewritten(s.profiles, user);
    }
}

/// Writing back what is there changes nothing.
proof fn lemma_rewritten(profiles: Map<AddressView, ProfileRecordView>, user: AddressView)
    requires
        profiles.contains_key(user),
    ensures
        profiles.insert(user, profiles[user]) == profiles,
{
    assert(profiles.insert(user, profiles[user]) =~= profiles);
}

/// `auto_verify_user` verifies an unverified user whose totals reach both
/// thresholds, and logs it as of now and by nobody; it does nothing else.
pub proof fn law_auto_verification_changes(i: InvocationView, user: AddressView)
    requires
        i.auto_verify_user(user) is Ok,
    ensures
        ({
            let s = i.storage;
            let t = i.auto_verify_user(user)->Ok_0.storage;
            let before = s.profiles[user];
            let verifies = i.auto_verify_user(user)->Ok_0.value;
            &&& t.config == s.config
            &&& t.usernames == s.usernames
            &&& t.queue == s.queue
            &&& t.metrics == s.metrics
            &&& t.profiles == s.profiles.insert(
                user,
                ProfileRecordView {
                    version: match before.version {
                        Some(version) => Some(version),
                        None => Some(2),
                    },
                    is_verified: before.is_verified || verifies,
                    ..before
                },
            )
            &&& !verifies ==> t.histories == s.histories
            &&& verifies ==> t.histories == s.histories.insert(
                user,
                (if s.histories.contains_key(user) {
                    s.histories[user]
                } else {
                    Seq::empty()
                }).push(
                    VerificationEntryView {
                        timestamp: i.timestamp,
                        action: "auto_verified"@,
                        by: None,
                    },
                ),
            )
        }),
{
    lemma_rewritten(i.storage.profiles, user);
}

/// `request_verification` puts a user who is not in the queue at its end and logs
/// that, as of now and by the user; for a user who is in the queue it does nothing.
pub proof fn law_request_changes(i: InvocationView, user: AddressView)
    requires
        i.request_verification(user) is Ok,
    ensures
        ({
            let s = i.storage;
            let t = i.request_verification(user)->Ok_0.storage;
            let waiting = match s.queue {
                Some(queue) => queue,
                None => Seq::empty(),
            };
            &&& waiting.contains(user) ==> t == s
            &&& !waiting.contains(user) ==> t == StorageView {
                queue: Some(waiting.push(user)),
                histories: s.histories.insert(
                    user,
                    (if s.histories.contains_key(user) {
                        s.histories[user]
                    } else {
                        Seq::empty()
                    }).push(
                        VerificationEntryView {
                            timestamp: i.timestamp,
                            action: "requested"@,
                            by: Some(user),
                        },
                    ),
                ),
                ..s
            }
        }),
{
}

/// `process_verification_request` makes the user verified or not as the admin
/// decides, logs the decision as of now and by the admin, and leaves a queue in
/// which the user is not; it changes nothing else.
pub proof fn law_processing_changes(i: InvocationView, user: AddressView, approve: bool)
    requires
        i.process_verification_request(user, approve) is Ok,
    ensures
        ({
            let s = i.storage;
            let t = i.process_verification_request(user, approve)->Ok_0.storage;
            let before = s.profiles[user];
            &&& t.queue is Some
            &&& !t.queue->0.contains(user)
            &&& t == StorageView {
                profiles: s.profiles.insert(
                    user,
                    ProfileRecordView {
                        version: match before.version {
                            Some(version) => Some(version),
                            None => Some(2),
                        },
                        is_verified: approve,
                        ..before
                    },
                ),
                queue: t.queue,
                histories: s.histories.insert(
                    user,
                    (if s.histories.contains_key(user) {
                        s.histories[user]
                    } else {
                        Seq::empty()
                    }).push(
                        VerificationEntryView {
                            timestamp: i.timestamp,
                            action: if approve {
                                "approved"@
                            } else {
                                "rejected"@
                            },
                            by: Some(s.config->0.platform_admin),
                        },
                    ),
                ),
                ..s
            }
        }),
{
    law_others_is_the_queue_without(i.storage.pending(), user);
}

/// Processing takes nobody but the user out of the queue, and keeps the order of
/// the rest: an empty queue, or none, leaves an empty one, and what a queue leaves
/// follows from what it leaves without its last member.
pub proof fn law_processing_keeps_rest_of_queue(
    i: InvocationView,
    user: AddressView,
    approve: bool,
    shorter: InvocationView,
    last: AddressView,
)
    requires
        i.process_verification_request(user, approve) is Ok,
        shorter.process_verification_request(user, approve) is Ok,
    ensures
        ({
            let left = i.process_verification_request(user, approve)->Ok_0.storage.queue->0;
            let left_of_shorter = shorter.process_verification_request(
                user,
                approve,
            )->Ok_0.storage.queue->0;
            &&& i.storage.queue is None ==> left.len() == 0
            &&& i.storage.queue matches Some(queue) ==> queue.len() == 0 ==> left.len() == 0
            &&& i.storage.queue is Some && shorter.storage.queue is Some && i.storage.queue->0
                == shorter.storage.queue->0.push(last) ==> left == if last == user {
                left_of_shorter
            } else {
                left_of_shorter.push(last)
            }
        }),
{
    reveal(Seq::filter);
    if i.storage.queue is Some && shorter.storage.queue is Some && i.storage.queue->0
        == shorter.storage.queue->0.push(last) {
        assert(i.storage.queue->0.drop_last() =~= shorter.storage.queue->0);
    }
}

/// Reported reputation adds up: the counters after a report are the integer sums of
/// the counters before and what was reported, wherever the sums can be represented,
/// and otherwise the highest count. Nothing else changes, and for somebody without
/// a profile nothing at all.
pub proof fn law_reputation_changes(
    i: InvocationView,
    user: AddressView,
    successful_delta: u32,
    disputed_delta: u32,
)
    requires
        i.update_reputation(user, successful_delta, disputed_delta) is Ok,
    ensures
        ({
            let s = i.storage;
            let t = i.update_reputation(user, successful_delta, disputed_delta)->Ok_0.storage;
            let before = s.profiles[user];
            let successful = before.successful_trades + successful_delta;
            let disputed = before.disputed_trades + disputed_delta;
            &&& !s.profiles.contains_key(user) ==> t == s
            &&& s.profiles.contains_key(user) ==> {
                let after = t.profiles[user];
                &&& t == StorageView { profiles: s.profiles.insert(user, after), ..s }
                &&& after == ProfileRecordView {
                    version: match before.version {
                        Some(version) => Some(version),
                        None => Some(2),
                    },
                    successful_trades: after.successful_trades,
                    disputed_trades: after.disputed_trades,
                    ..before
                }
                &&& successful <= u32::MAX ==> after.successful_trades == successful
                &&& successful > u32::MAX ==> after.successful_trades == u32::MAX
                &&& disputed <= u32::MAX ==> after.disputed_trades == disputed
                &&& disputed > u32::MAX ==> after.disputed_trades == u32::MAX
            }
        }),
{
}

} // verus!
