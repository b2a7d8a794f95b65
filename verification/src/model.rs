//! What each entry point answers, and what it does to storage and to its host.
//!
//! For every entry point of the contract there is a function here from the
//! state of the invocation and the arguments to the outcome. An entry point
//! that can be refused has a `Result`; the tests are in the order in which they
//! decide the error.

use vstd::prelude::*;
use vstd::utf8::encode_utf8;

use crate::error::OnboardingError;
use crate::invocation::{extension, written, EffectView, EventView, InvocationView};
use crate::storage::{DataKeyView, StorageView};
use crate::types::{
    AddressView, OnboardingConfigView, UserMetrics, UserProfileView, UserRole,
    VerificationEntryView, SCHEMA_VERSION,
};
use crate::username::{normalized_name, MAX_INPUT_BYTES};

verus! {

/// The outcome of a call: its answer, the storage it leaves, and what it does to
/// its host.
pub struct Outcome<T> {
    pub value: T,
    pub storage: StorageView,
    pub effects: Seq<EffectView>,
}

/// The answer to a call that can be refused.
pub open spec fn answer<T>(outcome: Result<Outcome<T>, OnboardingError>) -> Result<
    T,
    OnboardingError,
> {
    match outcome {
        Ok(o) => Ok(o.value),
        Err(error) => Err(error),
    }
}

/// What the answer to a call says.
pub open spec fn answered<T: DeepView>(r: Result<T, OnboardingError>) -> Result<
    T::V,
    OnboardingError,
> {
    match r {
        Ok(value) => Ok(value.deep_view()),
        Err(error) => Err(error),
    }
}

/// Saturating addition of signed 128-bit volumes.
pub open spec fn saturating_volume(a: i128, b: i128) -> i128 {
    if a + b > i128::MAX {
        i128::MAX
    } else if a + b < i128::MIN {
        i128::MIN
    } else {
        (a + b) as i128
    }
}

/// Saturating addition of counters.
pub open spec fn saturating_count(a: u32, b: u32) -> u32 {
    if a + b > u32::MAX {
        u32::MAX
    } else {
        (a + b) as u32
    }
}

/// Metrics with a report added to them.
pub open spec fn metrics_plus(
    metrics: UserMetrics,
    escrow_count_delta: u32,
    volume_delta: i128,
) -> UserMetrics {
    UserMetrics {
        total_escrow_count: saturating_count(metrics.total_escrow_count, escrow_count_delta),
        total_volume: saturating_volume(metrics.total_volume, volume_delta),
    }
}

/// The configuration that `initialize` writes.
pub open spec fn initial_config(admin: AddressView) -> OnboardingConfigView {
    OnboardingConfigView {
        require_username: true,
        min_username_length: 3,
        max_username_length: 50,
        platform_admin: admin,
        min_escrow_count_for_verify: 5,
        min_volume_for_verify: 10_000_000_000,
        escrow_contract: None,
    }
}

/// A profile that has just been registered.
pub open spec fn new_profile(
    address: AddressView,
    role: UserRole,
    username: Seq<char>,
    registered_at: u64,
    is_verified: bool,
) -> UserProfileView {
    UserProfileView {
        version: SCHEMA_VERSION,
        address,
        role,
        username,
        registered_at,
        is_verified,
        successful_trades: 0,
        disputed_trades: 0,
    }
}

impl OnboardingConfigView {
    /// Who may report metrics and reputation: the registered escrow contract, or
    /// the admin if there is none.
    pub open spec fn reporter(self) -> AddressView {
        match self.escrow_contract {
            Some(contract) => contract,
            None => self.platform_admin,
        }
    }

    /// Whether metrics reach the thresholds for auto-verification.
    pub open spec fn qualifies(self, metrics: UserMetrics) -> bool {
        &&& metrics.total_escrow_count >= self.min_escrow_count_for_verify
        &&& metrics.total_volume >= self.min_volume_for_verify
    }
}

impl StorageView {
    /// Whether `a` has a profile.
    pub open spec fn onboarded(self, a: AddressView) -> bool {
        self.profiles.contains_key(a)
    }

    /// The profile of an onboarded `a`.
    pub open spec fn profile(self, a: AddressView) -> UserProfileView {
        self.profiles[a].profile()
    }

    /// Storage with `p` as the profile of `a`.
    pub open spec fn with_profile(self, a: AddressView, p: UserProfileView) -> StorageView {
        StorageView { profiles: self.profiles.insert(a, p.record()), ..self }
    }

    /// Whether the profile of `a` is stored without a version.
    pub open spec fn outdated(self, a: AddressView) -> bool {
        self.onboarded(a) && self.profiles[a].version is None
    }

    /// Storage once the profile of `a` has been read: a profile without a
    /// version is written back with the current one.
    pub open spec fn upgraded(self, a: AddressView) -> StorageView {
        if self.outdated(a) {
            self.with_profile(a, self.profile(a))
        } else {
            self
        }
    }

    /// What reading the profile of `a` does.
    pub open spec fn upgrade(self, a: AddressView) -> Seq<EffectView> {
        if self.outdated(a) {
            written(DataKeyView::UserProfile(a))
        } else {
            Seq::empty()
        }
    }

    /// What looking up an onboarded `a` does: the read, then the TTL extension.
    pub open spec fn lookup(self, a: AddressView) -> Seq<EffectView> {
        if self.onboarded(a) {
            self.upgrade(a).push(extension(DataKeyView::UserProfile(a)))
        } else {
            Seq::empty()
        }
    }

    /// The metrics of `a`, which are zero until some are reported.
    pub open spec fn metrics_of(self, a: AddressView) -> UserMetrics {
        if self.metrics.contains_key(a) {
            self.metrics[a]
        } else {
            UserMetrics { total_escrow_count: 0, total_volume: 0 }
        }
    }

    /// The verification history of `a`.
    pub open spec fn history_of(self, a: AddressView) -> Seq<VerificationEntryView> {
        if self.histories.contains_key(a) {
            self.histories[a]
        } else {
            Seq::empty()
        }
    }

    /// Storage with one more entry at the end of the history of `a`.
    pub open spec fn logged(self, a: AddressView, entry: VerificationEntryView) -> StorageView {
        StorageView {
            histories: self.histories.insert(a, self.history_of(a).push(entry)),
            ..self
        }
    }

    /// The addresses that await manual verification.
    pub open spec fn pending(self) -> Seq<AddressView> {
        match self.queue {
            Some(queue) => queue,
            None => Seq::empty(),
        }
    }

    /// `q` without `a`, in the same order.
    pub open spec fn others(q: Seq<AddressView>, a: AddressView) -> Seq<AddressView> {
        q.filter(|b: AddressView| b != a)
    }

    /// Whether `a` becomes verified by its activity: it is onboarded, not yet
    /// verified, and its metrics qualify.
    pub open spec fn due(
        self,
        a: AddressView,
        config: OnboardingConfigView,
        metrics: UserMetrics,
    ) -> bool {
        &&& self.onboarded(a)
        &&& !self.profile(a).is_verified
        &&& config.qualifies(metrics)
    }

    /// The auto-verification check of `a` at time `now`.
    pub open spec fn auto_verify(
        self,
        a: AddressView,
        config: OnboardingConfigView,
        metrics: UserMetrics,
        now: u64,
    ) -> Outcome<()> {
        if self.due(a, config, metrics) {
            Outcome {
                value: (),
                storage: self.with_profile(
                    a,
                    UserProfileView { is_verified: true, ..self.profile(a) },
                ).logged(
                    a,
                    VerificationEntryView {
                        timestamp: now,
                        action: "auto_verified"@,
                        by: None,
                    },
                ),
                effects: self.upgrade(a) + written(DataKeyView::UserProfile(a)) + written(
                    DataKeyView::VerificationHistory(a),
                ) + seq![EffectView::Publish(EventView::UserVerified(a))],
            }
        } else {
            Outcome { value: (), storage: self.upgraded(a), effects: self.upgrade(a) }
        }
    }
}

impl InvocationView {
    /// The invocation after a call that cannot be refused.
    pub open spec fn done<T>(self, outcome: Outcome<T>) -> InvocationView {
        InvocationView {
            storage: outcome.storage,
            effects: self.effects + outcome.effects,
            ..self
        }
    }

    /// The invocation after a call: a refused call leaves it as it was.
    pub open spec fn after<T>(
        self,
        outcome: Result<Outcome<T>, OnboardingError>,
    ) -> InvocationView {
        match outcome {
            Ok(o) => self.done(o),
            Err(_) => self,
        }
    }

    /// Whether `a` has authorized the invocation.
    pub open spec fn signed_by(self, a: AddressView) -> bool {
        self.signers.contains(a)
    }

    /// Why a call that only the admin may make is refused, if it is.
    pub open spec fn admin_refusal(self) -> Option<OnboardingError> {
        if self.storage.config is None {
            Some(OnboardingError::NotInitialized)
        } else if !self.signed_by(self.storage.config->0.platform_admin) {
            Some(OnboardingError::Unauthorized)
        } else {
            None
        }
    }

    /// Why a call that only the reporter may make is refused, if it is.
    pub open spec fn reporter_refusal(self) -> Option<OnboardingError> {
        if self.storage.config is None {
            Some(OnboardingError::NotInitialized)
        } else if !self.signed_by(self.storage.config->0.reporter()) {
            Some(OnboardingError::Unauthorized)
        } else {
            None
        }
    }

    /// `initialize`: writes the initial configuration, registers the admin as a
    /// verified admin, and reserves the username "admin".
    pub open spec fn initialize(self, admin: AddressView) -> Result<
        Outcome<OnboardingConfigView>,
        OnboardingError,
    > {
        if !self.signed_by(admin) {
            Err(OnboardingError::Unauthorized)
        } else {
            let profile = new_profile(admin, UserRole::Admin, "admin"@, self.timestamp, true);
            Ok(
                Outcome {
                    value: initial_config(admin),
                    storage: StorageView {
                        config: Some(initial_config(admin)),
                        usernames: self.storage.usernames.insert("admin"@, admin),
                        ..self.storage.with_profile(admin, profile)
                    },
                    effects: written(DataKeyView::Config) + written(DataKeyView::UserProfile(admin))
                        + written(DataKeyView::Username("admin"@)),
                },
            )
        }
    }

    /// `onboard_user`: registers `user` under the normalized username.
    pub open spec fn onboard_user(
        self,
        user: AddressView,
        username: Seq<u8>,
        role: UserRole,
    ) -> Result<Outcome<UserProfileView>, OnboardingError> {
        let name = normalized_name(username);
        if !self.signed_by(user) {
            Err(OnboardingError::Unauthorized)
        } else if role != UserRole::Buyer && role != UserRole::Artisan {
            Err(OnboardingError::InvalidRole)
        } else if self.storage.config is None {
            Err(OnboardingError::NotInitialized)
        } else if username.len() > MAX_INPUT_BYTES {
            Err(OnboardingError::UsernameTooLong)
        } else if encode_utf8(name).len() < self.storage.config->0.min_username_length {
            Err(OnboardingError::UsernameTooShort)
        } else if encode_utf8(name).len() > self.storage.config->0.max_username_length {
            Err(OnboardingError::UsernameTooLong)
        } else if self.storage.onboarded(user) {
            Err(OnboardingError::AlreadyOnboarded)
        } else if self.storage.usernames.contains_key(name) {
            Err(OnboardingError::UsernameTaken)
        } else {
            let profile = new_profile(user, role, name, self.timestamp, false);
            Ok(
                Outcome {
                    value: profile,
                    storage: StorageView {
                        usernames: self.storage.usernames.insert(name, user),
                        ..self.storage.with_profile(user, profile)
                    },
                    effects: seq![extension(DataKeyView::Config)] + written(
                        DataKeyView::UserProfile(user),
                    ) + written(DataKeyView::Username(name)) + seq![
                        EffectView::Publish(EventView::UserOnboarded(user)),
                    ],
                },
            )
        }
    }

    /// `get_user`: the profile of `user`.
    pub open spec fn get_user(self, user: AddressView) -> Result<
        Outcome<UserProfileView>,
        OnboardingError,
    > {
        if !self.storage.onboarded(user) {
            Err(OnboardingError::UserNotFound)
        } else {
            Ok(
                Outcome {
                    value: self.storage.profile(user),
                    storage: self.storage.upgraded(user),
                    effects: self.storage.lookup(user),
                },
            )
        }
    }

    /// `get_user_by_username`: the profile of the owner of a username.
    pub open spec fn get_user_by_username(self, username: Seq<u8>) -> Result<
        Outcome<UserProfileView>,
        OnboardingError,
    > {
        let name = normalized_name(username);
        let owner = self.storage.usernames[name];
        if username.len() > MAX_INPUT_BYTES {
            Err(OnboardingError::UsernameTooLong)
        } else if !self.storage.usernames.contains_key(name) {
            Err(OnboardingError::UsernameNotFound)
        } else if !self.storage.onboarded(owner) {
            Err(OnboardingError::UserNotFound)
        } else {
            Ok(
                Outcome {
                    value: self.storage.profile(owner),
                    storage: self.storage.upgraded(owner),
                    effects: seq![extension(DataKeyView::Username(name))] + self.storage.lookup(
                        owner,
                    ),
                },
            )
        }
    }

    /// `is_username_taken`: whether somebody owns a username.
    pub open spec fn is_username_taken(self, username: Seq<u8>) -> Result<
        Outcome<bool>,
        OnboardingError,
    > {
        let name = normalized_name(username);
        if username.len() > MAX_INPUT_BYTES {
            Err(OnboardingError::UsernameTooLong)
        } else {
            Ok(
                Outcome {
                    value: self.storage.usernames.contains_key(name),
                    storage: self.storage,
                    effects: if self.storage.usernames.contains_key(name) {
                        seq![extension(DataKeyView::Username(name))]
                    } else {
                        Seq::empty()
                    },
                },
            )
        }
    }

    /// A look at `user`, onboarded or not, that answers `value`.
    pub open spec fn view_user<T>(self, user: AddressView, value: T) -> Outcome<T> {
        Outcome {
            value,
            storage: self.storage.upgraded(user),
            effects: self.storage.lookup(user),
        }
    }

    /// `is_onboarded`: whether `user` has a profile.
    pub open spec fn is_onboarded(self, user: AddressView) -> Outcome<bool> {
        self.view_user(user, self.storage.onboarded(user))
    }

    /// `get_user_role`: the role of `user`, or no role.
    pub open spec fn get_user_role(self, user: AddressView) -> Outcome<UserRole> {
        self.view_user(
            user,
            if self.storage.onboarded(user) {
                self.storage.profile(user).role
            } else {
                UserRole::NoRole
            },
        )
    }

    /// `has_role`: whether `role` is the role of `user`.
    pub open spec fn has_role(self, user: AddressView, role: UserRole) -> Outcome<bool> {
        self.view_user(user, self.get_user_role(user).value == role)
    }

    /// `is_verified`: whether `user` is onboarded and verified.
    pub open spec fn is_verified(self, user: AddressView) -> Outcome<bool> {
        self.view_user(
            user,
            self.storage.onboarded(user) && self.storage.profile(user).is_verified,
        )
    }

    /// `get_user_reputation`: the trade counters of `address`, zero if it is not
    /// onboarded.
    pub open spec fn get_user_reputation(self, address: AddressView) -> Outcome<(u32, u32)> {
        self.view_user(
            address,
            if self.storage.onboarded(address) {
                (
                    self.storage.profile(address).successful_trades,
                    self.storage.profile(address).disputed_trades,
                )
            } else {
                (0u32, 0u32)
            },
        )
    }

    /// A change of the profile of an onboarded `user` by the admin, who reads
    /// the configuration and the profile and writes the profile as `p`.
    pub open spec fn edit_user(self, user: AddressView, p: UserProfileView) -> Outcome<
        UserProfileView,
    > {
        Outcome {
            value: p,
            storage: self.storage.with_profile(user, p),
            effects: seq![extension(DataKeyView::Config)] + self.storage.lookup(user) + written(
                DataKeyView::UserProfile(user),
            ),
        }
    }

    /// `update_user_role`: gives `user` a role, by the admin.
    pub open spec fn update_user_role(self, user: AddressView, new_role: UserRole) -> Result<
        Outcome<UserProfileView>,
        OnboardingError,
    > {
        if self.admin_refusal() is Some {
            Err(self.admin_refusal()->0)
        } else if !self.storage.onboarded(user) {
            Err(OnboardingError::UserNotFound)
        } else {
            let edit = self.edit_user(
                user,
                UserProfileView { role: new_role, ..self.storage.profile(user) },
            );
            Ok(
                Outcome {
                    effects: edit.effects.push(EffectView::Publish(EventView::RoleUpdated(user))),
                    ..edit
                },
            )
        }
    }

    /// `verify_user`: verifies `user`, by the admin.
    pub open spec fn verify_user(self, user: AddressView) -> Result<
        Outcome<UserProfileView>,
        OnboardingError,
    > {
        if self.admin_refusal() is Some {
            Err(self.admin_refusal()->0)
        } else if !self.storage.onboarded(user) {
            Err(OnboardingError::UserNotFound)
        } else {
            let edit = self.edit_user(
                user,
                UserProfileView { is_verified: true, ..self.storage.profile(user) },
            );
            Ok(
                Outcome {
                    effects: edit.effects.push(EffectView::Publish(EventView::UserVerified(user))),
                    ..edit
                },
            )
        }
    }

    /// `get_config`: the configuration.
    pub open spec fn get_config(self) -> Result<Outcome<OnboardingConfigView>, OnboardingError> {
        match self.storage.config {
            None => Err(OnboardingError::NotInitialized),
            Some(config) => Ok(
                Outcome {
                    value: config,
                    storage: self.storage,
                    effects: seq![extension(DataKeyView::Config)],
                },
            ),
        }
    }

    /// A change of the configuration to `config` by the admin.
    pub open spec fn edit_config(self, config: OnboardingConfigView) -> Outcome<()> {
        Outcome {
            value: (),
            storage: StorageView { config: Some(config), ..self.storage },
            effects: seq![extension(DataKeyView::Config)] + written(DataKeyView::Config),
        }
    }

    /// `set_escrow_contract`: registers the escrow contract, by the admin.
    pub open spec fn set_escrow_contract(self, contract_address: AddressView) -> Result<
        Outcome<()>,
        OnboardingError,
    > {
        if self.admin_refusal() is Some {
            Err(self.admin_refusal()->0)
        } else {
            Ok(
                self.edit_config(
                    OnboardingConfigView {
                        escrow_contract: Some(contract_address),
                        ..self.storage.config->0
                    },
                ),
            )
        }
    }

    /// `set_verification_thresholds`: sets the thresholds for auto-verification,
    /// by the admin.
    pub open spec fn set_verification_thresholds(
        self,
        min_escrow_count: u32,
        min_volume: i128,
    ) -> Result<Outcome<()>, OnboardingError> {
        if self.admin_refusal() is Some {
            Err(self.admin_refusal()->0)
        } else {
            Ok(
                self.edit_config(
                    OnboardingConfigView {
                        min_escrow_count_for_verify: min_escrow_count,
                        min_volume_for_verify: min_volume,
                        ..self.storage.config->0
                    },
                ),
            )
        }
    }

    /// `get_user_metrics`: the metrics of `address`.
    pub open spec fn get_user_metrics(self, address: AddressView) -> Outcome<UserMetrics> {
        Outcome {
            value: self.storage.metrics_of(address),
            storage: self.storage,
            effects: if self.storage.metrics.contains_key(address) {
                seq![extension(DataKeyView::UserMetrics(address))]
            } else {
                Seq::empty()
            },
        }
    }

    /// `update_user_metrics`: adds to the metrics of `address`, by the reporter,
    /// then checks whether it becomes verified.
    pub open spec fn update_user_metrics(
        self,
        address: AddressView,
        escrow_count_delta: u32,
        volume_delta: i128,
    ) -> Result<Outcome<()>, OnboardingError> {
        if self.reporter_refusal() is Some {
            Err(self.reporter_refusal()->0)
        } else {
            let metrics = metrics_plus(
                self.storage.metrics_of(address),
                escrow_count_delta,
                volume_delta,
            );
            let counted = StorageView {
                metrics: self.storage.metrics.insert(address, metrics),
                ..self.storage
            };
            let check = counted.auto_verify(
                address,
                self.storage.config->0,
                metrics,
                self.timestamp,
            );
            Ok(
                Outcome {
                    value: (),
                    storage: check.storage,
                    effects: seq![extension(DataKeyView::Config)] + written(
                        DataKeyView::UserMetrics(address),
                    ) + check.effects,
                },
            )
        }
    }

    /// `auto_verify_user`: verifies `address` if its metrics qualify, and answers
    /// whether it just became verified.
    pub open spec fn auto_verify_user(self, address: AddressView) -> Result<
        Outcome<bool>,
        OnboardingError,
    > {
        if self.storage.config is None {
            Err(OnboardingError::NotInitialized)
        } else if !self.storage.onboarded(address) {
            Err(OnboardingError::UserNotFound)
        } else {
            let config = self.storage.config->0;
            let metrics = self.storage.metrics_of(address);
            let seen = self.storage.upgraded(address);
            let check = seen.auto_verify(address, config, metrics, self.timestamp);
            Ok(
                Outcome {
                    value: self.storage.due(address, config, metrics),
                    storage: check.storage,
                    effects: seq![extension(DataKeyView::Config)] + self.storage.lookup(address)
                        + check.effects,
                },
            )
        }
    }

    /// `request_verification`: puts `user` into the verification queue, unless it
    /// is there already.
    pub open spec fn request_verification(self, user: AddressView) -> Result<
        Outcome<()>,
        OnboardingError,
    > {
        if !self.signed_by(user) {
            Err(OnboardingError::Unauthorized)
        } else if !self.storage.onboarded(user) {
            Err(OnboardingError::UserNotFound)
        } else if self.storage.pending().contains(user) {
            Ok(Outcome { value: (), storage: self.storage, effects: Seq::empty() })
        } else {
            Ok(
                Outcome {
                    value: (),
                    storage: StorageView {
                        queue: Some(self.storage.pending().push(user)),
                        ..self.storage.logged(
                            user,
                            VerificationEntryView {
                                timestamp: self.timestamp,
                                action: "requested"@,
                                by: Some(user),
                            },
                        )
                    },
                    effects: written(DataKeyView::VerificationQueue) + written(
                        DataKeyView::VerificationHistory(user),
                    ),
                },
            )
        }
    }

    /// `process_verification_request`: verifies or rejects `user`, by the admin,
    /// and takes it out of the verification queue.
    pub open spec fn process_verification_request(
        self,
        user: AddressView,
        approve: bool,
    ) -> Result<Outcome<()>, OnboardingError> {
        if self.admin_refusal() is Some {
            Err(self.admin_refusal()->0)
        } else if !self.storage.onboarded(user) {
            Err(OnboardingError::UserNotFound)
        } else {
            let edit = self.edit_user(
                user,
                UserProfileView { is_verified: approve, ..self.storage.profile(user) },
            );
            Ok(
                Outcome {
                    value: (),
                    storage: StorageView {
                        queue: Some(StorageView::others(self.storage.pending(), user)),
                        ..edit.storage.logged(
                            user,
                            VerificationEntryView {
                                timestamp: self.timestamp,
                                action: if approve {
                                    "approved"@
                                } else {
                                    "rejected"@
                                },
                                by: Some(self.storage.config->0.platform_admin),
                            },
                        )
                    },
                    effects: edit.effects + written(DataKeyView::VerificationQueue) + written(
                        DataKeyView::VerificationHistory(user),
                    ) + if approve {
                        seq![EffectView::Publish(EventView::UserVerified(user))]
                    } else {
                        Seq::empty()
                    },
                },
            )
        }
    }

    /// `get_verification_history`: the verification history of `user`.
    pub open spec fn get_verification_history(self, user: AddressView) -> Outcome<
        Seq<VerificationEntryView>,
    > {
        Outcome {
            value: self.storage.history_of(user),
            storage: self.storage,
            effects: if self.storage.histories.contains_key(user) {
                seq![extension(DataKeyView::VerificationHistory(user))]
            } else {
                Seq::empty()
            },
        }
    }

    /// `get_verification_queue`: the addresses that await manual verification.
    pub open spec fn get_verification_queue(self) -> Outcome<Seq<AddressView>> {
        Outcome {
            value: self.storage.pending(),
            storage: self.storage,
            effects: if self.storage.queue is Some {
                seq![extension(DataKeyView::VerificationQueue)]
            } else {
                Seq::empty()
            },
        }
    }

    /// `update_reputation`: adds to the trade counters of `address`, by the
    /// reporter; an address that is not onboarded is passed over.
    pub open spec fn update_reputation(
        self,
        address: AddressView,
        successful_delta: u32,
        disputed_delta: u32,
    ) -> Result<Outcome<()>, OnboardingError> {
        if self.reporter_refusal() is Some {
            Err(self.reporter_refusal()->0)
        } else if !self.storage.onboarded(address) {
            Ok(
                Outcome {
                    value: (),
                    storage: self.storage,
                    effects: seq![extension(DataKeyView::Config)],
                },
            )
        } else {
            let p = self.storage.profile(address);
            let edit = self.edit_user(
                address,
                UserProfileView {
                    successful_trades: saturating_count(p.successful_trades, successful_delta),
                    disputed_trades: saturating_count(p.disputed_trades, disputed_delta),
                    ..p
                },
            );
            Ok(Outcome { value: (), storage: edit.storage, effects: edit.effects })
        }
    }
}

} // verus!
