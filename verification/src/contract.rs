//! The entry points of the onboarding contract.

use vstd::prelude::*;
use vstd::utf8::is_ascii_chars_encode_utf8;

use crate::error::OnboardingError;
use crate::invocation::{extension, written, Event, Invocation, InvocationView};
use crate::model::{answer, answered, saturating_volume};
use crate::storage::{DataKey, DataKeyView, StorageView};
use crate::types::{
    lists, Address, AddressView, OnboardingConfig, UserMetrics, UserProfile, UserRole,
    VerificationEntry, SCHEMA_VERSION,
};
use crate::username::{law_normalized_name_encoding, law_plain_text_is_normalized, normalize};

verus! {

/// The onboarding contract.
pub struct OnboardingContract;

impl OnboardingContract {
    /// The profile of `user`, if it has one. A profile that is stored without a
    /// version is written back with the current one.
    fn load_profile(inv: &mut Invocation, user: &Address) -> (r: Option<UserProfile>)
        ensures
            r.deep_view() == (if old(inv)@.storage.onboarded(user@) {
                Some(old(inv)@.storage.profile(user@))
            } else {
                None
            }),
            final(inv)@ == (InvocationView {
                storage: old(inv)@.storage.upgraded(user@),
                effects: old(inv)@.effects + old(inv)@.storage.upgrade(user@),
                ..old(inv)@
            }),
    {
        let (profile, outdated) = match inv.storage.profiles.get(user.strkey.as_str()) {
            None => {
                return None;
            },
            Some(record) => (record.profile(), record.version.is_none()),
        };
        if outdated {
            Self::store_profile(inv, user, &profile);
        }
        Some(profile)
    }

    /// Writes the profile of `user`.
    fn store_profile(inv: &mut Invocation, user: &Address, profile: &UserProfile)
        ensures
            final(inv)@ == (InvocationView {
                storage: old(inv)@.storage.with_profile(user@, profile@),
                effects: old(inv)@.effects + written(DataKeyView::UserProfile(user@)),
                ..old(inv)@
            }),
    {
        inv.storage.profiles.insert(user.strkey.clone(), profile.record());
        inv.note_write(DataKey::UserProfile(user.clone()));
    }

    /// The admin, whose authorization the calls need that only the admin may make.
    pub fn admin(inv: &Invocation) -> (r: Result<Address, OnboardingError>)
        ensures
            answered(r) == (match inv@.storage.config {
                Some(config) => Ok(config.platform_admin),
                None => Err(OnboardingError::NotInitialized),
            }),
    {
        match &inv.storage.config {
            Some(config) => Ok(config.platform_admin.clone()),
            None => Err(OnboardingError::NotInitialized),
        }
    }

    /// The reporter, whose authorization the reports of metrics and reputation
    /// need: the registered escrow contract, or the admin if none is set.
    pub fn reporter(inv: &Invocation) -> (r: Result<Address, OnboardingError>)
        ensures
            answered(r) == (match inv@.storage.config {
                Some(config) => Ok(config.reporter()),
                None => Err(OnboardingError::NotInitialized),
            }),
    {
        match &inv.storage.config {
            Some(config) => match &config.escrow_contract {
                Some(contract) => Ok(contract.clone()),
                None => Ok(config.platform_admin.clone()),
            },
            None => Err(OnboardingError::NotInitialized),
        }
    }

    /// The configuration, if the admin has authorized the invocation.
    fn require_admin(inv: &Invocation) -> (r: Result<OnboardingConfig, OnboardingError>)
        ensures
            answered(r) == (match inv@.admin_refusal() {
                Some(error) => Err(error),
                None => Ok(inv@.storage.config->0),
            }),
    {
        match &inv.storage.config {
            Some(config) => if inv.signed_by(&config.platform_admin) {
                Ok(config.clone())
            } else {
                Err(OnboardingError::Unauthorized)
            },
            None => Err(OnboardingError::NotInitialized),
        }
    }

    /// The configuration, if the reporter has authorized the invocation.
    fn require_reporter(inv: &Invocation) -> (r: Result<OnboardingConfig, OnboardingError>)
        ensures
            answered(r) == (match inv@.reporter_refusal() {
                Some(error) => Err(error),
                None => Ok(inv@.storage.config->0),
            }),
    {
        let reporter = Self::reporter(inv)?;
        match &inv.storage.config {
            Some(config) => if inv.signed_by(&reporter) {
                Ok(config.clone())
            } else {
                Err(OnboardingError::Unauthorized)
            },
            None => Err(OnboardingError::NotInitialized),
        }
    }

    /// Initialize the onboarding contract.
    ///
    /// `admin` is the platform administrator address.
    pub fn initialize(inv: &mut Invocation, admin: Address) -> (r: Result<
        OnboardingConfig,
        OnboardingError,
    >)
        ensures
            answered(r) == answer(old(inv)@.initialize(admin@)),
            final(inv)@ == old(inv)@.after(old(inv)@.initialize(admin@)),
    {
        if !inv.signed_by(&admin) {
            return Err(OnboardingError::Unauthorized);
        }
        let config = OnboardingConfig {
            require_username: true,
            min_username_length: 3,
            max_username_length: 50,
            platform_admin: admin.clone(),
            min_escrow_count_for_verify: 5,
            min_volume_for_verify: 10_000_000_000,
            escrow_contract: None,
        };
        proof {
            reveal_strlit("admin");
            is_ascii_chars_encode_utf8("admin"@);
            law_plain_text_is_normalized("admin"@);
        }
        let username = normalize("admin".as_bytes())?;

        inv.storage.config = Some(config.clone());
        inv.note_write(DataKey::Config);

        let profile = UserProfile {
            version: SCHEMA_VERSION,
            address: admin.clone(),
            role: UserRole::Admin,
            username: username.clone(),
            registered_at: inv.timestamp,
            is_verified: true,
            successful_trades: 0,
            disputed_trades: 0,
        };
        Self::store_profile(inv, &admin, &profile);

        inv.storage.usernames.insert(username.clone(), admin);
        inv.note_write(DataKey::Username(username));
        Ok(config)
    }

    /// Onboard a new user to the platform, as a buyer or an artisan.
    pub fn onboard_user(
        inv: &mut Invocation,
        user: Address,
        username: &[u8],
        role: UserRole,
    ) -> (r: Result<UserProfile, OnboardingError>)
        ensures
            answered(r) == answer(old(inv)@.onboard_user(user@, username@, role)),
            final(inv)@ == old(inv)@.after(old(inv)@.onboard_user(user@, username@, role)),
    {
        if !inv.signed_by(&user) {
            return Err(OnboardingError::Unauthorized);
        }
        if role != UserRole::Buyer && role != UserRole::Artisan {
            return Err(OnboardingError::InvalidRole);
        }
        let (min_length, max_length): (u32, u32) = match &inv.storage.config {
            Some(config) => (config.min_username_length, config.max_username_length),
            None => {
                return Err(OnboardingError::NotInitialized);
            },
        };
        let name = normalize(username)?;
        proof {
            law_normalized_name_encoding(username@);
        }
        let length: usize = name.as_str().len();
        if length < min_length as usize {
            return Err(OnboardingError::UsernameTooShort);
        }
        if length > max_length as usize {
            return Err(OnboardingError::UsernameTooLong);
        }
        if inv.storage.profiles.contains(user.strkey.as_str()) {
            return Err(OnboardingError::AlreadyOnboarded);
        }
        if inv.storage.usernames.contains(name.as_str()) {
            return Err(OnboardingError::UsernameTaken);
        }
        inv.extend_persistent(DataKey::Config);

        let profile = UserProfile {
            version: SCHEMA_VERSION,
            address: user.clone(),
            role,
            username: name.clone(),
            registered_at: inv.timestamp,
            is_verified: false,
            successful_trades: 0,
            disputed_trades: 0,
        };
        Self::store_profile(inv, &user, &profile);

        inv.storage.usernames.insert(name.clone(), user.clone());
        inv.note_write(DataKey::Username(name));

        inv.publish(Event::UserOnboarded(user));
        Ok(profile)
    }

    /// Get user profile by address.
    pub fn get_user(inv: &mut Invocation, user: Address) -> (r: Result<
        UserProfile,
        OnboardingError,
    >)
        ensures
            answered(r) == answer(old(inv)@.get_user(user@)),
            final(inv)@ == old(inv)@.after(old(inv)@.get_user(user@)),
    {
        match Self::load_profile(inv, &user) {
            Some(profile) => {
                inv.extend_persistent(DataKey::UserProfile(user));
                Ok(profile)
            },
            None => Err(OnboardingError::UserNotFound),
        }
    }

    /// Get user profile by username (case-insensitive).
    pub fn get_user_by_username(inv: &mut Invocation, username: &[u8]) -> (r: Result<
        UserProfile,
        OnboardingError,
    >)
        ensures
            answered(r) == answer(old(inv)@.get_user_by_username(username@)),
            final(inv)@ == old(inv)@.after(old(inv)@.get_user_by_username(username@)),
    {
        let name = normalize(username)?;
        let owner = match inv.storage.usernames.get(name.as_str()) {
            Some(owner) => owner.clone(),
            None => {
                return Err(OnboardingError::UsernameNotFound);
            },
        };
        if !inv.storage.profiles.contains(owner.strkey.as_str()) {
            return Err(OnboardingError::UserNotFound);
        }
        inv.extend_persistent(DataKey::Username(name));
        Self::get_user(inv, owner)
    }

    /// Check if a username is already taken (case-insensitive).
    pub fn is_username_taken(inv: &mut Invocation, username: &[u8]) -> (r: Result<
        bool,
        OnboardingError,
    >)
        ensures
            answered(r) == answer(old(inv)@.is_username_taken(username@)),
            final(inv)@ == old(inv)@.after(old(inv)@.is_username_taken(username@)),
    {
        let name = normalize(username)?;
        let has: bool = inv.storage.usernames.contains(name.as_str());
        if has {
            inv.extend_persistent(DataKey::Username(name));
        }
        Ok(has)
    }

    /// The profile of `user`, if it has one, whose TTL is then extended.
    fn look_up(inv: &mut Invocation, user: Address) -> (r: Option<UserProfile>)
        ensures
            r.deep_view() == (if old(inv)@.storage.onboarded(user@) {
                Some(old(inv)@.storage.profile(user@))
            } else {
                None
            }),
            final(inv)@ == old(inv)@.done(old(inv)@.view_user(user@, ())),
    {
        let profile = Self::load_profile(inv, &user);
        if profile.is_some() {
            inv.extend_persistent(DataKey::UserProfile(user));
        }
        profile
    }

    /// Check if user is onboarded.
    pub fn is_onboarded(inv: &mut Invocation, user: Address) -> (r: bool)
        ensures
            r == old(inv)@.is_onboarded(user@).value,
            final(inv)@ == old(inv)@.done(old(inv)@.is_onboarded(user@)),
    {
        Self::look_up(inv, user).is_some()
    }

    /// Get user's role, or no role if the user does not exist.
    pub fn get_user_role(inv: &mut Invocation, user: Address) -> (r: UserRole)
        ensures
            r == old(inv)@.get_user_role(user@).value,
            final(inv)@ == old(inv)@.done(old(inv)@.get_user_role(user@)),
    {
        match Self::look_up(inv, user) {
            Some(profile) => profile.role,
            None => UserRole::NoRole,
        }
    }

    /// Update user role (admin only).
    pub fn update_user_role(inv: &mut Invocation, user: Address, new_role: UserRole) -> (r: Result<
        UserProfile,
        OnboardingError,
    >)
        ensures
            answered(r) == answer(old(inv)@.update_user_role(user@, new_role)),
            final(inv)@ == old(inv)@.after(old(inv)@.update_user_role(user@, new_role)),
    {
        Self::require_admin(inv)?;
        let mut profile = Self::open_profile(inv, &user)?;
        profile.role = new_role;
        Self::store_profile(inv, &user, &profile);
        inv.publish(Event::RoleUpdated(user));
        Ok(profile)
    }

    /// The profile of `user`, to be changed: the configuration and the profile
    /// have been read, and their TTLs extended.
    fn open_profile(inv: &mut Invocation, user: &Address) -> (r: Result<
        UserProfile,
        OnboardingError,
    >)
        ensures
            answered(r) == (if old(inv)@.storage.onboarded(user@) {
                Ok(old(inv)@.storage.profile(user@))
            } else {
                Err(OnboardingError::UserNotFound)
            }),
            final(inv)@ == (if old(inv)@.storage.onboarded(user@) {
                InvocationView {
                    storage: old(inv)@.storage.upgraded(user@),
                    effects: old(inv)@.effects.push(extension(DataKeyView::Config))
                        + old(inv)@.storage.lookup(user@),
                    ..old(inv)@
                }
            } else {
                old(inv)@
            }),
    {
        if !inv.storage.profiles.contains(user.strkey.as_str()) {
            return Err(OnboardingError::UserNotFound);
        }
        inv.extend_persistent(DataKey::Config);
        Self::get_user(inv, user.clone())
    }

    /// Verify user (admin only).
    pub fn verify_user(inv: &mut Invocation, user: Address) -> (r: Result<
        UserProfile,
        OnboardingError,
    >)
        ensures
            answered(r) == answer(old(inv)@.verify_user(user@)),
            final(inv)@ == old(inv)@.after(old(inv)@.verify_user(user@)),
    {
        Self::require_admin(inv)?;
        let mut profile = Self::open_profile(inv, &user)?;
        profile.is_verified = true;
        Self::store_profile(inv, &user, &profile);
        inv.publish(Event::UserVerified(user));
        Ok(profile)
    }

    /// Get onboarding configuration.
    pub fn get_config(inv: &mut Invocation) -> (r: Result<OnboardingConfig, OnboardingError>)
        ensures
            answered(r) == answer(old(inv)@.get_config()),
            final(inv)@ == old(inv)@.after(old(inv)@.get_config()),
    {
        let config = match &inv.storage.config {
            Some(config) => config.clone(),
            None => {
                return Err(OnboardingError::NotInitialized);
            },
        };
        inv.extend_persistent(DataKey::Config);
        Ok(config)
    }

    /// Check if user has specific role.
    pub fn has_role(inv: &mut Invocation, user: Address, role: UserRole) -> (r: bool)
        ensures
            r == old(inv)@.has_role(user@, role).value,
            final(inv)@ == old(inv)@.done(old(inv)@.has_role(user@, role)),
    {
        Self::get_user_role(inv, user) == role
    }

    /// Check if user is verified.
    pub fn is_verified(inv: &mut Invocation, user: Address) -> (r: bool)
        ensures
            r == old(inv)@.is_verified(user@).value,
            final(inv)@ == old(inv)@.done(old(inv)@.is_verified(user@)),
    {
        match Self::look_up(inv, user) {
            Some(profile) => profile.is_verified,
            None => false,
        }
    }

    /// Register the address of the deployed escrow contract so it can update
    /// reputation and activity metrics (admin only).
    pub fn set_escrow_contract(inv: &mut Invocation, contract_address: Address) -> (r: Result<
        (),
        OnboardingError,
    >)
        ensures
            answered(r) == answer(old(inv)@.set_escrow_contract(contract_address@)),
            final(inv)@ == old(inv)@.after(old(inv)@.set_escrow_contract(contract_address@)),
    {
        let mut config = Self::require_admin(inv)?;
        inv.extend_persistent(DataKey::Config);
        config.escrow_contract = Some(contract_address);
        inv.storage.config = Some(config);
        inv.note_write(DataKey::Config);
        Ok(())
    }

    /// Update the minimum thresholds used for automatic user verification (admin only).
    pub fn set_verification_thresholds(
        inv: &mut Invocation,
        min_escrow_count: u32,
        min_volume: i128,
    ) -> (r: Result<(), OnboardingError>)
        ensures
            answered(r) == answer(
                old(inv)@.set_verification_thresholds(min_escrow_count, min_volume),
            ),
            final(inv)@ == old(inv)@.after(
                old(inv)@.set_verification_thresholds(min_escrow_count, min_volume),
            ),
    {
        let mut config = Self::require_admin(inv)?;
        inv.extend_persistent(DataKey::Config);
        config.min_escrow_count_for_verify = min_escrow_count;
        config.min_volume_for_verify = min_volume;
        inv.storage.config = Some(config);
        inv.note_write(DataKey::Config);
        Ok(())
    }

    /// The metrics of `address`, zero if none have been reported yet.
    fn read_metrics(inv: &Invocation, address: &Address) -> (r: UserMetrics)
        ensures
            r == inv@.storage.metrics_of(address@),
    {
        match inv.storage.metrics.get(address.strkey.as_str()) {
            Some(metrics) => *metrics,
            None => UserMetrics { total_escrow_count: 0, total_volume: 0 },
        }
    }

    /// Get activity metrics for a user.
    /// Returns zeroed metrics if no escrow activity has been recorded yet.
    pub fn get_user_metrics(inv: &mut Invocation, address: Address) -> (r: UserMetrics)
        ensures
            r == old(inv)@.get_user_metrics(address@).value,
            final(inv)@ == old(inv)@.done(old(inv)@.get_user_metrics(address@)),
    {
        let metrics = Self::read_metrics(inv, &address);
        if inv.storage.metrics.contains(address.strkey.as_str()) {
            inv.extend_persistent(DataKey::UserMetrics(address));
        }
        metrics
    }

    /// Increment a user's activity metrics (called by the escrow contract, or by
    /// the admin if none is set), then check whether the user now meets the
    /// auto-verification threshold.
    pub fn update_user_metrics(
        inv: &mut Invocation,
        address: Address,
        escrow_count_delta: u32,
        volume_delta: i128,
    ) -> (r: Result<(), OnboardingError>)
        ensures
            answered(r) == answer(
                old(inv)@.update_user_metrics(address@, escrow_count_delta, volume_delta),
            ),
            final(inv)@ == old(inv)@.after(
                old(inv)@.update_user_metrics(address@, escrow_count_delta, volume_delta),
            ),
    {
        let config = Self::require_reporter(inv)?;
        inv.extend_persistent(DataKey::Config);

        let mut metrics = Self::read_metrics(inv, &address);
        metrics.total_escrow_count = metrics.total_escrow_count.saturating_add(escrow_count_delta);
        metrics.total_volume = Self::add_volume(metrics.total_volume, volume_delta);
        inv.storage.metrics.insert(address.strkey.clone(), metrics);
        inv.note_write(DataKey::UserMetrics(address.clone()));

        Self::try_auto_verify(inv, &address, &config, &metrics);
        Ok(())
    }

    /// Adds two volumes, stopping at the numeric bounds.
    fn add_volume(a: i128, b: i128) -> (r: i128)
        ensures
            r == saturating_volume(a, b),
    {
        match a.checked_add(b) {
            Some(sum) => sum,
            None => if b > 0 {
                i128::MAX
            } else {
                i128::MIN
            },
        }
    }

    /// Appends an entry to the verification history of `user`.
    fn log(inv: &mut Invocation, user: &Address, entry: VerificationEntry)
        ensures
            final(inv)@ == (InvocationView {
                storage: old(inv)@.storage.logged(user@, entry@),
                effects: old(inv)@.effects + written(DataKeyView::VerificationHistory(user@)),
                ..old(inv)@
            }),
    {
        let mut history = Self::read_history(inv, user);
        let ghost before = history.deep_view();
        history.push(entry);
        assert(history.deep_view() =~= before.push(entry@));
        inv.storage.histories.insert(user.strkey.clone(), history);
        inv.note_write(DataKey::VerificationHistory(user.clone()));
    }

    /// The verification history of `user`.
    fn read_history(inv: &Invocation, user: &Address) -> (r: Vec<VerificationEntry>)
        ensures
            r.deep_view() == inv@.storage.history_of(user@),
    {
        match inv.storage.histories.get(user.strkey.as_str()) {
            Some(history) => history.clone(),
            None => Vec::new(),
        }
    }

    /// Verify a user automatically if they meet the configured thresholds.
    fn try_auto_verify(
        inv: &mut Invocation,
        address: &Address,
        config: &OnboardingConfig,
        metrics: &UserMetrics,
    )
        ensures
            final(inv)@ == old(inv)@.done(
                old(inv)@.storage.auto_verify(address@, config@, *metrics, old(inv)@.timestamp),
            ),
    {
        let mut profile = match Self::load_profile(inv, address) {
            Some(profile) => profile,
            None => {
                return;
            },
        };
        if profile.is_verified {
            return;
        }
        if metrics.total_escrow_count >= config.min_escrow_count_for_verify && metrics.total_volume
            >= config.min_volume_for_verify {
            profile.is_verified = true;
            Self::store_profile(inv, address, &profile);
            let entry = VerificationEntry {
                timestamp: inv.timestamp,
                action: "auto_verified".to_owned(),
                by: None,
            };
            Self::log(inv, address, entry);
            inv.publish(Event::UserVerified(address.clone()));
        }
    }

    /// Trigger an auto-verification check for a user.
    /// Anyone may call this; it is a no-op if thresholds are not yet met.
    ///
    /// Returns `true` if the user was just auto-verified, `false` if thresholds
    /// are not met or the user is already verified.
    pub fn auto_verify_user(inv: &mut Invocation, address: Address) -> (r: Result<
        bool,
        OnboardingError,
    >)
        ensures
            answered(r) == answer(old(inv)@.auto_verify_user(address@)),
            final(inv)@ == old(inv)@.after(old(inv)@.auto_verify_user(address@)),
    {
        let config = match &inv.storage.config {
            Some(config) => config.clone(),
            None => {
                return Err(OnboardingError::NotInitialized);
            },
        };
        let profile = Self::open_profile(inv, &address)?;
        if profile.is_verified {
            return Ok(false);
        }
        let metrics = Self::read_metrics(inv, &address);
        if metrics.total_escrow_count >= config.min_escrow_count_for_verify && metrics.total_volume
            >= config.min_volume_for_verify {
            Self::try_auto_verify(inv, &address, &config, &metrics);
            return Ok(true);
        }
        Ok(false)
    }

    /// The addresses that await manual verification.
    fn read_queue(inv: &Invocation) -> (r: Vec<Address>)
        ensures
            r.deep_view() == inv@.storage.pending(),
    {
        match &inv.storage.queue {
            Some(queue) => queue.clone(),
            None => Vec::new(),
        }
    }

    /// Submit a manual verification request.
    /// The user's address is added to the verification queue for admin review.
    /// Calling this a second time before the request is processed is a no-op.
    pub fn request_verification(inv: &mut Invocation, user: Address) -> (r: Result<
        (),
        OnboardingError,
    >)
        ensures
            answered(r) == answer(old(inv)@.request_verification(user@)),
            final(inv)@ == old(inv)@.after(old(inv)@.request_verification(user@)),
    {
        if !inv.signed_by(&user) {
            return Err(OnboardingError::Unauthorized);
        }
        if !inv.storage.profiles.contains(user.strkey.as_str()) {
            return Err(OnboardingError::UserNotFound);
        }
        let mut queue = Self::read_queue(inv);
        if lists(&queue, &user) {
            return Ok(());
        }
        let ghost waiting = queue.deep_view();
        queue.push(user.clone());
        assert(queue.deep_view() =~= waiting.push(user@));
        inv.storage.queue = Some(queue);
        inv.note_write(DataKey::VerificationQueue);

        let entry = VerificationEntry {
            timestamp: inv.timestamp,
            action: "requested".to_owned(),
            by: Some(user.clone()),
        };
        Self::log(inv, &user, entry);
        Ok(())
    }

    /// `queue` without `user`, in the same order.
    fn without(queue: &Vec<Address>, user: &Address) -> (r: Vec<Address>)
        ensures
            r.deep_view() == StorageView::others(queue.deep_view(), user@),
    {
        let ghost keep = |b: AddressView| b != user@;
        let mut rest: Vec<Address> = Vec::new();
        let mut i: usize = 0;
        proof {
            reveal(Seq::filter);
            assert(rest.deep_view() =~= queue.deep_view().take(0).filter(keep));
        }
        while i < queue.len()
            invariant
                i <= queue.len(),
                keep == (|b: AddressView| b != user@),
                rest.deep_view() == queue.deep_view().take(i as int).filter(keep),
            decreases queue.len() - i,
        {
            let ghost kept = rest.deep_view();
            proof {
                reveal(Seq::filter);
                assert(queue.deep_view().take(i + 1).drop_last() =~= queue.deep_view().take(
                    i as int,
                ));
            }
            if !queue[i].same(user) {
                rest.push(queue[i].clone());
                assert(rest.deep_view() =~= kept.push(queue.deep_view()[i as int]));
            }
            i = i + 1;
        }
        assert(queue.deep_view().take(i as int) =~= queue.deep_view());
        rest
    }

    /// Approve or reject a pending verification request (admin only).
    pub fn process_verification_request(
        inv: &mut Invocation,
        user: Address,
        approve: bool,
    ) -> (r: Result<(), OnboardingError>)
        ensures
            answered(r) == answer(old(inv)@.process_verification_request(user@, approve)),
            final(inv)@ == old(inv)@.after(
                old(inv)@.process_verification_request(user@, approve),
            ),
    {
        let config = Self::require_admin(inv)?;
        let mut profile = Self::open_profile(inv, &user)?;
        profile.is_verified = approve;
        Self::store_profile(inv, &user, &profile);

        let queue = Self::read_queue(inv);
        inv.storage.queue = Some(Self::without(&queue, &user));
        inv.note_write(DataKey::VerificationQueue);

        let entry = VerificationEntry {
            timestamp: inv.timestamp,
            action: if approve {
                "approved".to_owned()
            } else {
                "rejected".to_owned()
            },
            by: Some(config.platform_admin),
        };
        Self::log(inv, &user, entry);
        if approve {
            inv.publish(Event::UserVerified(user));
        }
        Ok(())
    }

    /// Get the full verification history for a user.
    pub fn get_verification_history(inv: &mut Invocation, user: Address) -> (r: Vec<
        VerificationEntry,
    >)
        ensures
            r.deep_view() == old(inv)@.get_verification_history(user@).value,
            final(inv)@ == old(inv)@.done(old(inv)@.get_verification_history(user@)),
    {
        let history = Self::read_history(inv, &user);
        if inv.storage.histories.contains(user.strkey.as_str()) {
            inv.extend_persistent(DataKey::VerificationHistory(user));
        }
        history
    }

    /// Get all addresses currently awaiting manual verification (admin helper).
    pub fn get_verification_queue(inv: &mut Invocation) -> (r: Vec<Address>)
        ensures
            r.deep_view() == old(inv)@.get_verification_queue().value,
            final(inv)@ == old(inv)@.done(old(inv)@.get_verification_queue()),
    {
        let queue = Self::read_queue(inv);
        if inv.storage.queue.is_some() {
            inv.extend_persistent(DataKey::VerificationQueue);
        }
        queue
    }

    /// Update a user's reputation counters (called by the escrow contract after a
    /// state change, or by the admin if none is set). A user who is not onboarded
    /// is skipped silently.
    pub fn update_reputation(
        inv: &mut Invocation,
        address: Address,
        successful_delta: u32,
        disputed_delta: u32,
    ) -> (r: Result<(), OnboardingError>)
        ensures
            answered(r) == answer(
                old(inv)@.update_reputation(address@, successful_delta, disputed_delta),
            ),
            final(inv)@ == old(inv)@.after(
                old(inv)@.update_reputation(address@, successful_delta, disputed_delta),
            ),
    {
        Self::require_reporter(inv)?;
        inv.extend_persistent(DataKey::Config);
        let mut profile = match Self::look_up(inv, address.clone()) {
            Some(profile) => profile,
            None => {
                return Ok(());
            },
        };
        profile.successful_trades = profile.successful_trades.saturating_add(successful_delta);
        profile.disputed_trades = profile.disputed_trades.saturating_add(disputed_delta);
        Self::store_profile(inv, &address, &profile);
        Ok(())
    }

    /// Get a user's reputation counters: successful trades and disputed trades,
    /// both zero if the user is not onboarded.
    pub fn get_user_reputation(inv: &mut Invocation, address: Address) -> (r: (u32, u32))
        ensures
            r == old(inv)@.get_user_reputation(address@).value,
            final(inv)@ == old(inv)@.done(old(inv)@.get_user_reputation(address@)),
    {
        match Self::look_up(inv, address) {
            Some(profile) => (profile.successful_trades, profile.disputed_trades),
            None => (0, 0),
        }
    }
}

} // verus!
