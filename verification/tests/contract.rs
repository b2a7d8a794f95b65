use craft_nexus_onboarding::contract::OnboardingContract;
use craft_nexus_onboarding::error::OnboardingError;
use craft_nexus_onboarding::invocation::{
    Effect, Event, Invocation, TTL_EXTENSION, TTL_THRESHOLD,
};
use craft_nexus_onboarding::storage::{DataKey, Storage};
use craft_nexus_onboarding::types::{
    Address, OnboardingConfig, ProfileRecord, UserMetrics, UserProfile, UserRole,
    VerificationEntry, SCHEMA_VERSION,
};

/// The contract's storage from one invocation to the next.
struct Ledger {
    storage: Storage,
    now: u64,
    effects: Vec<Effect>,
}

impl Ledger {
    fn empty() -> Ledger {
        Ledger { storage: Storage::new(), now: 1_000, effects: Vec::new() }
    }

    /// A contract that "root" administers.
    fn initialized() -> Ledger {
        let mut ledger = Ledger::empty();
        let config = ledger.call(&["root"], |inv| {
            OnboardingContract::initialize(inv, address("root"))
        });
        assert!(config.is_ok());
        ledger
    }

    /// An initialized contract with a buyer "bea" and an artisan "art".
    fn peopled() -> Ledger {
        let mut ledger = Ledger::initialized();
        assert!(ledger.onboard("bea", "Beatrice", UserRole::Buyer).is_ok());
        assert!(ledger.onboard("art", "Arthur", UserRole::Artisan).is_ok());
        ledger
    }

    /// One invocation, authorized by `signers`.
    fn call<T>(&mut self, signers: &[&str], f: impl FnOnce(&mut Invocation) -> T) -> T {
        let storage = std::mem::replace(&mut self.storage, Storage::new());
        let signers = signers.iter().map(|s| address(s)).collect();
        let mut inv = Invocation::new(storage, self.now, signers);
        let answer = f(&mut inv);
        self.storage = inv.storage;
        self.effects = inv.effects;
        answer
    }

    fn onboard(
        &mut self,
        user: &str,
        username: &str,
        role: UserRole,
    ) -> Result<UserProfile, OnboardingError> {
        self.call(&[user], |inv| {
            OnboardingContract::onboard_user(inv, address(user), username.as_bytes(), role)
        })
    }

    fn user(&mut self, user: &str) -> Result<UserProfile, OnboardingError> {
        self.call(&[], |inv| OnboardingContract::get_user(inv, address(user)))
    }

    fn config(&mut self) -> Result<OnboardingConfig, OnboardingError> {
        self.call(&[], |inv| OnboardingContract::get_config(inv))
    }

    fn report(
        &mut self,
        by: &str,
        user: &str,
        count: u32,
        volume: i128,
    ) -> Result<(), OnboardingError> {
        self.call(&[by], |inv| {
            OnboardingContract::update_user_metrics(inv, address(user), count, volume)
        })
    }

    fn metrics(&mut self, user: &str) -> UserMetrics {
        self.call(&[], |inv| OnboardingContract::get_user_metrics(inv, address(user)))
    }

    fn queue(&mut self) -> Vec<Address> {
        self.call(&[], |inv| OnboardingContract::get_verification_queue(inv))
    }

    fn history(&mut self, user: &str) -> Vec<VerificationEntry> {
        self.call(&[], |inv| {
            OnboardingContract::get_verification_history(inv, address(user))
        })
    }

    fn request(&mut self, user: &str) -> Result<(), OnboardingError> {
        self.call(&[user], |inv| OnboardingContract::request_verification(inv, address(user)))
    }

    fn process(&mut self, user: &str, approve: bool) -> Result<(), OnboardingError> {
        self.call(&["root"], |inv| {
            OnboardingContract::process_verification_request(inv, address(user), approve)
        })
    }

    fn verified(&mut self, user: &str) -> bool {
        self.call(&[], |inv| OnboardingContract::is_verified(inv, address(user)))
    }

    fn reputation(&mut self, user: &str) -> (u32, u32) {
        self.call(&[], |inv| OnboardingContract::get_user_reputation(inv, address(user)))
    }
}

fn address(strkey: &str) -> Address {
    Address { strkey: strkey.to_string() }
}

fn metrics(total_escrow_count: u32, total_volume: i128) -> UserMetrics {
    UserMetrics { total_escrow_count, total_volume }
}

fn entry(timestamp: u64, action: &str, by: Option<&str>) -> VerificationEntry {
    VerificationEntry { timestamp, action: action.to_string(), by: by.map(address) }
}

fn profile_key(user: &str) -> DataKey {
    DataKey::UserProfile(address(user))
}

fn extend(key: DataKey) -> Effect {
    Effect::ExtendTtl { key, threshold: 10_000, extend_to: 518_400 }
}

/// A profile that was stored before versions were kept.
fn legacy(user: &str, username: &str) -> ProfileRecord {
    ProfileRecord {
        version: None,
        address: address(user),
        role: UserRole::Artisan,
        username: username.to_string(),
        registered_at: 77,
        is_verified: false,
        successful_trades: 8,
        disputed_trades: 3,
    }
}

/// An initialized contract that still has the profile of "old" without a version.
fn with_legacy() -> Ledger {
    let mut ledger = Ledger::initialized();
    ledger.storage.profiles.insert("old".to_string(), legacy("old", "oldie"));
    ledger.storage.usernames.insert("oldie".to_string(), address("old"));
    ledger
}

// Initialization

#[test]
fn initialization_writes_the_default_configuration() {
    let mut ledger = Ledger::empty();
    let config = ledger.call(&["root"], |inv| {
        OnboardingContract::initialize(inv, address("root"))
    });
    let expected = OnboardingConfig {
        require_username: true,
        min_username_length: 3,
        max_username_length: 50,
        platform_admin: address("root"),
        min_escrow_count_for_verify: 5,
        min_volume_for_verify: 10_000_000_000,
        escrow_contract: None,
    };
    assert_eq!(config, Ok(expected.clone()));
    assert_eq!(
        ledger.effects,
        vec![
            Effect::Store(DataKey::Config),
            extend(DataKey::Config),
            Effect::Store(profile_key("root")),
            extend(profile_key("root")),
            Effect::Store(DataKey::Username("admin".to_string())),
            extend(DataKey::Username("admin".to_string())),
        ]
    );
    assert_eq!(ledger.config(), Ok(expected));
}

#[test]
fn initialization_registers_the_admin() {
    let mut ledger = Ledger::initialized();
    assert_eq!(
        ledger.user("root"),
        Ok(UserProfile {
            version: SCHEMA_VERSION,
            address: address("root"),
            role: UserRole::Admin,
            username: "admin".to_string(),
            registered_at: 1_000,
            is_verified: true,
            successful_trades: 0,
            disputed_trades: 0,
        })
    );
    let taken = ledger.call(&[], |inv| OnboardingContract::is_username_taken(inv, b" AdMin "));
    assert_eq!(taken, Ok(true));
    assert_eq!(
        ledger.onboard("bea", "ADMIN", UserRole::Buyer),
        Err(OnboardingError::UsernameTaken)
    );
}

#[test]
fn initialization_needs_the_admins_authorization() {
    let mut ledger = Ledger::empty();
    let config = ledger.call(&["bea"], |inv| {
        OnboardingContract::initialize(inv, address("root"))
    });
    assert_eq!(config, Err(OnboardingError::Unauthorized));
    assert!(ledger.effects.is_empty());
    assert!(ledger.storage.config.is_none());
    assert!(!ledger.storage.profiles.contains("root"));
}

#[test]
fn a_second_initialization_starts_the_configuration_anew() {
    let mut ledger = Ledger::initialized();
    ledger
        .call(&["root"], |inv| {
            OnboardingContract::set_verification_thresholds(inv, 1, 2)
        })
        .unwrap();
    ledger
        .call(&["next"], |inv| OnboardingContract::initialize(inv, address("next")))
        .unwrap();
    let config = ledger.config().unwrap();
    assert_eq!(config.platform_admin, address("next"));
    assert_eq!(config.min_escrow_count_for_verify, 5);
    let owner = ledger.call(&[], |inv| {
        OnboardingContract::get_user_by_username(inv, b"admin")
    });
    assert_eq!(owner.unwrap().address, address("next"));
    // The first admin keeps the profile, but no longer owns the username in it.
    assert_eq!(ledger.user("root").unwrap().username, "admin");
}

#[test]
fn calls_wait_for_initialization() {
    let mut ledger = Ledger::empty();
    let refused = OnboardingError::NotInitialized;
    assert_eq!(ledger.onboard("bea", "beatrice", UserRole::Buyer), Err(refused));
    assert_eq!(ledger.config(), Err(refused));
    assert_eq!(ledger.report("root", "bea", 1, 1), Err(refused));
    assert_eq!(ledger.process("bea", true), Err(refused));
    ledger.call(&["root"], |inv| {
        assert_eq!(OnboardingContract::admin(inv), Err(refused));
        assert_eq!(OnboardingContract::reporter(inv), Err(refused));
        let user = address("bea");
        assert_eq!(
            OnboardingContract::update_user_role(inv, user.clone(), UserRole::Admin),
            Err(refused)
        );
        assert_eq!(OnboardingContract::verify_user(inv, user.clone()), Err(refused));
        assert_eq!(OnboardingContract::set_escrow_contract(inv, user.clone()), Err(refused));
        assert_eq!(
            OnboardingContract::set_verification_thresholds(inv, 1, 1),
            Err(refused)
        );
        assert_eq!(OnboardingContract::auto_verify_user(inv, user.clone()), Err(refused));
        assert_eq!(
            OnboardingContract::update_reputation(inv, user, 1, 1),
            Err(refused)
        );
        assert!(inv.effects.is_empty());
    });
}

// Onboarding

#[test]
fn onboarding_registers_the_user() {
    let mut ledger = Ledger::initialized();
    ledger.now = 2_500;
    let expected = UserProfile {
        version: 2,
        address: address("bea"),
        role: UserRole::Buyer,
        username: "beatrice".to_string(),
        registered_at: 2_500,
        is_verified: false,
        successful_trades: 0,
        disputed_trades: 0,
    };
    assert_eq!(ledger.onboard("bea", " Beatrice ", UserRole::Buyer), Ok(expected.clone()));
    let name_key = DataKey::Username("beatrice".to_string());
    assert_eq!(
        ledger.effects,
        vec![
            extend(DataKey::Config),
            Effect::Store(profile_key("bea")),
            extend(profile_key("bea")),
            Effect::Store(name_key.clone()),
            extend(name_key.clone()),
            Effect::Publish(Event::UserOnboarded(address("bea"))),
        ]
    );
    assert_eq!(ledger.user("bea"), Ok(expected.clone()));
    assert_eq!(ledger.effects, vec![extend(profile_key("bea"))]);
    let found = ledger.call(&[], |inv| {
        OnboardingContract::get_user_by_username(inv, b"BEATRICE")
    });
    assert_eq!(found, Ok(expected));
    assert_eq!(ledger.effects, vec![extend(name_key), extend(profile_key("bea"))]);
}

#[test]
fn what_onboarding_registered_reads_back() {
    let mut ledger = Ledger::peopled();
    ledger.call(&[], |inv| {
        assert!(OnboardingContract::is_onboarded(inv, address("art")));
        assert_eq!(OnboardingContract::get_user_role(inv, address("art")), UserRole::Artisan);
        assert!(OnboardingContract::has_role(inv, address("art"), UserRole::Artisan));
        assert!(!OnboardingContract::has_role(inv, address("art"), UserRole::Buyer));
        assert!(!OnboardingContract::is_verified(inv, address("art")));
        assert_eq!(OnboardingContract::get_user_reputation(inv, address("art")), (0, 0));
        assert_eq!(OnboardingContract::is_username_taken(inv, b"arthur"), Ok(true));
        assert_eq!(inv.effects.len(), 7);
    });
}

#[test]
fn strangers_have_no_profile() {
    let mut ledger = Ledger::peopled();
    assert_eq!(ledger.user("zoe"), Err(OnboardingError::UserNotFound));
    ledger.call(&[], |inv| {
        let zoe = address("zoe");
        assert!(!OnboardingContract::is_onboarded(inv, zoe.clone()));
        assert_eq!(OnboardingContract::get_user_role(inv, zoe.clone()), UserRole::NoRole);
        assert!(OnboardingContract::has_role(inv, zoe.clone(), UserRole::NoRole));
        assert!(!OnboardingContract::is_verified(inv, zoe.clone()));
        assert_eq!(OnboardingContract::get_user_reputation(inv, zoe.clone()), (0, 0));
        assert_eq!(OnboardingContract::get_user_metrics(inv, zoe.clone()), metrics(0, 0));
        assert_eq!(OnboardingContract::get_verification_history(inv, zoe), vec![]);
        assert_eq!(OnboardingContract::get_verification_queue(inv), vec![]);
        assert_eq!(OnboardingContract::is_username_taken(inv, b"zoe"), Ok(false));
        assert_eq!(
            OnboardingContract::get_user_by_username(inv, b"zoe"),
            Err(OnboardingError::UsernameNotFound)
        );
        assert!(inv.effects.is_empty());
    });
}

#[test]
fn onboarding_needs_the_users_authorization() {
    let mut ledger = Ledger::initialized();
    let refused = ledger.call(&["root", "art"], |inv| {
        OnboardingContract::onboard_user(inv, address("bea"), b"beatrice", UserRole::Buyer)
    });
    assert_eq!(refused, Err(OnboardingError::Unauthorized));
    assert!(ledger.effects.is_empty());
    assert!(!ledger.storage.profiles.contains("bea"));
}

#[test]
fn users_onboard_as_buyers_or_artisans_only() {
    let mut ledger = Ledger::initialized();
    for role in [UserRole::NoRole, UserRole::Admin] {
        assert_eq!(
            ledger.onboard("bea", "beatrice", role),
            Err(OnboardingError::InvalidRole)
        );
    }
    assert!(ledger.onboard("bea", "beatrice", UserRole::Buyer).is_ok());
    assert!(ledger.onboard("art", "arthur", UserRole::Artisan).is_ok());
}

#[test]
fn username_lengths_are_bounded_after_normalization() {
    let mut ledger = Ledger::initialized();
    let short = OnboardingError::UsernameTooShort;
    let long = OnboardingError::UsernameTooLong;
    assert_eq!(ledger.onboard("bea", "", UserRole::Buyer), Err(short));
    assert_eq!(ledger.onboard("bea", "  ab  ", UserRole::Buyer), Err(short));
    assert_eq!(ledger.onboard("bea", &"a".repeat(51), UserRole::Buyer), Err(long));
    assert_eq!(ledger.onboard("bea", &"a".repeat(257), UserRole::Buyer), Err(long));
    // Not a text: it normalizes to the empty name.
    let garbage = ledger.call(&["bea"], |inv| {
        OnboardingContract::onboard_user(inv, address("bea"), &[0xff; 10], UserRole::Buyer)
    });
    assert_eq!(garbage, Err(short));
    // Lengths count bytes.
    assert_eq!(ledger.onboard("bea", &"\u{e9}".repeat(26), UserRole::Buyer), Err(long));
    assert!(ledger.onboard("bea", "\u{e9}a", UserRole::Buyer).is_ok());
    assert!(ledger.onboard("art", " abc ", UserRole::Buyer).is_ok());
    let padded = format!("  {}  ", "b".repeat(50));
    assert!(ledger.onboard("cid", &padded, UserRole::Buyer).is_ok());
}

#[test]
fn nobody_onboards_twice() {
    let mut ledger = Ledger::peopled();
    assert_eq!(
        ledger.onboard("bea", "other_name", UserRole::Artisan),
        Err(OnboardingError::AlreadyOnboarded)
    );
    assert_eq!(
        ledger.onboard("bea", "arthur", UserRole::Artisan),
        Err(OnboardingError::AlreadyOnboarded)
    );
    assert!(ledger.effects.is_empty());
    assert_eq!(ledger.user("bea").unwrap().username, "beatrice");
}

#[test]
fn usernames_are_unique_whatever_their_case() {
    let mut ledger = Ledger::peopled();
    for taken in ["arthur", "ARTHUR", "  aRtHuR "] {
        assert_eq!(
            ledger.onboard("zoe", taken, UserRole::Buyer),
            Err(OnboardingError::UsernameTaken)
        );
    }
    assert_eq!(ledger.user("zoe"), Err(OnboardingError::UserNotFound));
    // An inner space makes another username.
    assert!(ledger.onboard("zoe", "art hur", UserRole::Buyer).is_ok());
    let owner = ledger.call(&[], |inv| {
        OnboardingContract::get_user_by_username(inv, b"arthur")
    });
    assert_eq!(owner.unwrap().address, address("art"));
}

#[test]
fn the_order_of_tests_decides_the_error() {
    let mut ledger = Ledger::peopled();
    // Role before length, length before the existing profile.
    assert_eq!(
        ledger.onboard("bea", "x", UserRole::Admin),
        Err(OnboardingError::InvalidRole)
    );
    assert_eq!(
        ledger.onboard("bea", "x", UserRole::Buyer),
        Err(OnboardingError::UsernameTooShort)
    );
    // Authorization before everything.
    let refused = ledger.call(&[], |inv| {
        OnboardingContract::onboard_user(inv, address("bea"), b"x", UserRole::Admin)
    });
    assert_eq!(refused, Err(OnboardingError::Unauthorized));
}

#[test]
fn over_long_usernames_are_refused_by_queries() {
    let mut ledger = Ledger::peopled();
    let long = [b'a'; 257];
    let taken = ledger.call(&[], |inv| OnboardingContract::is_username_taken(inv, &long));
    assert_eq!(taken, Err(OnboardingError::UsernameTooLong));
    let owner = ledger.call(&[], |inv| OnboardingContract::get_user_by_username(inv, &long));
    assert_eq!(owner, Err(OnboardingError::UsernameTooLong));
}

#[test]
fn a_username_whose_owner_has_no_profile_finds_nobody() {
    let mut ledger = Ledger::initialized();
    ledger.storage.usernames.insert("ghost".to_string(), address("gone"));
    let owner = ledger.call(&[], |inv| OnboardingContract::get_user_by_username(inv, b"ghost"));
    assert_eq!(owner, Err(OnboardingError::UserNotFound));
    assert!(ledger.effects.is_empty());
}

// Administration

#[test]
fn the_admin_updates_roles() {
    let mut ledger = Ledger::peopled();
    let before = ledger.user("bea").unwrap();
    let updated = ledger.call(&["root"], |inv| {
        OnboardingContract::update_user_role(inv, address("bea"), UserRole::Artisan)
    });
    let expected = UserProfile { role: UserRole::Artisan, ..before };
    assert_eq!(updated, Ok(expected.clone()));
    assert_eq!(
        ledger.effects,
        vec![
            extend(DataKey::Config),
            extend(profile_key("bea")),
            Effect::Store(profile_key("bea")),
            extend(profile_key("bea")),
            Effect::Publish(Event::RoleUpdated(address("bea"))),
        ]
    );
    assert_eq!(ledger.user("bea"), Ok(expected));
    // The admin may take a role away, too.
    let removed = ledger.call(&["root"], |inv| {
        OnboardingContract::update_user_role(inv, address("bea"), UserRole::NoRole)
    });
    assert_eq!(removed.unwrap().role, UserRole::NoRole);
    ledger.call(&[], |inv| {
        assert!(OnboardingContract::is_onboarded(inv, address("bea")));
        assert_eq!(OnboardingContract::get_user_role(inv, address("bea")), UserRole::NoRole);
    });
}

#[test]
fn the_admin_verifies_users() {
    let mut ledger = Ledger::peopled();
    let before = ledger.user("art").unwrap();
    let verified = ledger.call(&["root"], |inv| {
        OnboardingContract::verify_user(inv, address("art"))
    });
    assert_eq!(verified, Ok(UserProfile { is_verified: true, ..before }));
    assert_eq!(
        ledger.effects.last(),
        Some(&Effect::Publish(Event::UserVerified(address("art"))))
    );
    assert!(ledger.verified("art"));
    assert!(!ledger.verified("bea"));
    // Direct verification leaves no entry in the history.
    assert_eq!(ledger.history("art"), vec![]);
}

#[test]
fn only_the_admin_administers() {
    let mut ledger = Ledger::peopled();
    let refused = OnboardingError::Unauthorized;
    ledger.call(&["bea", "art"], |inv| {
        let bea = address("bea");
        assert_eq!(
            OnboardingContract::update_user_role(inv, bea.clone(), UserRole::Admin),
            Err(refused)
        );
        assert_eq!(OnboardingContract::verify_user(inv, bea.clone()), Err(refused));
        assert_eq!(OnboardingContract::set_escrow_contract(inv, bea.clone()), Err(refused));
        assert_eq!(
            OnboardingContract::set_verification_thresholds(inv, 0, 0),
            Err(refused)
        );
        assert_eq!(
            OnboardingContract::process_verification_request(inv, bea, true),
            Err(refused)
        );
        assert!(inv.effects.is_empty());
        assert_eq!(OnboardingContract::admin(inv), Ok(address("root")));
    });
    assert_eq!(ledger.user("bea").unwrap().role, UserRole::Buyer);
    assert_eq!(ledger.config().unwrap().escrow_contract, None);
}

#[test]
fn administration_of_strangers_is_refused() {
    let mut ledger = Ledger::peopled();
    let unknown = OnboardingError::UserNotFound;
    ledger.call(&["root"], |inv| {
        let zoe = address("zoe");
        assert_eq!(
            OnboardingContract::update_user_role(inv, zoe.clone(), UserRole::Buyer),
            Err(unknown)
        );
        assert_eq!(OnboardingContract::verify_user(inv, zoe.clone()), Err(unknown));
        assert_eq!(
            OnboardingContract::process_verification_request(inv, zoe.clone(), true),
            Err(unknown)
        );
        assert_eq!(OnboardingContract::auto_verify_user(inv, zoe), Err(unknown));
        assert!(inv.effects.is_empty());
    });
}

#[test]
fn the_configuration_changes_field_by_field() {
    let mut ledger = Ledger::initialized();
    let before = ledger.config().unwrap();
    ledger
        .call(&["root"], |inv| {
            OnboardingContract::set_escrow_contract(inv, address("escrow"))
        })
        .unwrap();
    assert_eq!(
        ledger.effects,
        vec![
            extend(DataKey::Config),
            Effect::Store(DataKey::Config),
            extend(DataKey::Config),
        ]
    );
    ledger
        .call(&["root"], |inv| {
            OnboardingContract::set_verification_thresholds(inv, 7, -9)
        })
        .unwrap();
    assert_eq!(
        ledger.config(),
        Ok(OnboardingConfig {
            escrow_contract: Some(address("escrow")),
            min_escrow_count_for_verify: 7,
            min_volume_for_verify: -9,
            ..before
        })
    );
}

// Metrics and auto-verification

#[test]
fn the_registered_escrow_contract_displaces_the_admin_as_reporter() {
    let mut ledger = Ledger::peopled();
    assert_eq!(ledger.report("root", "art", 1, 10), Ok(()));
    assert_eq!(ledger.report("art", "art", 1, 10), Err(OnboardingError::Unauthorized));
    ledger
        .call(&["root"], |inv| {
            assert_eq!(OnboardingContract::reporter(inv), Ok(address("root")));
            OnboardingContract::set_escrow_contract(inv, address("escrow"))
        })
        .unwrap();
    assert_eq!(ledger.report("root", "art", 1, 10), Err(OnboardingError::Unauthorized));
    assert!(ledger.effects.is_empty());
    assert_eq!(ledger.report("escrow", "art", 2, 20), Ok(()));
    assert_eq!(ledger.metrics("art"), metrics(3, 30));
    let refused = ledger.call(&["root"], |inv| {
        assert_eq!(OnboardingContract::reporter(inv), Ok(address("escrow")));
        OnboardingContract::update_reputation(inv, address("art"), 1, 1)
    });
    assert_eq!(refused, Err(OnboardingError::Unauthorized));
    assert_eq!(ledger.reputation("art"), (0, 0));
}

#[test]
fn reported_metrics_add_up() {
    let mut ledger = Ledger::peopled();
    ledger.report("root", "art", 2, 1_000).unwrap();
    let key = DataKey::UserMetrics(address("art"));
    assert_eq!(
        ledger.effects,
        vec![extend(DataKey::Config), Effect::Store(key.clone()), extend(key.clone())]
    );
    ledger.report("root", "art", 1, -250).unwrap();
    assert_eq!(ledger.metrics("art"), metrics(3, 750));
    assert_eq!(ledger.effects, vec![extend(key)]);
    assert_eq!(ledger.metrics("bea"), metrics(0, 0));
}

#[test]
fn metrics_stop_at_the_numeric_bounds() {
    let mut ledger = Ledger::peopled();
    ledger.report("root", "art", u32::MAX, i128::MAX).unwrap();
    ledger.report("root", "art", 1, 1).unwrap();
    assert_eq!(ledger.metrics("art"), metrics(u32::MAX, i128::MAX));
    ledger.report("root", "bea", 0, i128::MIN).unwrap();
    ledger.report("root", "bea", 0, -1).unwrap();
    assert_eq!(ledger.metrics("bea"), metrics(0, i128::MIN));
    ledger.report("root", "bea", 0, i128::MAX).unwrap();
    assert_eq!(ledger.metrics("bea"), metrics(0, -1));
}

#[test]
fn strangers_have_metrics_but_are_not_verified() {
    let mut ledger = Ledger::initialized();
    ledger.report("root", "zoe", 100, 20_000_000_000).unwrap();
    assert_eq!(ledger.metrics("zoe"), metrics(100, 20_000_000_000));
    assert!(!ledger.verified("zoe"));
    assert_eq!(ledger.history("zoe"), vec![]);
}

#[test]
fn a_report_verifies_a_user_who_reaches_the_thresholds() {
    let mut ledger = Ledger::peopled();
    ledger.report("root", "art", 4, 10_000_000_000).unwrap();
    assert!(!ledger.verified("art"));
    ledger.now = 3_000;
    ledger.report("root", "art", 1, 0).unwrap();
    let metrics_key = DataKey::UserMetrics(address("art"));
    let history_key = DataKey::VerificationHistory(address("art"));
    assert_eq!(
        ledger.effects,
        vec![
            extend(DataKey::Config),
            Effect::Store(metrics_key.clone()),
            extend(metrics_key),
            Effect::Store(profile_key("art")),
            extend(profile_key("art")),
            Effect::Store(history_key.clone()),
            extend(history_key.clone()),
            Effect::Publish(Event::UserVerified(address("art"))),
        ]
    );
    assert!(ledger.verified("art"));
    assert_eq!(ledger.history("art"), vec![entry(3_000, "auto_verified", None)]);
    assert_eq!(ledger.effects, vec![extend(history_key)]);
    // Once is enough.
    ledger.report("root", "art", 1, 0).unwrap();
    assert_eq!(ledger.history("art").len(), 1);
}

#[test]
fn both_thresholds_must_be_reached() {
    let mut ledger = Ledger::peopled();
    ledger.report("root", "art", 50, 9_999_999_999).unwrap();
    assert!(!ledger.verified("art"));
    ledger.report("root", "bea", 4, 99_000_000_000).unwrap();
    assert!(!ledger.verified("bea"));
    ledger.report("root", "art", 0, 1).unwrap();
    assert!(ledger.verified("art"));
}

#[test]
fn anyone_may_trigger_auto_verification() {
    let mut ledger = Ledger::peopled();
    ledger.report("root", "art", 2, 500).unwrap();
    let early = ledger.call(&[], |inv| OnboardingContract::auto_verify_user(inv, address("art")));
    assert_eq!(early, Ok(false));
    assert_eq!(ledger.effects, vec![extend(DataKey::Config), extend(profile_key("art"))]);
    assert!(!ledger.verified("art"));
    ledger
        .call(&["root"], |inv| {
            OnboardingContract::set_verification_thresholds(inv, 2, 500)
        })
        .unwrap();
    ledger.now = 4_000;
    let due = ledger.call(&[], |inv| OnboardingContract::auto_verify_user(inv, address("art")));
    assert_eq!(due, Ok(true));
    let history_key = DataKey::VerificationHistory(address("art"));
    assert_eq!(
        ledger.effects,
        vec![
            extend(DataKey::Config),
            extend(profile_key("art")),
            Effect::Store(profile_key("art")),
            extend(profile_key("art")),
            Effect::Store(history_key.clone()),
            extend(history_key),
            Effect::Publish(Event::UserVerified(address("art"))),
        ]
    );
    assert_eq!(ledger.history("art"), vec![entry(4_000, "auto_verified", None)]);
    let again = ledger.call(&[], |inv| OnboardingContract::auto_verify_user(inv, address("art")));
    assert_eq!(again, Ok(false));
    assert_eq!(ledger.history("art").len(), 1);
}

// Manual verification

#[test]
fn a_request_waits_in_the_queue() {
    let mut ledger = Ledger::peopled();
    ledger.now = 5_000;
    ledger.request("bea").unwrap();
    let history_key = DataKey::VerificationHistory(address("bea"));
    assert_eq!(
        ledger.effects,
        vec![
            Effect::Store(DataKey::VerificationQueue),
            extend(DataKey::VerificationQueue),
            Effect::Store(history_key.clone()),
            extend(history_key),
        ]
    );
    ledger.request("art").unwrap();
    assert_eq!(ledger.queue(), vec![address("bea"), address("art")]);
    assert_eq!(ledger.effects, vec![extend(DataKey::VerificationQueue)]);
    assert_eq!(ledger.history("bea"), vec![entry(5_000, "requested", Some("bea"))]);
    assert!(!ledger.verified("bea"));
}

#[test]
fn a_second_request_is_a_no_op() {
    let mut ledger = Ledger::peopled();
    ledger.request("bea").unwrap();
    ledger.request("art").unwrap();
    ledger.now = 6_000;
    assert_eq!(ledger.request("bea"), Ok(()));
    assert!(ledger.effects.is_empty());
    assert_eq!(ledger.queue(), vec![address("bea"), address("art")]);
    assert_eq!(ledger.history("bea").len(), 1);
}

#[test]
fn requests_need_the_users_authorization_and_profile() {
    let mut ledger = Ledger::peopled();
    let refused = ledger.call(&["root"], |inv| {
        OnboardingContract::request_verification(inv, address("bea"))
    });
    assert_eq!(refused, Err(OnboardingError::Unauthorized));
    assert_eq!(ledger.request("zoe"), Err(OnboardingError::UserNotFound));
    assert!(ledger.storage.queue.is_none());
}

#[test]
fn an_approved_request_verifies_the_user() {
    let mut ledger = Ledger::peopled();
    ledger.request("bea").unwrap();
    ledger.request("art").unwrap();
    ledger.now = 7_000;
    ledger.process("bea", true).unwrap();
    let history_key = DataKey::VerificationHistory(address("bea"));
    assert_eq!(
        ledger.effects,
        vec![
            extend(DataKey::Config),
            extend(profile_key("bea")),
            Effect::Store(profile_key("bea")),
            extend(profile_key("bea")),
            Effect::Store(DataKey::VerificationQueue),
            extend(DataKey::VerificationQueue),
            Effect::Store(history_key.clone()),
            extend(history_key),
            Effect::Publish(Event::UserVerified(address("bea"))),
        ]
    );
    assert!(ledger.verified("bea"));
    assert_eq!(ledger.queue(), vec![address("art")]);
    assert_eq!(
        ledger.history("bea"),
        vec![
            entry(1_000, "requested", Some("bea")),
            entry(7_000, "approved", Some("root")),
        ]
    );
    assert_eq!(ledger.history("art").len(), 1);
}

#[test]
fn a_rejected_user_is_not_verified_and_may_ask_again() {
    let mut ledger = Ledger::peopled();
    ledger.request("bea").unwrap();
    ledger.process("bea", false).unwrap();
    assert!(!ledger.effects.iter().any(|effect| matches!(effect, Effect::Publish(_))));
    assert!(!ledger.verified("bea"));
    assert_eq!(ledger.queue(), vec![]);
    ledger.request("bea").unwrap();
    assert_eq!(ledger.queue(), vec![address("bea")]);
    let actions: Vec<String> = ledger.history("bea").into_iter().map(|e| e.action).collect();
    assert_eq!(actions, vec!["requested", "rejected", "requested"]);
}

#[test]
fn a_rejection_ends_verification() {
    let mut ledger = Ledger::peopled();
    ledger.process("art", true).unwrap();
    assert!(ledger.verified("art"));
    // There was no request: the queue is written all the same, empty.
    assert_eq!(ledger.queue(), vec![]);
    assert!(ledger.storage.queue.is_some());
    ledger.process("art", false).unwrap();
    assert!(!ledger.verified("art"));
}

#[test]
fn the_queue_keeps_its_order_when_one_leaves() {
    let mut ledger = Ledger::peopled();
    ledger.onboard("cid", "cidney", UserRole::Artisan).unwrap();
    for user in ["art", "bea", "cid"] {
        ledger.request(user).unwrap();
    }
    ledger.process("bea", true).unwrap();
    assert_eq!(ledger.queue(), vec![address("art"), address("cid")]);
}

// Reputation

#[test]
fn reputation_adds_up() {
    let mut ledger = Ledger::peopled();
    let rate = |ledger: &mut Ledger, good: u32, bad: u32| {
        ledger.call(&["root"], |inv| {
            OnboardingContract::update_reputation(inv, address("art"), good, bad)
        })
    };
    assert_eq!(rate(&mut ledger, 3, 1), Ok(()));
    assert_eq!(
        ledger.effects,
        vec![
            extend(DataKey::Config),
            extend(profile_key("art")),
            Effect::Store(profile_key("art")),
            extend(profile_key("art")),
        ]
    );
    assert_eq!(rate(&mut ledger, 2, 0), Ok(()));
    assert_eq!(ledger.reputation("art"), (5, 1));
    assert_eq!(rate(&mut ledger, u32::MAX, u32::MAX - 1), Ok(()));
    assert_eq!(ledger.reputation("art"), (u32::MAX, u32::MAX));
    let profile = ledger.user("art").unwrap();
    assert_eq!(profile.role, UserRole::Artisan);
    assert!(!profile.is_verified);
}

#[test]
fn reputation_of_strangers_is_passed_over() {
    let mut ledger = Ledger::initialized();
    let skipped = ledger.call(&["root"], |inv| {
        OnboardingContract::update_reputation(inv, address("zoe"), 1, 1)
    });
    assert_eq!(skipped, Ok(()));
    assert_eq!(ledger.effects, vec![extend(DataKey::Config)]);
    assert_eq!(ledger.reputation("zoe"), (0, 0));
    assert!(!ledger.storage.profiles.contains("zoe"));
}

// Schema versions

#[test]
fn a_read_upgrades_a_profile_without_a_version() {
    let mut ledger = with_legacy();
    let expected = UserProfile {
        version: 2,
        address: address("old"),
        role: UserRole::Artisan,
        username: "oldie".to_string(),
        registered_at: 77,
        is_verified: false,
        successful_trades: 8,
        disputed_trades: 3,
    };
    assert_eq!(ledger.user("old"), Ok(expected.clone()));
    assert_eq!(
        ledger.effects,
        vec![
            Effect::Store(profile_key("old")),
            extend(profile_key("old")),
            extend(profile_key("old")),
        ]
    );
    assert_eq!(ledger.storage.profiles.get("old"), Some(&expected.record()));
    // The second read finds the version and writes nothing.
    assert_eq!(ledger.user("old"), Ok(expected));
    assert_eq!(ledger.effects, vec![extend(profile_key("old"))]);
}

#[test]
fn every_way_to_load_a_profile_upgrades_it() {
    let reads: Vec<fn(&mut Invocation)> = vec![
        |inv| {
            OnboardingContract::get_user_by_username(inv, b"Oldie").unwrap();
        },
        |inv| {
            OnboardingContract::is_onboarded(inv, address("old"));
        },
        |inv| {
            OnboardingContract::get_user_role(inv, address("old"));
        },
        |inv| {
            OnboardingContract::has_role(inv, address("old"), UserRole::Buyer);
        },
        |inv| {
            OnboardingContract::is_verified(inv, address("old"));
        },
        |inv| {
            OnboardingContract::get_user_reputation(inv, address("old"));
        },
        |inv| {
            OnboardingContract::update_user_role(inv, address("old"), UserRole::Buyer).unwrap();
        },
        |inv| {
            OnboardingContract::verify_user(inv, address("old")).unwrap();
        },
        |inv| {
            OnboardingContract::update_user_metrics(inv, address("old"), 1, 1).unwrap();
        },
        |inv| {
            OnboardingContract::update_user_metrics(inv, address("old"), 9, 1 << 60).unwrap();
        },
        |inv| {
            OnboardingContract::auto_verify_user(inv, address("old")).unwrap();
        },
        |inv| {
            OnboardingContract::process_verification_request(inv, address("old"), false).unwrap();
        },
        |inv| {
            OnboardingContract::update_reputation(inv, address("old"), 0, 0).unwrap();
        },
    ];
    for read in reads {
        let mut ledger = with_legacy();
        ledger.call(&["root"], read);
        let stored = ledger.storage.profiles.get("old").unwrap();
        assert_eq!(stored.version, Some(SCHEMA_VERSION));
        assert_eq!(stored.registered_at, 77);
        assert_eq!((stored.successful_trades, stored.disputed_trades), (8, 3));
        assert!(ledger.effects.contains(&Effect::Store(profile_key("old"))));
    }
}

#[test]
fn a_request_does_not_load_the_profile() {
    let mut ledger = with_legacy();
    ledger.request("old").unwrap();
    assert_eq!(ledger.storage.profiles.get("old").unwrap().version, None);
    assert!(!ledger.effects.contains(&Effect::Store(profile_key("old"))));
}

#[test]
fn a_profile_with_a_version_is_read_as_it_is() {
    let mut ledger = Ledger::initialized();
    let record = ProfileRecord { version: Some(9), ..legacy("new", "newbie") };
    ledger.storage.profiles.insert("new".to_string(), record);
    let profile = ledger.user("new").unwrap();
    assert_eq!(profile.version, 9);
    assert_eq!(ledger.effects, vec![extend(profile_key("new"))]);
    assert_eq!(profile.record().profile(), profile);
}

// Across calls

#[test]
fn time_to_live_is_extended_by_standard_values() {
    assert_eq!(TTL_THRESHOLD, 10_000);
    assert_eq!(TTL_EXTENSION, 518_400);
}

#[test]
fn events_name_their_topic_and_user() {
    let events = [
        (Event::UserOnboarded(address("bea")), "UserOnboarded"),
        (Event::RoleUpdated(address("bea")), "RoleUpdated"),
        (Event::UserVerified(address("bea")), "UserVerified"),
    ];
    for (event, topic) in events {
        assert_eq!(event.topic(), topic);
        assert_eq!(event.user(), &address("bea"));
    }
}

#[test]
fn refusals_have_messages() {
    let messages = [
        (OnboardingError::Unauthorized, "Not authorized"),
        (OnboardingError::NotInitialized, "Contract not initialized"),
        (
            OnboardingError::InvalidRole,
            "Invalid role: can only onboard as Buyer or Artisan",
        ),
        (OnboardingError::UsernameTooShort, "Username too short"),
        (OnboardingError::UsernameTooLong, "Username too long"),
        (OnboardingError::AlreadyOnboarded, "User already onboarded"),
        (OnboardingError::UsernameTaken, "Username already taken"),
        (OnboardingError::UserNotFound, "User not found"),
        (OnboardingError::UsernameNotFound, "Username not found"),
    ];
    for (error, message) in messages {
        assert_eq!(error.message(), message);
    }
}

#[test]
fn identity_survives_every_change() {
    let mut ledger = Ledger::peopled();
    ledger.now = 9_000;
    ledger.report("root", "art", 10, 20_000_000_000).unwrap();
    ledger.process("art", false).unwrap();
    ledger.call(&["root"], |inv| {
        OnboardingContract::update_user_role(inv, address("art"), UserRole::Buyer).unwrap();
        OnboardingContract::update_reputation(inv, address("art"), 4, 2).unwrap();
        OnboardingContract::verify_user(inv, address("art")).unwrap();
    });
    assert_eq!(
        ledger.user("art"),
        Ok(UserProfile {
            version: SCHEMA_VERSION,
            address: address("art"),
            role: UserRole::Buyer,
            username: "arthur".to_string(),
            registered_at: 1_000,
            is_verified: true,
            successful_trades: 4,
            disputed_trades: 2,
        })
    );
    // Nobody else has changed.
    assert_eq!(ledger.user("bea").unwrap().username, "beatrice");
    assert_eq!(ledger.reputation("bea"), (0, 0));
    assert!(!ledger.verified("bea"));
}

#[test]
fn calls_need_only_the_entries_they_look_at() {
    let mut full = Ledger::peopled();
    full.request("bea").unwrap();
    full.report("root", "art", 3, 300).unwrap();
    // Only the configuration and the profile are at hand.
    let mut part = Ledger::empty();
    part.storage.config = full.storage.config.clone();
    let record = full.user("art").unwrap().record();
    part.storage.profiles.insert("art".to_string(), record);
    for ledger in [&mut full, &mut part] {
        let updated = ledger.call(&["root"], |inv| {
            OnboardingContract::update_user_role(inv, address("art"), UserRole::Buyer)
        });
        assert_eq!(updated.unwrap().role, UserRole::Buyer);
    }
    assert_eq!(full.effects, part.effects);
    assert_eq!(full.storage.profiles.get("art"), part.storage.profiles.get("art"));
}

#[test]
fn effects_of_calls_in_one_invocation_follow_each_other() {
    let mut ledger = Ledger::peopled();
    ledger.call(&[], |inv| {
        OnboardingContract::get_config(inv).unwrap();
        OnboardingContract::get_user(inv, address("zoe")).unwrap_err();
        OnboardingContract::get_user(inv, address("bea")).unwrap();
    });
    assert_eq!(ledger.effects, vec![extend(DataKey::Config), extend(profile_key("bea"))]);
}
