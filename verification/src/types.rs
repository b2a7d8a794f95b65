//! The records that the contract keeps, and what they mean.
//!
//! Each record that holds text has a view: the same record with its text as
//! character sequences. Contracts and laws speak of the views.

use vstd::prelude::*;

verus! {

/// The schema version that profiles are written in.
pub const SCHEMA_VERSION: u32 = 2;

/// What an address is to the contract: its string key.
pub type AddressView = Seq<char>;

/// The address of an account or a contract, by its string key.
#[derive(Debug, PartialEq, Eq)]
pub struct Address {
    pub strkey: String,
}

impl View for Address {
    type V = AddressView;

    open spec fn view(&self) -> AddressView {
        self.strkey@
    }
}

impl DeepView for Address {
    type V = AddressView;

    open spec fn deep_view(&self) -> AddressView {
        self@
    }
}

impl Clone for Address {
    fn clone(&self) -> (r: Self)
        ensures
            r == *self,
    {
        Address { strkey: self.strkey.clone() }
    }
}

impl Address {
    /// Whether two addresses are the same.
    pub fn same(&self, other: &Address) -> (b: bool)
        ensures
            b == (self@ == other@),
    {
        self.strkey == other.strkey
    }
}

/// Whether `address` is in `list`.
pub(crate) fn lists(list: &Vec<Address>, address: &Address) -> (b: bool)
    ensures
        b == list.deep_view().contains(address@),
{
    let mut i: usize = 0;
    while i < list.len()
        invariant
            i <= list.len(),
            forall|j: int| 0 <= j < i ==> list.deep_view()[j] != address@,
        decreases list.len() - i,
    {
        if list[i].same(address) {
            assert(list.deep_view()[i as int] == address@);
            return true;
        }
        i = i + 1;
    }
    false
}

/// User roles in the CraftNexus platform.
#[derive(Copy, Clone, Debug, PartialEq, Eq, Structural)]
pub enum UserRole {
    /// User has not onboarded.
    NoRole,
    /// Can purchase items.
    Buyer,
    /// Can sell items and create escrow.
    Artisan,
    /// Platform administrator.
    Admin,
}

impl DeepView for UserRole {
    type V = UserRole;

    open spec fn deep_view(&self) -> UserRole {
        *self
    }
}

/// The profile of an onboarded user.
#[derive(Debug, PartialEq, Eq)]
pub struct UserProfile {
    pub version: u32,
    pub address: Address,
    pub role: UserRole,
    pub username: String,
    pub registered_at: u64,
    pub is_verified: bool,
    /// Count of escrows where this user was on the winning side.
    pub successful_trades: u32,
    /// Count of escrows that ended in a dispute against this user.
    pub disputed_trades: u32,
}

/// What a `UserProfile` says.
#[verifier::ext_equal]
pub struct UserProfileView {
    pub version: u32,
    pub address: AddressView,
    pub role: UserRole,
    pub username: Seq<char>,
    pub registered_at: u64,
    pub is_verified: bool,
    pub successful_trades: u32,
    pub disputed_trades: u32,
}

impl View for UserProfile {
    type V = UserProfileView;

    open spec fn view(&self) -> UserProfileView {
        UserProfileView {
            version: self.version,
            address: self.address@,
            role: self.role,
            username: self.username@,
            registered_at: self.registered_at,
            is_verified: self.is_verified,
            successful_trades: self.successful_trades,
            disputed_trades: self.disputed_trades,
        }
    }
}

impl DeepView for UserProfile {
    type V = UserProfileView;

    open spec fn deep_view(&self) -> UserProfileView {
        self@
    }
}

impl Clone for UserProfile {
    fn clone(&self) -> (r: Self)
        ensures
            r == *self,
    {
        UserProfile {
            version: self.version,
            address: self.address.clone(),
            role: self.role,
            username: self.username.clone(),
            registered_at: self.registered_at,
            is_verified: self.is_verified,
            successful_trades: self.successful_trades,
            disputed_trades: self.disputed_trades,
        }
    }
}

/// A profile as storage holds it: the fields of the stored map, where `version`
/// is missing from the profiles that were written before versions were kept.
#[derive(Debug, PartialEq, Eq)]
pub struct ProfileRecord {
    pub version: Option<u32>,
    pub address: Address,
    pub role: UserRole,
    pub username: String,
    pub registered_at: u64,
    pub is_verified: bool,
    pub successful_trades: u32,
    pub disputed_trades: u32,
}

/// What a `ProfileRecord` says.
#[verifier::ext_equal]
pub struct ProfileRecordView {
    pub version: Option<u32>,
    pub address: AddressView,
    pub role: UserRole,
    pub username: Seq<char>,
    pub registered_at: u64,
    pub is_verified: bool,
    pub successful_trades: u32,
    pub disputed_trades: u32,
}

impl ProfileRecordView {
    /// The profile that a record stands for: itself where it has a version, and
    /// its fields under the current version where it has none.
    pub open spec fn profile(self) -> UserProfileView {
        UserProfileView {
            version: match self.version {
                Some(version) => version,
                None => SCHEMA_VERSION,
            },
            address: self.address,
            role: self.role,
            username: self.username,
            registered_at: self.registered_at,
            is_verified: self.is_verified,
            successful_trades: self.successful_trades,
            disputed_trades: self.disputed_trades,
        }
    }
}

impl UserProfileView {
    /// The record that stores a profile.
    pub open spec fn record(self) -> ProfileRecordView {
        ProfileRecordView {
            version: Some(self.version),
            address: self.address,
            role: self.role,
            username: self.username,
            registered_at: self.registered_at,
            is_verified: self.is_verified,
            successful_trades: self.successful_trades,
            disputed_trades: self.disputed_trades,
        }
    }
}

impl View for ProfileRecord {
    type V = ProfileRecordView;

    open spec fn view(&self) -> ProfileRecordView {
        ProfileRecordView {
            version: self.version,
            address: self.address@,
            role: self.role,
            username: self.username@,
            registered_at: self.registered_at,
            is_verified: self.is_verified,
            successful_trades: self.successful_trades,
            disputed_trades: self.disputed_trades,
        }
    }
}

impl DeepView for ProfileRecord {
    type V = ProfileRecordView;

    open spec fn deep_view(&self) -> ProfileRecordView {
        self@
    }
}

impl ProfileRecord {
    /// The profile that the record stands for.
    pub fn profile(&self) -> (r: UserProfile)
        ensures
            r@ == self@.profile(),
    {
        UserProfile {
            version: match self.version {
                Some(version) => version,
                None => SCHEMA_VERSION,
            },
            address: self.address.clone(),
            role: self.role,
            username: self.username.clone(),
            registered_at: self.registered_at,
            is_verified: self.is_verified,
            successful_trades: self.successful_trades,
            disputed_trades: self.disputed_trades,
        }
    }
}

impl UserProfile {
    /// The record that stores the profile.
    pub fn record(&self) -> (r: ProfileRecord)
        ensures
            r@ == self@.record(),
    {
        ProfileRecord {
            version: Some(self.version),
            address: self.address.clone(),
            role: self.role,
            username: self.username.clone(),
            registered_at: self.registered_at,
            is_verified: self.is_verified,
            successful_trades: self.successful_trades,
            disputed_trades: self.disputed_trades,
        }
    }
}

/// Activity metrics used to determine eligibility for auto-verification.
#[derive(Copy, Clone, Debug, PartialEq, Eq, Structural)]
pub struct UserMetrics {
    /// Total number of escrows the user participated in as seller.
    pub total_escrow_count: u32,
    /// Total USDC volume (in stroops) the user transacted as seller.
    pub total_volume: i128,
}

impl DeepView for UserMetrics {
    type V = UserMetrics;

    open spec fn deep_view(&self) -> UserMetrics {
        *self
    }
}

/// A single entry in a user's verification history log.
#[derive(Debug, PartialEq, Eq)]
pub struct VerificationEntry {
    pub timestamp: u64,
    /// "requested" | "approved" | "rejected" | "auto_verified"
    pub action: String,
    /// Address that performed the action (`None` for auto-verification).
    pub by: Option<Address>,
}

/// What a `VerificationEntry` says.
#[verifier::ext_equal]
pub struct VerificationEntryView {
    pub timestamp: u64,
    pub action: Seq<char>,
    pub by: Option<AddressView>,
}

impl View for VerificationEntry {
    type V = VerificationEntryView;

    open spec fn view(&self) -> VerificationEntryView {
        VerificationEntryView {
            timestamp: self.timestamp,
            action: self.action@,
            by: self.by.deep_view(),
        }
    }
}

impl DeepView for VerificationEntry {
    type V = VerificationEntryView;

    open spec fn deep_view(&self) -> VerificationEntryView {
        self@
    }
}

impl Clone for VerificationEntry {
    fn clone(&self) -> (r: Self)
        ensures
            r == *self,
    {
        VerificationEntry {
            timestamp: self.timestamp,
            action: self.action.clone(),
            by: clone_address_option(&self.by),
        }
    }
}

/// Contract configuration.
#[derive(Debug, PartialEq, Eq)]
pub struct OnboardingConfig {
    pub require_username: bool,
    pub min_username_length: u32,
    pub max_username_length: u32,
    pub platform_admin: Address,
    /// Minimum completed escrow count for auto-verification.
    pub min_escrow_count_for_verify: u32,
    /// Minimum total USDC volume (in stroops) for auto-verification.
    pub min_volume_for_verify: i128,
    /// Address of the escrow contract authorized to update reputation and metrics.
    pub escrow_contract: Option<Address>,
}

/// What an `OnboardingConfig` says.
#[verifier::ext_equal]
pub struct OnboardingConfigView {
    pub require_username: bool,
    pub min_username_length: u32,
    pub max_username_length: u32,
    pub platform_admin: AddressView,
    pub min_escrow_count_for_verify: u32,
    pub min_volume_for_verify: i128,
    pub escrow_contract: Option<AddressView>,
}

impl View for OnboardingConfig {
    type V = OnboardingConfigView;

    open spec fn view(&self) -> OnboardingConfigView {
        OnboardingConfigView {
            require_username: self.require_username,
            min_username_length: self.min_username_length,
            max_username_length: self.max_username_length,
            platform_admin: self.platform_admin@,
            min_escrow_count_for_verify: self.min_escrow_count_for_verify,
            min_volume_for_verify: self.min_volume_for_verify,
            escrow_contract: self.escrow_contract.deep_view(),
        }
    }
}

impl DeepView for OnboardingConfig {
    type V = OnboardingConfigView;

    open spec fn deep_view(&self) -> OnboardingConfigView {
        self@
    }
}

impl Clone for OnboardingConfig {
    fn clone(&self) -> (r: Self)
        ensures
            r == *self,
    {
        OnboardingConfig {
            require_username: self.require_username,
            min_username_length: self.min_username_length,
            max_username_length: self.max_username_length,
            platform_admin: self.platform_admin.clone(),
            min_escrow_count_for_verify: self.min_escrow_count_for_verify,
            min_volume_for_verify: self.min_volume_for_verify,
            escrow_contract: clone_address_option(&self.escrow_contract),
        }
    }
}

fn clone_address_option(a: &Option<Address>) -> (r: Option<Address>)
    ensures
        r == *a,
{
    match a {
        Some(address) => Some(address.clone()),
        None => None,
    }
}

} // verus!
