//! The persistent entries that the contract reads and writes.

use vstd::hash_map::StringHashMap;
use vstd::prelude::*;

use crate::types::{
    Address, AddressView, OnboardingConfig, OnboardingConfigView, ProfileRecord, ProfileRecordView,
    UserMetrics, VerificationEntry, VerificationEntryView,
};

verus! {

/// Storage keys for the onboarding contract.
#[derive(Debug, PartialEq, Eq)]
pub enum DataKey {
    /// Maps a user address to their profile.
    UserProfile(Address),
    /// Maps a normalized username to the owning address (uniqueness index).
    Username(String),
    /// Contract configuration.
    Config,
    /// Activity metrics per user (escrow count and volume for auto-verification).
    UserMetrics(Address),
    /// Queue of addresses that have requested manual verification.
    VerificationQueue,
    /// Verification history log per user.
    VerificationHistory(Address),
}

/// What a `DataKey` names.
#[verifier::ext_equal]
pub enum DataKeyView {
    UserProfile(AddressView),
    Username(Seq<char>),
    Config,
    UserMetrics(AddressView),
    VerificationQueue,
    VerificationHistory(AddressView),
}

impl View for DataKey {
    type V = DataKeyView;

    open spec fn view(&self) -> DataKeyView {
        match self {
            DataKey::UserProfile(address) => DataKeyView::UserProfile(address@),
            DataKey::Username(name) => DataKeyView::Username(name@),
            DataKey::Config => DataKeyView::Config,
            DataKey::UserMetrics(address) => DataKeyView::UserMetrics(address@),
            DataKey::VerificationQueue => DataKeyView::VerificationQueue,
            DataKey::VerificationHistory(address) => DataKeyView::VerificationHistory(address@),
        }
    }
}

impl Clone for DataKey {
    fn clone(&self) -> (r: Self)
        ensures
            r == *self,
    {
        match self {
            DataKey::UserProfile(address) => DataKey::UserProfile(address.clone()),
            DataKey::Username(name) => DataKey::Username(name.clone()),
            DataKey::Config => DataKey::Config,
            DataKey::UserMetrics(address) => DataKey::UserMetrics(address.clone()),
            DataKey::VerificationQueue => DataKey::VerificationQueue,
            DataKey::VerificationHistory(address) => DataKey::VerificationHistory(address.clone()),
        }
    }
}

/// What storage holds under a `DataKey`.
pub enum EntryView {
    UserProfile(ProfileRecordView),
    Username(AddressView),
    Config(OnboardingConfigView),
    UserMetrics(UserMetrics),
    VerificationQueue(Seq<AddressView>),
    VerificationHistory(Seq<VerificationEntryView>),
}

/// A table of records by text: by a string key or by a username.
#[verifier::reject_recursive_types(V)]
pub struct Table<V> {
    rows: StringHashMap<V>,
}

impl<V: DeepView> View for Table<V> {
    type V = Map<Seq<char>, V::V>;

    closed spec fn view(&self) -> Map<Seq<char>, V::V> {
        self.rows@.map_values(|v: V| v.deep_view())
    }
}

impl<V: DeepView> Table<V> {
    /// A table without rows.
    pub fn new() -> (table: Self)
        ensures
            table@ == Map::<Seq<char>, V::V>::empty(),
    {
        let table = Table { rows: StringHashMap::new() };
        assert(table@ =~= Map::<Seq<char>, V::V>::empty());
        table
    }

    /// The record under `key`.
    pub fn get(&self, key: &str) -> (r: Option<&V>)
        ensures
            match r {
                Some(v) => self@.contains_key(key@) && v.deep_view() == self@[key@],
                None => !self@.contains_key(key@),
            },
    {
        self.rows.get(key)
    }

    /// Whether there is a record under `key`.
    pub fn contains(&self, key: &str) -> (b: bool)
        ensures
            b == self@.contains_key(key@),
    {
        self.rows.contains_key(key)
    }

    /// Puts a record under `key`, in place of the one that was there.
    pub fn insert(&mut self, key: String, value: V)
        ensures
            final(self)@ == old(self)@.insert(key@, value.deep_view()),
    {
        let ghost before = self@;
        self.rows.insert(key, value);
        assert(self@ =~= before.insert(key@, value.deep_view()));
    }
}

/// The contract's persistent storage.
pub struct Storage {
    pub config: Option<OnboardingConfig>,
    /// Profiles by the string key of the user's address.
    pub profiles: Table<ProfileRecord>,
    /// Owners by normalized username.
    pub usernames: Table<Address>,
    /// Metrics by the string key of the user's address.
    pub metrics: Table<UserMetrics>,
    pub queue: Option<Vec<Address>>,
    /// Verification histories by the string key of the user's address.
    pub histories: Table<Vec<VerificationEntry>>,
}

/// What storage holds.
#[verifier::ext_equal]
pub struct StorageView {
    pub config: Option<OnboardingConfigView>,
    pub profiles: Map<AddressView, ProfileRecordView>,
    pub usernames: Map<Seq<char>, AddressView>,
    pub metrics: Map<AddressView, UserMetrics>,
    pub queue: Option<Seq<AddressView>>,
    pub histories: Map<AddressView, Seq<VerificationEntryView>>,
}

impl View for Storage {
    type V = StorageView;

    open spec fn view(&self) -> StorageView {
        StorageView {
            config: self.config.deep_view(),
            profiles: self.profiles@,
            usernames: self.usernames@,
            metrics: self.metrics@,
            queue: self.queue.deep_view(),
            histories: self.histories@,
        }
    }
}

impl StorageView {
    /// Storage that holds nothing.
    pub open spec fn empty() -> StorageView {
        StorageView {
            config: None,
            profiles: Map::empty(),
            usernames: Map::empty(),
            metrics: Map::empty(),
            queue: None,
            histories: Map::empty(),
        }
    }

    /// The entry under `key`.
    pub open spec fn entry(self, key: DataKeyView) -> Option<EntryView> {
        match key {
            DataKeyView::UserProfile(a) => if self.profiles.contains_key(a) {
                Some(EntryView::UserProfile(self.profiles[a]))
            } else {
                None
            },
            DataKeyView::Username(n) => if self.usernames.contains_key(n) {
                Some(EntryView::Username(self.usernames[n]))
            } else {
                None
            },
            DataKeyView::Config => match self.config {
                Some(config) => Some(EntryView::Config(config)),
                None => None,
            },
            DataKeyView::UserMetrics(a) => if self.metrics.contains_key(a) {
                Some(EntryView::UserMetrics(self.metrics[a]))
            } else {
                None
            },
            DataKeyView::VerificationQueue => match self.queue {
                Some(queue) => Some(EntryView::VerificationQueue(queue)),
                None => None,
            },
            DataKeyView::VerificationHistory(a) => if self.histories.contains_key(a) {
                Some(EntryView::VerificationHistory(self.histories[a]))
            } else {
                None
            },
        }
    }

    /// Whether storage has an entry under `key`.
    pub open spec fn has(self, key: DataKeyView) -> bool {
        self.entry(key) is Some
    }
}

impl Storage {
    /// Storage that holds nothing.
    pub fn new() -> (storage: Self)
        ensures
            storage@ == StorageView::empty(),
    {
        Storage {
            config: None,
            profiles: Table::new(),
            usernames: Table::new(),
            metrics: Table::new(),
            queue: None,
            histories: Table::new(),
        }
    }
}

} // verus!
