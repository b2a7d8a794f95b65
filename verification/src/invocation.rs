//! One invocation of the contract: what it finds, and what it does.

use vstd::prelude::*;

use crate::storage::{DataKey, DataKeyView, Storage, StorageView};
use crate::types::{lists, Address, AddressView};

verus! {

/// Standard TTL threshold for persistent storage (approx 14 hours at 5s ledger).
pub const TTL_THRESHOLD: u32 = 10_000;

/// Standard TTL extension for persistent storage (approx 30 days).
pub const TTL_EXTENSION: u32 = 518_400;

/// An event that the contract publishes, with the address it is about.
#[derive(Debug, PartialEq, Eq)]
pub enum Event {
    UserOnboarded(Address),
    RoleUpdated(Address),
    UserVerified(Address),
}

/// What an `Event` says.
#[verifier::ext_equal]
pub enum EventView {
    UserOnboarded(AddressView),
    RoleUpdated(AddressView),
    UserVerified(AddressView),
}

impl View for Event {
    type V = EventView;

    open spec fn view(&self) -> EventView {
        match self {
            Event::UserOnboarded(user) => EventView::UserOnboarded(user@),
            Event::RoleUpdated(user) => EventView::RoleUpdated(user@),
            Event::UserVerified(user) => EventView::UserVerified(user@),
        }
    }
}

impl EventView {
    /// The topic under which the event is published.
    pub open spec fn topic(self) -> Seq<char> {
        match self {
            EventView::UserOnboarded(_) => "UserOnboarded"@,
            EventView::RoleUpdated(_) => "RoleUpdated"@,
            EventView::UserVerified(_) => "UserVerified"@,
        }
    }

    /// The address that is published as the event's data.
    pub open spec fn user(self) -> AddressView {
        match self {
            EventView::UserOnboarded(user) => user,
            EventView::RoleUpdated(user) => user,
            EventView::UserVerified(user) => user,
        }
    }
}

impl Event {
    /// The topic under which the event is published.
    pub fn topic(&self) -> (r: &'static str)
        ensures
            r@ == self@.topic(),
    {
        match self {
            Event::UserOnboarded(_) => "UserOnboarded",
            Event::RoleUpdated(_) => "RoleUpdated",
            Event::UserVerified(_) => "UserVerified",
        }
    }

    /// The address that is published as the event's data.
    pub fn user(&self) -> (r: &Address)
        ensures
            r@ == self@.user(),
    {
        match self {
            Event::UserOnboarded(user) => user,
            Event::RoleUpdated(user) => user,
            Event::UserVerified(user) => user,
        }
    }
}

/// What an invocation does to its host, in the order in which it does it.
#[derive(Debug, PartialEq, Eq)]
pub enum Effect {
    /// Write the entry under a key, as storage now has it.
    Store(DataKey),
    /// Extend the TTL of the entry under a key to `extend_to` ledgers, if it is
    /// below `threshold`.
    ExtendTtl { key: DataKey, threshold: u32, extend_to: u32 },
    /// Publish an event.
    Publish(Event),
}

/// What an `Effect` does.
#[verifier::ext_equal]
pub enum EffectView {
    Store(DataKeyView),
    ExtendTtl { key: DataKeyView, threshold: u32, extend_to: u32 },
    Publish(EventView),
}

impl View for Effect {
    type V = EffectView;

    open spec fn view(&self) -> EffectView {
        match self {
            Effect::Store(key) => EffectView::Store(key@),
            Effect::ExtendTtl { key, threshold, extend_to } => EffectView::ExtendTtl {
                key: key@,
                threshold: *threshold,
                extend_to: *extend_to,
            },
            Effect::Publish(event) => EffectView::Publish(event@),
        }
    }
}

impl DeepView for Effect {
    type V = EffectView;

    open spec fn deep_view(&self) -> EffectView {
        self@
    }
}

/// The TTL extension that every touched entry gets.
pub open spec fn extension(key: DataKeyView) -> EffectView {
    EffectView::ExtendTtl { key, threshold: TTL_THRESHOLD, extend_to: TTL_EXTENSION }
}

/// What writing an entry does: the write, then the TTL extension.
pub open spec fn written(key: DataKeyView) -> Seq<EffectView> {
    seq![EffectView::Store(key), extension(key)]
}

/// One invocation of the contract.
pub struct Invocation {
    /// The persistent entries, as the invocation finds and leaves them.
    pub storage: Storage,
    /// The time of the ledger, in seconds.
    pub timestamp: u64,
    /// The addresses that have authorized the invocation.
    pub signers: Vec<Address>,
    /// What the invocation has done so far.
    pub effects: Vec<Effect>,
}

/// What an `Invocation` is.
#[verifier::ext_equal]
pub struct InvocationView {
    pub storage: StorageView,
    pub timestamp: u64,
    pub signers: Seq<AddressView>,
    pub effects: Seq<EffectView>,
}

impl View for Invocation {
    type V = InvocationView;

    open spec fn view(&self) -> InvocationView {
        InvocationView {
            storage: self.storage@,
            timestamp: self.timestamp,
            signers: self.signers.deep_view(),
            effects: self.effects.deep_view(),
        }
    }
}

impl Invocation {
    /// An invocation on `storage` at `timestamp`, authorized by `signers`, that
    /// has done nothing yet.
    pub fn new(storage: Storage, timestamp: u64, signers: Vec<Address>) -> (r: Self)
        ensures
            r@ == (InvocationView {
                storage: storage@,
                timestamp,
                signers: signers.deep_view(),
                effects: Seq::empty(),
            }),
    {
        let r = Invocation { storage, timestamp, signers, effects: Vec::new() };
        assert(r@.effects =~= Seq::empty());
        r
    }

    /// Whether `address` has authorized the invocation.
    pub fn signed_by(&self, address: &Address) -> (b: bool)
        ensures
            b == self@.signers.contains(address@),
    {
        lists(&self.signers, address)
    }

    /// Extend the TTL of a persistent storage entry using standardized values.
    pub fn extend_persistent(&mut self, key: DataKey)
        ensures
            final(self)@ == (InvocationView {
                effects: old(self)@.effects.push(extension(key@)),
                ..old(self)@
            }),
    {
        let ghost before = self@;
        self.effects.push(
            Effect::ExtendTtl { key, threshold: TTL_THRESHOLD, extend_to: TTL_EXTENSION },
        );
        assert(self@.effects =~= before.effects.push(extension(key@)));
    }

    /// Notes that the entry under `key` is written, and extends its TTL.
    pub(crate) fn note_write(&mut self, key: DataKey)
        ensures
            final(self)@ == (InvocationView {
                effects: old(self)@.effects + written(key@),
                ..old(self)@
            }),
    {
        let ghost before = self@;
        self.effects.push(Effect::Store(key.clone()));
        assert(self@.effects =~= before.effects.push(EffectView::Store(key@)));
        self.extend_persistent(key);
        assert(self@.effects =~= before.effects + written(key@));
    }

    /// Publishes an event.
    pub(crate) fn publish(&mut self, event: Event)
        ensures
            final(self)@ == (InvocationView {
                effects: old(self)@.effects.push(EffectView::Publish(event@)),
                ..old(self)@
            }),
    {
        let ghost before = self@;
        self.effects.push(Effect::Publish(event));
        assert(self@.effects =~= before.effects.push(EffectView::Publish(event@)));
    }
}

} // verus!
