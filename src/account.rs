//! The account-resource view of an account-state blob.
//!
//! Interpreting the blob is the external resource decoder's work; its outcome
//! is handed in as a `ResourceLookup`. This module decides what the caller
//! receives: the decoded fields, with byte strings as hex text, or the
//! default view of an account without a resource.
use vstd::prelude::*;
use crate::handoff::BridgeError;
use crate::hexcode::{hex_from_bytes, hex_of};

verus! {

/// An event stream: its key and the number of events emitted so far.
pub struct EventHandle {
    pub key: Vec<u8>,
    pub count: u64,
}

/// The account resource as the external decoder yields it.
pub struct AccountResource {
    pub balance: u64,
    pub sequence_number: u64,
    pub authentication_key: Vec<u8>,
    pub sent_events: EventHandle,
    pub received_events: EventHandle,
    pub delegated_withdrawal_capability: bool,
}

/// What the external decoder reported for a blob.
pub enum ResourceLookup {
    /// The blob holds this resource.
    Found(AccountResource),
    /// The blob holds no account resource.
    Absent,
    /// The decoder failed.
    Failed,
}

/// An event stream as the caller sees it: the key as hex text.
pub struct EventView {
    pub key: String,
    pub count: u64,
}

/// An account resource as the caller sees it: byte strings as hex text.
pub struct AccountView {
    pub balance: u64,
    pub sequence_number: u64,
    pub authentication_key: String,
    pub sent_events: EventView,
    pub received_events: EventView,
    pub delegated_withdrawal_capability: bool,
}

/// `v` shows the event stream `e`.
pub open spec fn shows_events(v: EventView, e: EventHandle) -> bool {
    &&& v.key@ == hex_of(e.key@)
    &&& v.count == e.count
}

/// `v` shows the resource `res`.
pub open spec fn shows_resource(v: AccountView, res: AccountResource) -> bool {
    &&& v.balance == res.balance
    &&& v.sequence_number == res.sequence_number
    &&& v.authentication_key@ == hex_of(res.authentication_key@)
    &&& shows_events(v.sent_events, res.sent_events)
    &&& shows_events(v.received_events, res.received_events)
    &&& v.delegated_withdrawal_capability == res.delegated_withdrawal_capability
}

/// The view of an account without a resource: zero balance and sequence
/// number, empty keys, zero event counts, no delegated withdrawal.
pub open spec fn is_default_view(v: AccountView) -> bool {
    &&& v.balance == 0
    &&& v.sequence_number == 0
    &&& v.authentication_key@.len() == 0
    &&& v.sent_events.key@.len() == 0
    &&& v.sent_events.count == 0
    &&& v.received_events.key@.len() == 0
    &&& v.received_events.count == 0
    &&& !v.delegated_withdrawal_capability
}

fn event_view(e: &EventHandle) -> (v: EventView)
    ensures
        shows_events(v, *e),
{
    EventView { key: hex_from_bytes(e.key.as_slice()), count: e.count }
}

/// The caller's view of a decoded resource.
pub fn resource_view(res: &AccountResource) -> (v: AccountView)
    ensures
        shows_resource(v, *res),
{
    AccountView {
        balance: res.balance,
        sequence_number: res.sequence_number,
        authentication_key: hex_from_bytes(res.authentication_key.as_slice()),
        sent_events: event_view(&res.sent_events),
        received_events: event_view(&res.received_events),
        delegated_withdrawal_capability: res.delegated_withdrawal_capability,
    }
}

/// The view of an account without a resource.
pub fn default_view() -> (v: AccountView)
    ensures
        is_default_view(v),
{
    AccountView {
        balance: 0,
        sequence_number: 0,
        authentication_key: String::new(),
        sent_events: EventView { key: String::new(), count: 0 },
        received_events: EventView { key: String::new(), count: 0 },
        delegated_withdrawal_capability: false,
    }
}

/// The account view of `blob`, given what the external decoder reported for
/// it. An empty blob, or one without a resource, gives the default view; a
/// decoder failure is the only error.
pub fn decode_account_state_blob(blob: &[u8], lookup: ResourceLookup) -> (r: Result<AccountView, BridgeError>)
    ensures
        blob@.len() == 0 ==> r is Ok && is_default_view(r->Ok_0),
        blob@.len() > 0 ==> match lookup {
            ResourceLookup::Found(res) => r is Ok && shows_resource(r->Ok_0, res),
            ResourceLookup::Absent => r is Ok && is_default_view(r->Ok_0),
            ResourceLookup::Failed => r is Err && r->Err_0 == BridgeError::ExternalServiceFailure,
        },
{
    if blob.len() == 0 {
        return Ok(default_view());
    }
    match lookup {
        ResourceLookup::Found(res) => Ok(resource_view(&res)),
        ResourceLookup::Absent => Ok(default_view()),
        ResourceLookup::Failed => Err(BridgeError::ExternalServiceFailure),
    }
}

} // verus!
