//! The administrator: a single slot of the instance tier. It is empty until it
//! is first written; a read of the empty slot is an error, not a default.

use crate::host::{instance_get, instance_has, instance_set, ready, store, Store};
use crate::lifetime::{refresh_instance, touch_instance};
use crate::storage_types::{LedgerError, ADMINISTRATOR_SLOT};
use soroban_sdk::{Address, Env};
use vstd::prelude::*;

verus! {

/// The identity that controls the token.
pub enum Admin {
    Admin(Address),
}

/// The address that a slot of the instance tier holds, if it holds one.
pub open spec fn address_in(s: Store, slot: u32) -> Option<Address> {
    if s.addresses.dom().contains(slot) {
        Some(s.addresses[slot])
    } else {
        None
    }
}

/// The administrator, if one was written.
pub open spec fn administrator_of(s: Store) -> Option<Address> {
    address_in(s, ADMINISTRATOR_SLOT)
}

/// The store after `id` was written as administrator: the slot holds `id`,
/// the lifetime of the instance tier is refreshed, and nothing else differs.
pub open spec fn put_administrator(s: Store, id: Address) -> Store {
    touch_instance(Store { addresses: s.addresses.insert(ADMINISTRATOR_SLOT, id), ..s })
}

/// The administrator that was written is the one that is read, until another
/// is written; writing it changes no other slot, no balance and no allowance.
pub proof fn law_written_administrator_is_read(s: Store, id: Address)
    ensures
        administrator_of(put_administrator(s, id)) == Some(id),
        administrator_of(touch_instance(put_administrator(s, id))) == Some(id),
        forall|slot: u32|
            slot != ADMINISTRATOR_SLOT ==> #[trigger] address_in(put_administrator(s, id), slot)
                == address_in(s, slot),
        put_administrator(s, id).balances == s.balances,
        put_administrator(s, id).allowances == s.allowances,
        put_administrator(s, id).metadata == s.metadata,
{
}

impl Admin {
    /// The administrator, if one was written. Finding one refreshes the
    /// lifetime of the instance tier.
    pub fn get(e: &mut Env) -> (r: Option<Address>)
        requires
            ready(*old(e)),
        ensures
            r == administrator_of(store(*old(e))),
            store(*final(e)) == (if r.is_some() {
                touch_instance(store(*old(e)))
            } else {
                store(*old(e))
            }),
            ready(*final(e)),
    {
        let found = instance_get(e, ADMINISTRATOR_SLOT);
        if found.is_some() {
            refresh_instance(e);
        }
        found
    }
}

/// Whether an administrator was written. The store is left as it is.
pub fn has_administrator(e: &Env) -> (r: bool)
    requires
        ready(*e),
    ensures
        r == administrator_of(store(*e)).is_some(),
{
    instance_has(e, ADMINISTRATOR_SLOT)
}

/// The administrator. Before one was written the read is refused with
/// `MissingRequiredState` and leaves the store as it is; a read that finds one
/// refreshes the lifetime of the instance tier.
pub fn read_administrator(e: &mut Env) -> (r: Result<Address, LedgerError>)
    requires
        ready(*old(e)),
    ensures
        r == (match administrator_of(store(*old(e))) {
            Some(id) => Ok::<Address, LedgerError>(id),
            None => Err::<Address, LedgerError>(LedgerError::MissingRequiredState),
        }),
        store(*final(e)) == (if r.is_ok() {
            touch_instance(store(*old(e)))
        } else {
            store(*old(e))
        }),
        ready(*final(e)),
{
    match Admin::get(e) {
        Some(id) => Ok(id),
        None => Err(LedgerError::MissingRequiredState),
    }
}

/// Writes `id` as the administrator, over any earlier one, and refreshes the
/// lifetime of the instance tier.
pub fn write_administrator(e: &mut Env, id: &Address)
    requires
        ready(*old(e)),
    ensures
        store(*final(e)) == put_administrator(store(*old(e)), *id),
        ready(*final(e)),
{
    instance_set(e, ADMINISTRATOR_SLOT, id);
    refresh_instance(e);
}

} // verus!
