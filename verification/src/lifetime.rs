//! The sliding-window refresh of the persistent and instance tiers: a touch
//! extends an entry that is close to its end and leaves any other alone. Every
//! read that finds a value in these tiers, and every write to them, ends with
//! one.

use crate::host::{instance_extend_ttl, persistent_extend_ttl, ready, store, Entry, Store};
use crate::storage_types::{INSTANCE_BUMP_AMOUNT, INSTANCE_LIFETIME_THRESHOLD};
use soroban_sdk::{Address, Env};
use vstd::prelude::*;

verus! {

/// The last ledger of an entry of the persistent or instance tier after a
/// touch at the store's current ledger. An entry with at least
/// `INSTANCE_LIFETIME_THRESHOLD` ledgers left keeps its last ledger. Any other
/// lives through the ledger that lies `INSTANCE_BUMP_AMOUNT` after the current
/// one, or the network's longest lifetime after it if that is sooner, unless
/// it already lives longer.
pub open spec fn refreshed(s: Store, live_until: u32) -> u32 {
    let target: int = s.sequence + if INSTANCE_BUMP_AMOUNT <= s.max_ttl {
        INSTANCE_BUMP_AMOUNT
    } else {
        s.max_ttl
    };
    if live_until - s.sequence >= INSTANCE_LIFETIME_THRESHOLD || live_until >= target {
        live_until
    } else {
        target as u32
    }
}

/// The store after a touch of the instance tier: the lifetime of the contract
/// instance is refreshed, and nothing else differs.
pub open spec fn touch_instance(s: Store) -> Store {
    Store { instance_live_until: refreshed(s, s.instance_live_until), ..s }
}

/// The store after a touch of an account's balance entry, which it holds: the
/// entry's lifetime is refreshed, and nothing else differs.
pub open spec fn touch_entry(s: Store, account: Address) -> Store
    recommends
        s.balances.dom().contains(account),
{
    Store {
        balances: s.balances.insert(
            account,
            Entry {
                value: s.balances[account].value,
                live_until: refreshed(s, s.balances[account].live_until),
            },
        ),
        ..s
    }
}

/// The lifetime that every touched entry has at the least: the threshold, or
/// the network's longest lifetime if that is less.
pub open spec fn lifetime_floor(s: Store) -> int {
    if s.max_ttl < INSTANCE_LIFETIME_THRESHOLD {
        s.max_ttl as int
    } else {
        INSTANCE_LIFETIME_THRESHOLD as int
    }
}

/// A refresh never shortens a lifetime, and leaves at least the floor.
pub proof fn law_refresh_leaves_the_floor(s: Store, live_until: u32)
    requires
        s.serves(),
    ensures
        refreshed(s, live_until) >= live_until,
        refreshed(s, live_until) - s.sequence >= lifetime_floor(s),
{
}

/// A lifetime of the threshold or more is left alone.
pub proof fn law_refresh_leaves_long_lifetimes(s: Store, live_until: u32)
    requires
        s.serves(),
        live_until - s.sequence >= INSTANCE_LIFETIME_THRESHOLD,
    ensures
        refreshed(s, live_until) == live_until,
{
}

/// A lifetime under the threshold, on a network that allows the bump, becomes
/// the bump.
pub proof fn law_refresh_extends_to_the_bump(s: Store, live_until: u32)
    requires
        s.serves(),
        live_until - s.sequence < INSTANCE_LIFETIME_THRESHOLD,
        INSTANCE_BUMP_AMOUNT <= s.max_ttl,
    ensures
        refreshed(s, live_until) == s.sequence + INSTANCE_BUMP_AMOUNT,
{
}

/// Refreshing twice at one ledger is refreshing once.
pub proof fn law_refresh_twice_is_once(s: Store, live_until: u32)
    requires
        s.serves(),
    ensures
        refreshed(s, refreshed(s, live_until)) == refreshed(s, live_until),
{
}

/// Refreshes the lifetime of the instance tier. The host extends an entry
/// whose lifetime is at or under the threshold that it is given, so it is
/// given the last lifetime that the refresh still extends.
pub(crate) fn refresh_instance(e: &mut Env)
    requires
        ready(*old(e)),
    ensures
        store(*final(e)) == touch_instance(store(*old(e))),
        ready(*final(e)),
{
    instance_extend_ttl(e, INSTANCE_LIFETIME_THRESHOLD - 1, INSTANCE_BUMP_AMOUNT);
}

/// Refreshes the lifetime of an account's balance entry, as `refresh_instance`
/// does that of the instance tier.
pub(crate) fn refresh_entry(e: &mut Env, account: &Address)
    requires
        ready(*old(e)),
        store(*old(e)).balances.dom().contains(*account),
    ensures
        store(*final(e)) == touch_entry(store(*old(e)), *account),
        ready(*final(e)),
{
    persistent_extend_ttl(e, account, INSTANCE_LIFETIME_THRESHOLD - 1, INSTANCE_BUMP_AMOUNT);
}

} // verus!
