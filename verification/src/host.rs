//! The boundary to the Soroban host. Every function in this module is one call
//! into `soroban_sdk`, and its contract is taken on trust: it restates what the
//! SDK and the host behind it do, over the model of the host that `store` gives.
//! Nothing here is proved; everything outside this module is.
//!
//! A call that the host cannot serve for want of resources (a spent budget)
//! ends the invocation and rolls it back; the contracts speak of the calls that
//! return.

use crate::storage_types::AllowanceValue;
use soroban_sdk::{Address, Env, Symbol};
use soroban_token_sdk::metadata::TokenMetadata;
use vstd::prelude::*;

verus! {

#[verifier::external_type_specification]
#[verifier::external_body]
pub struct ExEnv(Env);

#[verifier::external_type_specification]
#[verifier::external_body]
pub struct ExAddress(Address);

#[verifier::external_type_specification]
#[verifier::external_body]
pub struct ExString(soroban_sdk::String);

#[verifier::external_type_specification]
pub struct ExTokenMetadata(TokenMetadata);

/// A stored value with the last ledger through which its entry lives.
pub struct Entry<V> {
    pub value: V,
    pub live_until: u32,
}

/// Whether the host behind `env` is executing a contract whose storage this
/// module can serve: a contract frame is on the host's stack, the contract's
/// instance and code entries are live, and under the keys that this module
/// uses the three tiers hold values of the types that this module reads there.
/// Outside of it the SDK's storage calls fail, and a failed call panics.
pub uninterp spec fn contract_running(env: Env) -> bool;

/// The sequence number of the current ledger.
pub uninterp spec fn sequence(env: Env) -> u32;

/// The longest lifetime that the network lets an entry have, not counting the
/// current ledger.
pub uninterp spec fn max_ttl(env: Env) -> u32;

/// The network's `min_persistent_entry_ttl`: the lifetime, counting the current
/// ledger, that a newly created persistent entry starts with.
pub uninterp spec fn min_persistent_entry_ttl(env: Env) -> u32;

/// The network's `min_temp_entry_ttl`: the lifetime, counting the current
/// ledger, that a newly created temporary entry starts with.
pub uninterp spec fn min_temp_entry_ttl(env: Env) -> u32;

/// The entries of the persistent tier that have an address as their key and
/// can be read at the current ledger: the amount that each holds, and the last
/// ledger through which the host lets it be read.
pub uninterp spec fn persistent_entries(env: Env) -> Map<Address, Entry<i128>>;

/// The entries of the temporary tier that have a pair of addresses as their
/// key and can be read at the current ledger: the allowance that each holds,
/// and the last ledger through which it lives. An entry whose last ledger has
/// passed is not among them.
pub uninterp spec fn temporary_entries(env: Env) -> Map<(Address, Address), Entry<AllowanceValue>>;

/// The addresses that the instance tier holds under a number as their key.
pub uninterp spec fn instance_addresses(env: Env) -> Map<u32, Address>;

/// The token's description, as the instance tier holds it under the symbol
/// `METADATA`.
pub uninterp spec fn instance_metadata(env: Env) -> Option<TokenMetadata>;

/// The addresses that the instance tier holds under a string as their key:
/// the user of each water card.
pub uninterp spec fn instance_cards(env: Env) -> Map<soroban_sdk::String, Address>;

/// The last ledger through which the contract instance, and with it the
/// instance tier, lives.
pub uninterp spec fn instance_live_until(env: Env) -> u32;

/// What the contracts of this library see of the host: the clock, the
/// network's lifetime limits, and the entries of the three tiers.
pub struct Store {
    pub running: bool,
    pub sequence: u32,
    pub max_ttl: u32,
    pub min_persistent_entry_ttl: u32,
    pub min_temp_entry_ttl: u32,
    pub balances: Map<Address, Entry<i128>>,
    pub allowances: Map<(Address, Address), Entry<AllowanceValue>>,
    pub addresses: Map<u32, Address>,
    pub metadata: Option<TokenMetadata>,
    pub cards: Map<soroban_sdk::String, Address>,
    pub instance_live_until: u32,
}

/// The model of the host behind `env`.
pub open spec fn store(env: Env) -> Store {
    Store {
        running: contract_running(env),
        sequence: sequence(env),
        max_ttl: max_ttl(env),
        min_persistent_entry_ttl: min_persistent_entry_ttl(env),
        min_temp_entry_ttl: min_temp_entry_ttl(env),
        balances: persistent_entries(env),
        allowances: temporary_entries(env),
        addresses: instance_addresses(env),
        metadata: instance_metadata(env),
        cards: instance_cards(env),
        instance_live_until: instance_live_until(env),
    }
}

/// The last ledger of an entry that is created at ledger `now`, where a new
/// entry starts with a lifetime of `min_ttl` ledgers, the current one counted.
pub open spec fn created_live_until(now: u32, min_ttl: u32) -> int {
    now + if min_ttl >= 1 {
        min_ttl - 1
    } else {
        0
    }
}

/// The last ledger of an entry after the host was asked, at ledger `now`, to
/// extend it: an entry with more than `threshold` ledgers left keeps its last
/// ledger; any other is moved to `extend_to` ledgers from now, or to `max_ttl`
/// ledgers from now if that is sooner, and never to an earlier ledger than it
/// had.
pub open spec fn extended_live_until(
    live_until: u32,
    now: u32,
    threshold: u32,
    extend_to: u32,
    max_ttl: u32,
) -> int {
    let target: int = now + if extend_to <= max_ttl {
        extend_to
    } else {
        max_ttl
    };
    if live_until - now <= threshold && live_until < target {
        target
    } else {
        live_until as int
    }
}

impl Store {
    /// The host can serve the calls of this module: a contract is running, and
    /// the last ledgers that the network's limits lead to fit in a `u32`.
    pub open spec fn serves(self) -> bool {
        &&& self.running
        &&& self.sequence + self.max_ttl <= u32::MAX
        &&& created_live_until(self.sequence, self.min_persistent_entry_ttl) <= u32::MAX
        &&& created_live_until(self.sequence, self.min_temp_entry_ttl) <= u32::MAX
    }
}

/// What every function of this library asks of the environment it is given.
pub open spec fn ready(env: Env) -> bool {
    store(env).serves()
}

/// `Ledger::sequence`: the sequence number of the current ledger.
#[verifier::external_body]
pub(crate) fn ledger_sequence(e: &Env) -> (r: u32)
    requires
        store(*e).serves(),
    ensures
        r == sequence(*e),
{
    e.ledger().sequence()
}

/// `Storage::max_ttl`: the longest lifetime that an entry can be extended to.
/// The host's last admissible ledger is this many ledgers after the current one.
#[verifier::external_body]
pub(crate) fn storage_max_ttl(e: &Env) -> (r: u32)
    requires
        store(*e).serves(),
    ensures
        r == max_ttl(*e),
{
    e.storage().max_ttl()
}

/// `Persistent::get` with an account as the key: the amount of the account's
/// entry, if the tier has one.
#[verifier::external_body]
pub(crate) fn persistent_get(e: &Env, account: &Address) -> (r: Option<i128>)
    requires
        store(*e).serves(),
    ensures
        r == (if persistent_entries(*e).dom().contains(*account) {
            Some(persistent_entries(*e)[*account].value)
        } else {
            None
        }),
{
    e.storage().persistent().get(account)
}

/// `Persistent::set` with an account as the key. An entry that
/// exists gets the new amount and keeps its last ledger; otherwise one is
/// created with the network's minimum lifetime for the tier. Nothing else
/// changes.
#[verifier::external_body]
pub(crate) fn persistent_set(e: &mut Env, account: &Address, amount: i128)
    requires
        store(*old(e)).serves(),
    ensures
        contract_running(*final(e)),
        store(*final(e)) == (Store {
            balances: persistent_entries(*old(e)).insert(
                *account,
                Entry {
                    value: amount,
                    live_until: if persistent_entries(*old(e)).dom().contains(*account) {
                        persistent_entries(*old(e))[*account].live_until
                    } else {
                        created_live_until(
                            sequence(*old(e)),
                            min_persistent_entry_ttl(*old(e)),
                        ) as u32
                    },
                },
            ),
            ..store(*old(e))
        }),
{
    e.storage().persistent().set(account, &amount)
}

/// `Persistent::extend_ttl` with an account as the key. The host
/// refuses a threshold above `extend_to` and a key without an entry. The
/// entry's last ledger becomes what `extended_live_until` gives; its amount
/// and everything else stay.
#[verifier::external_body]
pub(crate) fn persistent_extend_ttl(e: &mut Env, account: &Address, threshold: u32, extend_to: u32)
    requires
        store(*old(e)).serves(),
        persistent_entries(*old(e)).dom().contains(*account),
        threshold <= extend_to,
    ensures
        contract_running(*final(e)),
        store(*final(e)) == (Store {
            balances: persistent_entries(*old(e)).insert(
                *account,
                Entry {
                    value: persistent_entries(*old(e))[*account].value,
                    live_until: extended_live_until(
                        persistent_entries(*old(e))[*account].live_until,
                        sequence(*old(e)),
                        threshold,
                        extend_to,
                        max_ttl(*old(e)),
                    ) as u32,
                },
            ),
            ..store(*old(e))
        }),
{
    e.storage().persistent().extend_ttl(account, threshold, extend_to)
}

/// `Temporary::get` with the pair of owner and spender as the key: the
/// allowance as it was written, if the tier still has the entry.
#[verifier::external_body]
pub(crate) fn temporary_get(e: &Env, from: &Address, spender: &Address) -> (r: Option<
    AllowanceValue,
>)
    requires
        store(*e).serves(),
    ensures
        r == (if temporary_entries(*e).dom().contains((*from, *spender)) {
            Some(temporary_entries(*e)[(*from, *spender)].value)
        } else {
            None
        }),
{
    e.storage().temporary().get::<_, (i128, u32)>(&(from.clone(), spender.clone())).map(
        |(amount, expiration_ledger)| AllowanceValue { amount, expiration_ledger },
    )
}

/// `Temporary::set` with the pair of owner and spender as the key. An
/// entry that exists gets the new value and keeps its last ledger; otherwise
/// one is created with the network's minimum lifetime for the tier. Nothing
/// else changes.
#[verifier::external_body]
pub(crate) fn temporary_set(e: &mut Env, from: &Address, spender: &Address, value: AllowanceValue)
    requires
        store(*old(e)).serves(),
    ensures
        contract_running(*final(e)),
        store(*final(e)) == (Store {
            allowances: temporary_entries(*old(e)).insert(
                (*from, *spender),
                Entry {
                    value,
                    live_until: if temporary_entries(*old(e)).dom().contains((*from, *spender)) {
                        temporary_entries(*old(e))[(*from, *spender)].live_until
                    } else {
                        created_live_until(sequence(*old(e)), min_temp_entry_ttl(*old(e))) as u32
                    },
                },
            ),
            ..store(*old(e))
        }),
{
    e.storage().temporary().set(
        &(from.clone(), spender.clone()),
        &(value.amount, value.expiration_ledger),
    )
}

/// `Temporary::extend_ttl` with the pair of owner and spender as the key. The
/// host refuses a threshold above `extend_to`, a key without an entry, and
/// for this tier an `extend_to` above the longest lifetime. The entry's last
/// ledger becomes what `extended_live_until` gives; its value and everything
/// else stay.
#[verifier::external_body]
pub(crate) fn temporary_extend_ttl(
    e: &mut Env,
    from: &Address,
    spender: &Address,
    threshold: u32,
    extend_to: u32,
)
    requires
        store(*old(e)).serves(),
        temporary_entries(*old(e)).dom().contains((*from, *spender)),
        threshold <= extend_to,
        extend_to <= max_ttl(*old(e)),
    ensures
        contract_running(*final(e)),
        store(*final(e)) == (Store {
            allowances: temporary_entries(*old(e)).insert(
                (*from, *spender),
                Entry {
                    value: temporary_entries(*old(e))[(*from, *spender)].value,
                    live_until: extended_live_until(
                        temporary_entries(*old(e))[(*from, *spender)].live_until,
                        sequence(*old(e)),
                        threshold,
                        extend_to,
                        max_ttl(*old(e)),
                    ) as u32,
                },
            ),
            ..store(*old(e))
        }),
{
    e.storage().temporary().extend_ttl(&(from.clone(), spender.clone()), threshold, extend_to)
}

/// `Instance::has` with a slot's number as the key.
#[verifier::external_body]
pub(crate) fn instance_has(e: &Env, slot: u32) -> (r: bool)
    requires
        store(*e).serves(),
    ensures
        r == instance_addresses(*e).dom().contains(slot),
{
    e.storage().instance().has(&slot)
}

/// `Instance::get` with a slot's number as the key: the address in the slot,
/// if it holds one.
#[verifier::external_body]
pub(crate) fn instance_get(e: &Env, slot: u32) -> (r: Option<Address>)
    requires
        store(*e).serves(),
    ensures
        r == (if instance_addresses(*e).dom().contains(slot) {
            Some(instance_addresses(*e)[slot])
        } else {
            None
        }),
{
    e.storage().instance().get(&slot)
}

/// `Instance::set` with a slot's number as the key: the slot holds `id`, and
/// nothing else changes.
#[verifier::external_body]
pub(crate) fn instance_set(e: &mut Env, slot: u32, id: &Address)
    requires
        store(*old(e)).serves(),
    ensures
        contract_running(*final(e)),
        store(*final(e)) == (Store {
            addresses: instance_addresses(*old(e)).insert(slot, *id),
            ..store(*old(e))
        }),
{
    e.storage().instance().set(&slot, id)
}

/// `Instance::get` under the symbol `METADATA`, where `soroban_token_sdk`
/// keeps a token's description.
#[verifier::external_body]
pub(crate) fn instance_get_metadata(e: &Env) -> (r: Option<TokenMetadata>)
    requires
        store(*e).serves(),
    ensures
        r == instance_metadata(*e),
{
    e.storage().instance().get(&Symbol::new(e, "METADATA"))
}

/// `Instance::set` under the symbol `METADATA`: the slot holds `metadata`,
/// and nothing else changes.
#[verifier::external_body]
pub(crate) fn instance_set_metadata(e: &mut Env, metadata: &TokenMetadata)
    requires
        store(*old(e)).serves(),
    ensures
        contract_running(*final(e)),
        store(*final(e)) == (Store { metadata: Some(*metadata), ..store(*old(e)) }),
{
    e.storage().instance().set(&Symbol::new(e, "METADATA"), metadata)
}

/// `Instance::set` with a water card's identifier as the key: the card
/// belongs to `user`, and nothing else changes.
#[verifier::external_body]
pub(crate) fn instance_set_card(e: &mut Env, card_id: &soroban_sdk::String, user: &Address)
    requires
        store(*old(e)).serves(),
    ensures
        contract_running(*final(e)),
        store(*final(e)) == (Store {
            cards: instance_cards(*old(e)).insert(*card_id, *user),
            ..store(*old(e))
        }),
{
    e.storage().instance().set(card_id, user)
}

/// `Instance::extend_ttl`. The host refuses a threshold above `extend_to`. The
/// last ledger of the contract instance becomes what `extended_live_until`
/// gives, and no entry of the three tiers changes. (The host extends the
/// contract's code entry by the same rule; the model does not hold it.)
#[verifier::external_body]
pub(crate) fn instance_extend_ttl(e: &mut Env, threshold: u32, extend_to: u32)
    requires
        store(*old(e)).serves(),
        threshold <= extend_to,
    ensures
        contract_running(*final(e)),
        store(*final(e)) == (Store {
            instance_live_until: extended_live_until(
                instance_live_until(*old(e)),
                sequence(*old(e)),
                threshold,
                extend_to,
                max_ttl(*old(e)),
            ) as u32,
            ..store(*old(e))
        }),
{
    e.storage().instance().extend_ttl(threshold, extend_to)
}

/// `Clone::clone` of an address: another handle to the same address.
pub assume_specification[ <Address as Clone>::clone ](a: &Address) -> (r: Address)
    ensures
        r == *a,
;

} // verus!
