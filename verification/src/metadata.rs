//! The token's description: decimals, name and symbol, in a single slot of the
//! instance tier.

use crate::host::{instance_get_metadata, instance_set_metadata, ready, store, Store};
use crate::lifetime::{refresh_instance, touch_instance};
use crate::storage_types::LedgerError;
use soroban_sdk::Env;
use soroban_token_sdk::metadata::TokenMetadata;
use vstd::prelude::*;

verus! {

/// The store after `metadata` was written as the token's description.
pub open spec fn put_metadata(s: Store, metadata: TokenMetadata) -> Store {
    touch_instance(Store { metadata: Some(metadata), ..s })
}

/// The store after a read of the description: a read that finds it refreshes
/// the lifetime of the instance tier, and one that does not changes nothing.
pub open spec fn after_metadata_read(s: Store) -> Store {
    if s.metadata.is_some() {
        touch_instance(s)
    } else {
        s
    }
}

/// The description that was written is the one that is read, until another
/// is written; writing it changes no other slot, no balance and no allowance.
pub proof fn law_written_metadata_is_read(s: Store, metadata: TokenMetadata)
    ensures
        put_metadata(s, metadata).metadata == Some(metadata),
        after_metadata_read(put_metadata(s, metadata)).metadata == Some(metadata),
        put_metadata(s, metadata).addresses == s.addresses,
        put_metadata(s, metadata).balances == s.balances,
        put_metadata(s, metadata).allowances == s.allowances,
{
}

/// Writes the token's description, over any earlier one, and refreshes the
/// lifetime of the instance tier.
pub fn write_metadata(e: &mut Env, metadata: TokenMetadata)
    requires
        ready(*old(e)),
    ensures
        store(*final(e)) == put_metadata(store(*old(e)), metadata),
        ready(*final(e)),
{
    instance_set_metadata(e, &metadata);
    refresh_instance(e);
}

/// The token's description. Before one was written the read is refused with
/// `MissingRequiredState`.
pub fn read_metadata(e: &mut Env) -> (r: Result<TokenMetadata, LedgerError>)
    requires
        ready(*old(e)),
    ensures
        r == (match store(*old(e)).metadata {
            Some(metadata) => Ok::<TokenMetadata, LedgerError>(metadata),
            None => Err::<TokenMetadata, LedgerError>(LedgerError::MissingRequiredState),
        }),
        store(*final(e)) == after_metadata_read(store(*old(e))),
        ready(*final(e)),
{
    match instance_get_metadata(e) {
        Some(metadata) => {
            refresh_instance(e);
            Ok(metadata)
        },
        None => Err(LedgerError::MissingRequiredState),
    }
}

/// The number of decimals of the token's amounts.
pub fn read_decimal(e: &mut Env) -> (r: Result<u32, LedgerError>)
    requires
        ready(*old(e)),
    ensures
        r == (match store(*old(e)).metadata {
            Some(metadata) => Ok::<u32, LedgerError>(metadata.decimal),
            None => Err::<u32, LedgerError>(LedgerError::MissingRequiredState),
        }),
        store(*final(e)) == after_metadata_read(store(*old(e))),
        ready(*final(e)),
{
    match read_metadata(e) {
        Ok(metadata) => Ok(metadata.decimal),
        Err(error) => Err(error),
    }
}

/// The token's name.
pub fn read_name(e: &mut Env) -> (r: Result<soroban_sdk::String, LedgerError>)
    requires
        ready(*old(e)),
    ensures
        r == (match store(*old(e)).metadata {
            Some(metadata) => Ok::<soroban_sdk::String, LedgerError>(metadata.name),
            None => Err::<soroban_sdk::String, LedgerError>(LedgerError::MissingRequiredState),
        }),
        store(*final(e)) == after_metadata_read(store(*old(e))),
        ready(*final(e)),
{
    match read_metadata(e) {
        Ok(metadata) => Ok(metadata.name),
        Err(error) => Err(error),
    }
}

/// The token's symbol.
pub fn read_symbol(e: &mut Env) -> (r: Result<soroban_sdk::String, LedgerError>)
    requires
        ready(*old(e)),
    ensures
        r == (match store(*old(e)).metadata {
            Some(metadata) => Ok::<soroban_sdk::String, LedgerError>(metadata.symbol),
            None => Err::<soroban_sdk::String, LedgerError>(LedgerError::MissingRequiredState),
        }),
        store(*final(e)) == after_metadata_read(store(*old(e))),
        ready(*final(e)),
{
    match read_metadata(e) {
        Ok(metadata) => Ok(metadata.symbol),
        Err(error) => Err(error),
    }
}

} // verus!
