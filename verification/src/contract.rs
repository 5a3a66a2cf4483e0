//! The token's operations, each reduced to what it reads and writes in the
//! store. Who may call an operation, and the events that tell of it, are the
//! caller's concern: an operation that needs the administrator's or the
//! fund's consent hands back the address whose consent it needs.

use crate::admin::{
    address_in, administrator_of, put_administrator, read_administrator, write_administrator,
};
use crate::balance::{
    balance_of, credit, credit_outcome, credited, debit, debit_outcome,
    law_read_keeps_balances, put_balance, read_balance, receive_balance, same_balances,
    touch_balance, write_balance,
};
use crate::host::{instance_get, instance_set_card, ready, store, Store};
use crate::lifetime::{refresh_instance, touch_instance};
use crate::metadata::{put_metadata, write_metadata};
use crate::storage_types::{LedgerError, FUND_SLOT};
use soroban_sdk::{Address, Env};
use soroban_token_sdk::metadata::TokenMetadata;
use vstd::prelude::*;

verus! {

/// The water-rights token.
pub struct WaterToken;

/// Whether a credit of `amount` to `to`, once the administrator is known,
/// goes through, and if not, why.
pub open spec fn mint_outcome(s: Store, to: Address, amount: i128) -> Result<Address, LedgerError> {
    match administrator_of(s) {
        None => Err(LedgerError::MissingRequiredState),
        Some(admin) => match credit_outcome(balance_of(s, to), amount) {
            Ok(_) => Ok(admin),
            Err(error) => Err(error),
        },
    }
}

/// The store after a call of `mint`.
pub open spec fn minted(s: Store, to: Address, amount: i128) -> Store {
    match mint_outcome(s, to, amount) {
        Err(LedgerError::MissingRequiredState) => s,
        _ => credited(touch_instance(s), to, amount),
    }
}

/// Whether a move of `amount` from `from` to `to` goes through, and if not,
/// why: the debit is weighed first, then the credit. Both balances are
/// weighed as they stand before the move, also where the two accounts are
/// one.
pub open spec fn transfer_outcome(s: Store, from: Address, to: Address, amount: i128) -> Result<
    (),
    LedgerError,
> {
    if debit_outcome(balance_of(s, from), amount).is_err() {
        debit_outcome(balance_of(s, from), amount)
    } else {
        credit_outcome(balance_of(s, to), amount)
    }
}

/// The store after `amount` has left `from` and then reached `to`.
pub open spec fn moved(s: Store, from: Address, to: Address, amount: i128) -> Store {
    let debited = put_balance(s, from, (balance_of(s, from) - amount) as i128);
    put_balance(debited, to, (balance_of(debited, to) + amount) as i128)
}

/// The store after a call of `transfer`: a move that goes through is made; a
/// move that is refused for the debit's sake has read `from`, one that is
/// refused for the credit's sake has read both accounts, and neither has
/// written.
pub open spec fn transferred(s: Store, from: Address, to: Address, amount: i128) -> Store {
    if debit_outcome(balance_of(s, from), amount).is_err() {
        touch_balance(s, from)
    } else if credit_outcome(balance_of(s, to), amount).is_err() {
        touch_balance(touch_balance(s, from), to)
    } else {
        moved(s, from, to, amount)
    }
}

/// A move that goes through leaves the same store whether or not both
/// accounts were read before it, and its credit goes through after its debit.
proof fn lemma_touches_before_move(s: Store, from: Address, to: Address, amount: i128)
    requires
        s.serves(),
        transfer_outcome(s, from, to, amount).is_ok(),
    ensures
        ({
            let read = touch_balance(touch_balance(s, from), to);
            let debited = put_balance(read, from, (balance_of(s, from) - amount) as i128);
            &&& balance_of(read, from) == balance_of(s, from)
            &&& credit_outcome(balance_of(debited, to), amount).is_ok()
            &&& put_balance(debited, to, (balance_of(debited, to) + amount) as i128) == moved(
                s,
                from,
                to,
                amount,
            )
        }),
{
    let read = touch_balance(touch_balance(s, from), to);
    let debited = put_balance(read, from, (balance_of(s, from) - amount) as i128);
    assert(put_balance(debited, to, (balance_of(debited, to) + amount) as i128).balances
        =~= moved(s, from, to, amount).balances);
}

/// A move between two accounts takes from the one exactly what it gives to
/// the other, and a move from an account to itself leaves it what it held. No
/// third account's amount changes.
pub proof fn law_transfer_conserves(
    s: Store,
    from: Address,
    to: Address,
    amount: i128,
    other: Address,
)
    requires
        transfer_outcome(s, from, to, amount).is_ok(),
    ensures
        from != to ==> balance_of(transferred(s, from, to, amount), from) == balance_of(s, from)
            - amount,
        from != to ==> balance_of(transferred(s, from, to, amount), to) == balance_of(s, to)
            + amount,
        from == to ==> balance_of(transferred(s, from, to, amount), from) == balance_of(s, from),
        other != from && other != to ==> balance_of(transferred(s, from, to, amount), other)
            == balance_of(s, other),
{
}

/// A refused move changes no account's amount.
pub proof fn law_refused_transfer_keeps_balances(
    s: Store,
    from: Address,
    to: Address,
    amount: i128,
)
    requires
        transfer_outcome(s, from, to, amount).is_err(),
    ensures
        same_balances(transferred(s, from, to, amount), s),
{
    law_read_keeps_balances(s, from);
    law_read_keeps_balances(touch_balance(s, from), to);
}

impl WaterToken {
    /// Sets the token up: writes the administrator and the description, over
    /// whatever was there.
    pub fn initialize(
        e: &mut Env,
        admin: Address,
        decimal: u32,
        name: soroban_sdk::String,
        symbol: soroban_sdk::String,
    )
        requires
            ready(*old(e)),
        ensures
            store(*final(e)) == put_metadata(
                put_administrator(store(*old(e)), admin),
                TokenMetadata { decimal, name, symbol },
            ),
            ready(*final(e)),
    {
        write_administrator(e, &admin);
        write_metadata(e, TokenMetadata { decimal, name, symbol });
    }

    /// Records that the water card `card_id` belongs to `user`, and hands
    /// back the administrator, whose consent the registration needs. Without
    /// an administrator the call is refused with `MissingRequiredState` and
    /// nothing is recorded.
    pub fn register_water_card(e: &mut Env, user: Address, card_id: soroban_sdk::String) -> (r:
        Result<Address, LedgerError>)
        requires
            ready(*old(e)),
        ensures
            r == (match administrator_of(store(*old(e))) {
                Some(admin) => Ok::<Address, LedgerError>(admin),
                None => Err::<Address, LedgerError>(LedgerError::MissingRequiredState),
            }),
            store(*final(e)) == (if r.is_ok() {
                touch_instance(
                    Store {
                        cards: store(*old(e)).cards.insert(card_id, user),
                        ..store(*old(e))
                    },
                )
            } else {
                store(*old(e))
            }),
            ready(*final(e)),
    {
        match read_administrator(e) {
            Ok(admin) => {
                instance_set_card(e, &card_id, &user);
                refresh_instance(e);
                Ok(admin)
            },
            Err(error) => Err(error),
        }
    }

    /// Credits `amount` of water rights to `to`, and hands back the
    /// administrator, whose consent the credit needs. Without an
    /// administrator the call is refused with `MissingRequiredState`; where
    /// the sum does not fit in an `i128`, with `ArithmeticOverflow`. A refused
    /// call writes no amount.
    pub fn mint(e: &mut Env, to: Address, amount: i128) -> (r: Result<Address, LedgerError>)
        requires
            ready(*old(e)),
        ensures
            r == mint_outcome(store(*old(e)), to, amount),
            store(*final(e)) == minted(store(*old(e)), to, amount),
            ready(*final(e)),
    {
        match read_administrator(e) {
            Ok(admin) => match receive_balance(e, to, amount) {
                Ok(()) => Ok(admin),
                Err(error) => Err(error),
            },
            Err(error) => Err(error),
        }
    }

    /// Credits a reward for saved water to `to`: a `mint` under another name.
    pub fn mint_conservation_reward(e: &mut Env, to: Address, amount: i128) -> (r: Result<
        Address,
        LedgerError,
    >)
        requires
            ready(*old(e)),
        ensures
            r == mint_outcome(store(*old(e)), to, amount),
            store(*final(e)) == minted(store(*old(e)), to, amount),
            ready(*final(e)),
    {
        WaterToken::mint(e, to, amount)
    }

    /// Moves `amount` from `from` to `to`. A move of more than `from` holds is
    /// refused with `InsufficientBalance`; one that would take either balance
    /// out of the range of an `i128`, with `ArithmeticOverflow`. A refused move
    /// writes no amount: both decisions are made before anything is written.
    pub fn transfer(e: &mut Env, from: Address, to: Address, amount: i128) -> (r: Result<
        (),
        LedgerError,
    >)
        requires
            ready(*old(e)),
        ensures
            r == transfer_outcome(store(*old(e)), from, to, amount),
            store(*final(e)) == transferred(store(*old(e)), from, to, amount),
            ready(*final(e)),
    {
        let from_balance: i128 = read_balance(e, from.clone());
        let rest: i128 = match debit(from_balance, amount) {
            Ok(rest) => rest,
            Err(error) => {
                return Err(error);
            },
        };
        let to_balance: i128 = read_balance(e, to.clone());
        if let Err(error) = credit(to_balance, amount) {
            return Err(error);
        }
        proof {
            lemma_touches_before_move(store(*old(e)), from, to, amount);
        }
        write_balance(e, from, rest);
        match receive_balance(e, to, amount) {
            Ok(()) => Ok(()),
            Err(error) => Err(error),
        }
    }

    /// Moves `amount` from `from` to the community fund, and hands back the
    /// fund's account. Without a fund the call is refused with
    /// `MissingRequiredState` and changes nothing; otherwise it is a
    /// `transfer` to the fund.
    pub fn donate_to_fund(e: &mut Env, from: Address, amount: i128) -> (r: Result<
        Address,
        LedgerError,
    >)
        requires
            ready(*old(e)),
        ensures
            r == (match address_in(store(*old(e)), FUND_SLOT) {
                None => Err::<Address, LedgerError>(LedgerError::MissingRequiredState),
                Some(fund) => match transfer_outcome(store(*old(e)), from, fund, amount) {
                    Ok(_) => Ok::<Address, LedgerError>(fund),
                    Err(error) => Err::<Address, LedgerError>(error),
                },
            }),
            store(*final(e)) == (match address_in(store(*old(e)), FUND_SLOT) {
                None => store(*old(e)),
                Some(fund) => transferred(touch_instance(store(*old(e))), from, fund, amount),
            }),
            ready(*final(e)),
    {
        match instance_get(e, FUND_SLOT) {
            Some(fund) => {
                refresh_instance(e);
                match WaterToken::transfer(e, from, fund.clone(), amount) {
                    Ok(()) => Ok(fund),
                    Err(error) => Err(error),
                }
            },
            None => Err(LedgerError::MissingRequiredState),
        }
    }

    /// The water rights that `id` holds.
    pub fn balance(e: &mut Env, id: Address) -> (r: i128)
        requires
            ready(*old(e)),
        ensures
            r == balance_of(store(*old(e)), id),
            store(*final(e)) == touch_balance(store(*old(e)), id),
            ready(*final(e)),
    {
        read_balance(e, id)
    }
}

} // verus!
