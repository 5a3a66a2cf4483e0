//! The allowance ledger: for each owner and spender, an amount that the
//! spender may still take and the last ledger at which it may, kept in the
//! temporary tier. Nothing sweeps expired allowances away: every read weighs
//! the stored expiration against the clock.

use crate::host::{
    created_live_until, ledger_sequence, ready, storage_max_ttl, store, temporary_extend_ttl,
    temporary_get, temporary_set, Entry, Store,
};
use crate::storage_types::{AllowanceValue, LedgerError};
use soroban_sdk::{Address, Env};
use vstd::prelude::*;

verus! {

/// The allowance as it was written, if the tier still holds its entry.
pub open spec fn stored_allowance(s: Store, from: Address, spender: Address) -> Option<
    AllowanceValue,
> {
    if s.allowances.dom().contains((from, spender)) {
        Some(s.allowances[(from, spender)].value)
    } else {
        None
    }
}

/// What a stored allowance is worth at ledger `now`: nothing stored is an
/// allowance of zero that expired at ledger zero; one whose expiration has
/// passed keeps its expiration and grants zero; any other is as stored.
pub open spec fn effective_allowance(stored: Option<AllowanceValue>, now: u32) -> AllowanceValue {
    match stored {
        Some(allowance) => if allowance.expiration_ledger < now {
            AllowanceValue { amount: 0, expiration_ledger: allowance.expiration_ledger }
        } else {
            allowance
        },
        None => AllowanceValue { amount: 0, expiration_ledger: 0 },
    }
}

/// What `spender` may take from `from` at the store's current ledger.
pub open spec fn allowance_of(s: Store, from: Address, spender: Address) -> AllowanceValue {
    effective_allowance(stored_allowance(s, from, spender), s.sequence)
}

/// The lifetime asked for an allowance entry at ledger `now`: the ledgers left
/// until the allowance expires, zero if it has, and no more than the network's
/// longest lifetime.
pub open spec fn allowance_ttl(max_ttl: u32, expiration_ledger: u32, now: u32) -> u32 {
    let left: u32 = if expiration_ledger > now {
        (expiration_ledger - now) as u32
    } else {
        0
    };
    if max_ttl < left {
        max_ttl
    } else {
        left
    }
}

/// The store after `value` was written as the allowance of `spender` on
/// `from`: the entry holds `value`, whatever it held; it lives through the
/// ledger that lies `allowance_ttl` after the current one, or through the last
/// ledger that it had before, or was created with, if that is later. Nothing
/// else differs.
pub open spec fn put_allowance(
    s: Store,
    from: Address,
    spender: Address,
    value: AllowanceValue,
) -> Store {
    let before: int = if s.allowances.dom().contains((from, spender)) {
        s.allowances[(from, spender)].live_until as int
    } else {
        created_live_until(s.sequence, s.min_temp_entry_ttl)
    };
    let asked: int = s.sequence + allowance_ttl(s.max_ttl, value.expiration_ledger, s.sequence);
    Store {
        allowances: s.allowances.insert(
            (from, spender),
            Entry {
                value,
                live_until: (if before < asked {
                    asked
                } else {
                    before
                }) as u32,
            },
        ),
        ..s
    }
}

/// Every stored allowance grants a non-negative amount.
pub open spec fn allowances_nonnegative(s: Store) -> bool {
    forall|k: (Address, Address)| #[trigger]
        s.allowances.dom().contains(k) ==> s.allowances[k].value.amount >= 0
}

/// Whether a spend of `amount` from an allowance that grants `granted` at this
/// ledger goes through, and if not, why.
pub open spec fn allowance_spend_outcome(granted: i128, amount: i128) -> Result<(), LedgerError> {
    if granted < amount {
        Err(LedgerError::InsufficientAllowance)
    } else if granted - amount > i128::MAX {
        Err(LedgerError::ArithmeticOverflow)
    } else {
        Ok(())
    }
}

/// The store after a call of `spend_allowance`: where the spend goes through,
/// the rest is written under the expiration that the allowance had; where it
/// does not, nothing differs.
pub open spec fn allowance_spent(s: Store, from: Address, spender: Address, amount: i128) -> Store {
    let granted = allowance_of(s, from, spender);
    if allowance_spend_outcome(granted.amount, amount).is_ok() {
        put_allowance(
            s,
            from,
            spender,
            AllowanceValue {
                amount: (granted.amount - amount) as i128,
                expiration_ledger: granted.expiration_ledger,
            },
        )
    } else {
        s
    }
}

/// The last ledger through which the entry of an allowance lives.
pub open spec fn allowance_live_until(s: Store, from: Address, spender: Address) -> u32
    recommends
        s.allowances.dom().contains((from, spender)),
{
    s.allowances[(from, spender)].live_until
}

/// An allowance that is written and read at one ledger, at or before its
/// expiration, reads as it was written.
pub proof fn law_written_allowance_reads_back(
    s: Store,
    from: Address,
    spender: Address,
    value: AllowanceValue,
)
    requires
        value.expiration_ledger >= s.sequence,
    ensures
        allowance_of(put_allowance(s, from, spender, value), from, spender) == value,
{
}

/// A write replaces what was stored: what is read back does not depend on
/// it.
pub proof fn law_write_replaces_allowance(
    s: Store,
    from: Address,
    spender: Address,
    value: AllowanceValue,
)
    ensures
        stored_allowance(put_allowance(s, from, spender, value), from, spender) == Some(value),
        allowance_of(put_allowance(s, from, spender, value), from, spender) == effective_allowance(
            Some(value),
            s.sequence,
        ),
{
}

/// Once the clock has passed the expiration of an allowance whose entry the
/// store still holds, the allowance reads as zero under the expiration that
/// was written.
pub proof fn law_allowance_expires(
    s: Store,
    from: Address,
    spender: Address,
    value: AllowanceValue,
    later: Store,
)
    requires
        stored_allowance(later, from, spender) == stored_allowance(
            put_allowance(s, from, spender, value),
            from,
            spender,
        ),
        later.sequence > value.expiration_ledger,
    ensures
        allowance_of(later, from, spender) == (AllowanceValue {
            amount: 0,
            expiration_ledger: value.expiration_ledger,
        }),
{
}

/// An allowance whose entry the store has dropped reads as one of zero that
/// expired at ledger zero.
pub proof fn law_dropped_allowance_reads_as_none(later: Store, from: Address, spender: Address)
    requires
        stored_allowance(later, from, spender).is_none(),
    ensures
        allowance_of(later, from, spender) == (AllowanceValue { amount: 0, expiration_ledger: 0 }),
{
}

/// A spend from an allowance that has not expired leaves the rest under the
/// same expiration.
pub proof fn law_spend_keeps_expiration(s: Store, from: Address, spender: Address, amount: i128)
    requires
        allowance_of(s, from, spender).expiration_ledger >= s.sequence,
        allowance_spend_outcome(allowance_of(s, from, spender).amount, amount).is_ok(),
    ensures
        allowance_of(allowance_spent(s, from, spender, amount), from, spender) == (AllowanceValue {
            amount: (allowance_of(s, from, spender).amount - amount) as i128,
            expiration_ledger: allowance_of(s, from, spender).expiration_ledger,
        }),
{
}

/// An allowance that is written and then spent from, at one ledger at or
/// before its expiration, reads as the rest under the expiration that was
/// written.
pub proof fn law_spend_after_write(
    s: Store,
    from: Address,
    spender: Address,
    value: AllowanceValue,
    amount: i128,
)
    requires
        value.expiration_ledger >= s.sequence,
        0 <= amount <= value.amount,
    ensures
        allowance_spend_outcome(
            allowance_of(put_allowance(s, from, spender, value), from, spender).amount,
            amount,
        ).is_ok(),
        allowance_of(
            allowance_spent(put_allowance(s, from, spender, value), from, spender, amount),
            from,
            spender,
        ) == (AllowanceValue {
            amount: (value.amount - amount) as i128,
            expiration_ledger: value.expiration_ledger,
        }),
{
}

/// Time does not heal an expired allowance: while the store holds the entry
/// as it is and the clock does not run backwards, it reads as zero under its
/// expiration. Only a write makes it live again.
pub proof fn law_expired_allowance_stays_expired(
    s: Store,
    later: Store,
    from: Address,
    spender: Address,
)
    requires
        stored_allowance(s, from, spender) matches Some(value) && value.expiration_ledger
            < s.sequence,
        stored_allowance(later, from, spender) == stored_allowance(s, from, spender),
        later.sequence >= s.sequence,
    ensures
        allowance_of(later, from, spender) == allowance_of(s, from, spender),
        allowance_of(later, from, spender).amount == 0,
{
}

/// A spend of a non-negative amount that the allowance grants goes through.
pub proof fn law_granted_spend_goes_through(granted: i128, amount: i128)
    requires
        0 <= amount <= granted,
    ensures
        allowance_spend_outcome(granted, amount).is_ok(),
{
}

/// Once the clock has passed the expiration of an allowance, a spend of any
/// positive amount is refused with `InsufficientAllowance` and changes
/// nothing, whether the store still holds the entry or has dropped it.
pub proof fn law_expired_allowance_cannot_be_spent(
    later: Store,
    from: Address,
    spender: Address,
    amount: i128,
)
    requires
        stored_allowance(later, from, spender) matches Some(value) ==> later.sequence
            > value.expiration_ledger,
        amount > 0,
    ensures
        allowance_spend_outcome(allowance_of(later, from, spender).amount, amount) == Err::<
            (),
            LedgerError,
        >(LedgerError::InsufficientAllowance),
        allowance_spent(later, from, spender, amount) == later,
{
}

/// A refused spend changes nothing, and a spend beyond what is granted is
/// refused with `InsufficientAllowance`.
pub proof fn law_spend_beyond_allowance_is_refused(
    s: Store,
    from: Address,
    spender: Address,
    amount: i128,
)
    requires
        amount > allowance_of(s, from, spender).amount,
    ensures
        allowance_spend_outcome(allowance_of(s, from, spender).amount, amount) == Err::<
            (),
            LedgerError,
        >(LedgerError::InsufficientAllowance),
        allowance_spent(s, from, spender, amount) == s,
{
}

/// A write and a spend change no other pair's allowance.
pub proof fn law_other_allowances_untouched(
    s: Store,
    from: Address,
    spender: Address,
    value: AllowanceValue,
    amount: i128,
    other_from: Address,
    other_spender: Address,
)
    requires
        (other_from, other_spender) != (from, spender),
    ensures
        allowance_of(put_allowance(s, from, spender, value), other_from, other_spender)
            == allowance_of(s, other_from, other_spender),
        allowance_of(allowance_spent(s, from, spender, amount), other_from, other_spender)
            == allowance_of(s, other_from, other_spender),
{
}

/// Writes and spends of non-negative amounts keep every stored allowance
/// non-negative.
pub proof fn law_allowances_stay_nonnegative(
    s: Store,
    from: Address,
    spender: Address,
    value: AllowanceValue,
    amount: i128,
)
    requires
        allowances_nonnegative(s),
        value.amount >= 0,
        amount >= 0,
    ensures
        allowances_nonnegative(put_allowance(s, from, spender, value)),
        allowances_nonnegative(allowance_spent(s, from, spender, amount)),
{
    let w = put_allowance(s, from, spender, value);
    assert forall|k: (Address, Address)| #[trigger] w.allowances.dom().contains(k) implies
        w.allowances[k].value.amount >= 0 by {
        if k != (from, spender) {
            assert(s.allowances.dom().contains(k));
        }
    }
    let t = allowance_spent(s, from, spender, amount);
    assert forall|k: (Address, Address)| #[trigger] t.allowances.dom().contains(k) implies
        t.allowances[k].value.amount >= 0 by {
        if k != (from, spender) {
            assert(s.allowances.dom().contains(k));
        }
    }
}

/// The entry of a written allowance lives at least until the allowance
/// expires, or as long as the network lets an entry live if that is sooner,
/// and a write never shortens the lifetime that the entry had.
pub proof fn law_allowance_entry_outlives_allowance(
    s: Store,
    from: Address,
    spender: Address,
    value: AllowanceValue,
)
    requires
        s.serves(),
    ensures
        ({
            let after: u32 = allowance_live_until(put_allowance(s, from, spender, value), from, spender);
            &&& after >= s.sequence + allowance_ttl(s.max_ttl, value.expiration_ledger, s.sequence)
            &&& value.expiration_ledger <= s.sequence + s.max_ttl ==> after
                >= value.expiration_ledger
            &&& s.allowances.dom().contains((from, spender)) ==> after >= allowance_live_until(
                s,
                from,
                spender,
            )
            &&& s.allowances.dom().contains((from, spender)) && allowance_live_until(
                s,
                from,
                spender,
            ) <= s.sequence + allowance_ttl(s.max_ttl, value.expiration_ledger, s.sequence)
                ==> after == s.sequence + allowance_ttl(
                s.max_ttl,
                value.expiration_ledger,
                s.sequence,
            )
        }),
{
}

/// What the allowance that the tier holds, if it holds one, is worth at
/// ledger `now`.
pub fn effective(stored: Option<AllowanceValue>, now: u32) -> (r: AllowanceValue)
    ensures
        r == effective_allowance(stored, now),
{
    match stored {
        Some(allowance) => {
            if allowance.expiration_ledger < now {
                AllowanceValue { amount: 0, expiration_ledger: allowance.expiration_ledger }
            } else {
                allowance
            }
        },
        None => AllowanceValue { amount: 0, expiration_ledger: 0 },
    }
}

/// The lifetime to ask for the entry of an allowance that expires at
/// `expiration_ledger`, at ledger `now`, on a network whose longest lifetime
/// is `max_ttl`.
pub fn entry_lifetime(max_ttl: u32, expiration_ledger: u32, now: u32) -> (r: u32)
    ensures
        r == allowance_ttl(max_ttl, expiration_ledger, now),
{
    let left: u32 = expiration_ledger.saturating_sub(now);
    if max_ttl < left {
        max_ttl
    } else {
        left
    }
}

/// What is left of an allowance that grants `granted` after a spend of
/// `amount`, or why the spend is refused: `InsufficientAllowance` where it
/// asks for more than is granted, `ArithmeticOverflow` where the difference
/// does not fit in an `i128`.
pub fn draw(granted: i128, amount: i128) -> (r: Result<i128, LedgerError>)
    ensures
        match r {
            Ok(rest) => allowance_spend_outcome(granted, amount).is_ok() && rest == granted
                - amount,
            Err(error) => allowance_spend_outcome(granted, amount) == Err::<(), LedgerError>(
                error,
            ),
        },
{
    if granted < amount {
        return Err(LedgerError::InsufficientAllowance);
    }
    match granted.checked_sub(amount) {
        Some(rest) => Ok(rest),
        None => Err(LedgerError::ArithmeticOverflow),
    }
}

/// What `spender` may take from `from` at the current ledger. The store is
/// left as it is: an expired allowance reads as zero and stays stored.
pub fn read_allowance(e: &Env, from: Address, spender: Address) -> (r: AllowanceValue)
    requires
        ready(*e),
    ensures
        r == allowance_of(store(*e), from, spender),
{
    effective(temporary_get(e, &from, &spender), ledger_sequence(e))
}

/// Sets the allowance of `spender` on `from` to `amount` until
/// `expiration_ledger`, replacing what was stored, and asks for the entry a
/// lifetime that ends with the allowance.
pub fn write_allowance(
    e: &mut Env,
    from: Address,
    spender: Address,
    amount: i128,
    expiration_ledger: u32,
)
    requires
        ready(*old(e)),
    ensures
        store(*final(e)) == put_allowance(
            store(*old(e)),
            from,
            spender,
            AllowanceValue { amount, expiration_ledger },
        ),
        ready(*final(e)),
{
    let allowance = AllowanceValue { amount, expiration_ledger };
    temporary_set(e, &from, &spender, allowance);

    let ttl: u32 = entry_lifetime(storage_max_ttl(e), expiration_ledger, ledger_sequence(e));
    temporary_extend_ttl(e, &from, &spender, ttl, ttl);
    proof {
        assert(store(*e).allowances =~= put_allowance(
            store(*old(e)),
            from,
            spender,
            allowance,
        ).allowances);
    }
}

/// Takes `amount` from what `spender` may still take from `from`. A spend of
/// more than the allowance grants at this ledger is refused with
/// `InsufficientAllowance`; one whose difference does not fit in an `i128`,
/// which only a negative amount can cause, with `ArithmeticOverflow`. A
/// refused spend leaves the store as it was. A spend that goes through writes
/// the rest under the expiration that was stored.
pub fn spend_allowance(e: &mut Env, from: Address, spender: Address, amount: i128) -> (r: Result<
    (),
    LedgerError,
>)
    requires
        ready(*old(e)),
    ensures
        ready(*final(e)),
        r == allowance_spend_outcome(allowance_of(store(*old(e)), from, spender).amount, amount),
        store(*final(e)) == allowance_spent(store(*old(e)), from, spender, amount),
{
    let allowance = read_allowance(e, from.clone(), spender.clone());
    match draw(allowance.amount, amount) {
        Ok(rest) => {
            write_allowance(e, from, spender, rest, allowance.expiration_ledger);
            Ok(())
        },
        Err(error) => Err(error),
    }
}

} // verus!
