//! The balance ledger: one amount for each account, kept in the persistent
//! tier. An account without an entry holds zero. Every read that finds an entry
//! and every write refreshes the entry's lifetime.

use crate::host::{
    created_live_until, persistent_get, persistent_set, ready, store, Entry, Store,
};
use crate::lifetime::{
    law_refresh_leaves_the_floor, lifetime_floor, refresh_entry, refreshed, touch_entry,
};
use crate::storage_types::LedgerError;
use soroban_sdk::{Address, Env};
use vstd::prelude::*;

verus! {

/// The amount that an account holds: that of its entry, and zero without one.
pub open spec fn balance_of(s: Store, addr: Address) -> i128 {
    if s.balances.dom().contains(addr) {
        s.balances[addr].value
    } else {
        0
    }
}

/// The store after a read of an account's balance: an entry that exists has
/// its lifetime refreshed, and nothing else differs.
pub open spec fn touch_balance(s: Store, addr: Address) -> Store {
    if s.balances.dom().contains(addr) {
        touch_entry(s, addr)
    } else {
        s
    }
}

/// The store after `amount` was written as an account's balance: the entry
/// holds `amount`, its lifetime is that of the entry it replaces, or of a new
/// entry, refreshed; nothing else differs.
pub open spec fn put_balance(s: Store, addr: Address, amount: i128) -> Store {
    let before: u32 = if s.balances.dom().contains(addr) {
        s.balances[addr].live_until
    } else {
        created_live_until(s.sequence, s.min_persistent_entry_ttl) as u32
    };
    Store {
        balances: s.balances.insert(
            addr,
            Entry { value: amount, live_until: refreshed(s, before) },
        ),
        ..s
    }
}

/// Whether a credit of `amount` to an account that holds `balance` goes
/// through, and if not, why.
pub open spec fn credit_outcome(balance: i128, amount: i128) -> Result<(), LedgerError> {
    if i128::MIN <= balance + amount <= i128::MAX {
        Ok(())
    } else {
        Err(LedgerError::ArithmeticOverflow)
    }
}

/// The store after a call of `receive_balance`: the sum is written where the
/// credit goes through; where it does not, the account was read and no more.
pub open spec fn credited(s: Store, addr: Address, amount: i128) -> Store {
    if credit_outcome(balance_of(s, addr), amount).is_ok() {
        put_balance(s, addr, (balance_of(s, addr) + amount) as i128)
    } else {
        touch_balance(s, addr)
    }
}

/// Whether a debit of `amount` from an account that holds `balance` goes
/// through, and if not, why.
pub open spec fn debit_outcome(balance: i128, amount: i128) -> Result<(), LedgerError> {
    if balance < amount {
        Err(LedgerError::InsufficientBalance)
    } else if balance - amount > i128::MAX {
        Err(LedgerError::ArithmeticOverflow)
    } else {
        Ok(())
    }
}

/// The store after a call of `spend_balance`: the difference is written where
/// the debit goes through; where it does not, the account was read and no
/// more.
pub open spec fn debited(s: Store, addr: Address, amount: i128) -> Store {
    if debit_outcome(balance_of(s, addr), amount).is_ok() {
        put_balance(s, addr, (balance_of(s, addr) - amount) as i128)
    } else {
        touch_balance(s, addr)
    }
}

/// Every stored balance is non-negative.
pub open spec fn balances_nonnegative(s: Store) -> bool {
    forall|a: Address| #[trigger] s.balances.dom().contains(a) ==> s.balances[a].value >= 0
}

/// Two stores hold the same amount for every account.
pub open spec fn same_balances(s: Store, t: Store) -> bool {
    forall|a: Address| balance_of(s, a) == #[trigger] balance_of(t, a)
}

/// A write after a read leaves what the write alone would have left.
pub proof fn lemma_put_after_touch(s: Store, addr: Address, amount: i128)
    requires
        s.serves(),
    ensures
        put_balance(touch_balance(s, addr), addr, amount) == put_balance(s, addr, amount),
{
    assert(put_balance(touch_balance(s, addr), addr, amount).balances =~= put_balance(
        s,
        addr,
        amount,
    ).balances);
}

/// A read changes no amount: it only refreshes a lifetime.
pub proof fn law_read_keeps_balances(s: Store, addr: Address)
    ensures
        same_balances(touch_balance(s, addr), s),
        touch_balance(s, addr).balances.dom() == s.balances.dom(),
{
    assert(touch_balance(s, addr).balances.dom() =~= s.balances.dom());
}

/// A write sets the written account's amount and no other.
pub proof fn law_write_sets_one_balance(s: Store, addr: Address, amount: i128, other: Address)
    ensures
        balance_of(put_balance(s, addr, amount), addr) == amount,
        other != addr ==> balance_of(put_balance(s, addr, amount), other) == balance_of(s, other),
{
}

/// After a credit the account holds exactly `amount` more than before, unless
/// the sum leaves the range of an `i128`: then the credit is refused with
/// `ArithmeticOverflow` and every account holds what it held.
pub proof fn law_credit_adds_exactly(s: Store, addr: Address, amount: i128)
    ensures
        credit_outcome(balance_of(s, addr), amount).is_ok() ==> balance_of(
            credited(s, addr, amount),
            addr,
        ) == balance_of(s, addr) + amount,
        credit_outcome(balance_of(s, addr), amount).is_err() ==> {
            &&& credit_outcome(balance_of(s, addr), amount) == Err::<(), LedgerError>(
                LedgerError::ArithmeticOverflow,
            )
            &&& same_balances(credited(s, addr, amount), s)
            &&& credited(s, addr, amount).balances.dom() == s.balances.dom()
        },
        amount >= 0 ==> (credit_outcome(balance_of(s, addr), amount).is_ok() <==> balance_of(
            s,
            addr,
        ) + amount <= i128::MAX),
{
    law_read_keeps_balances(s, addr);
}

/// A debit of more than the account holds is refused with
/// `InsufficientBalance`, and every account holds what it held.
pub proof fn law_debit_beyond_balance_is_refused(s: Store, addr: Address, amount: i128)
    requires
        amount > balance_of(s, addr),
    ensures
        debit_outcome(balance_of(s, addr), amount) == Err::<(), LedgerError>(
            LedgerError::InsufficientBalance,
        ),
        same_balances(debited(s, addr, amount), s),
        debited(s, addr, amount).balances.dom() == s.balances.dom(),
{
    law_read_keeps_balances(s, addr);
}

/// A debit of a non-negative amount that the account holds goes through and
/// leaves exactly the difference.
pub proof fn law_debit_subtracts_exactly(s: Store, addr: Address, amount: i128)
    requires
        0 <= amount <= balance_of(s, addr),
    ensures
        debit_outcome(balance_of(s, addr), amount).is_ok(),
        balance_of(debited(s, addr, amount), addr) == balance_of(s, addr) - amount,
{
}

/// A credit or a debit changes no other account's amount.
pub proof fn law_other_accounts_keep_their_balance(
    s: Store,
    addr: Address,
    amount: i128,
    other: Address,
)
    requires
        other != addr,
    ensures
        balance_of(credited(s, addr, amount), other) == balance_of(s, other),
        balance_of(debited(s, addr, amount), other) == balance_of(s, other),
{
}

/// Credits and debits of non-negative amounts keep every stored balance
/// non-negative.
pub proof fn law_balances_stay_nonnegative(s: Store, addr: Address, amount: i128)
    requires
        balances_nonnegative(s),
        amount >= 0,
    ensures
        balances_nonnegative(credited(s, addr, amount)),
        balances_nonnegative(debited(s, addr, amount)),
{
    let c = credited(s, addr, amount);
    assert forall|a: Address| #[trigger] c.balances.dom().contains(a) implies c.balances[a].value
        >= 0 by {
        if a != addr {
            assert(s.balances.dom().contains(a));
        }
    }
    let d = debited(s, addr, amount);
    assert forall|a: Address| #[trigger] d.balances.dom().contains(a) implies d.balances[a].value
        >= 0 by {
        if a != addr {
            assert(s.balances.dom().contains(a));
        }
    }
}

/// After any read, credit or debit of an account, the entry that the store
/// holds for it has at least the floor of lifetime left, and no less than it
/// had.
pub proof fn law_touched_balance_has_lifetime(s: Store, addr: Address, amount: i128)
    requires
        s.serves(),
    ensures
        s.balances.dom().contains(addr) ==> {
            &&& touch_balance(s, addr).balances[addr].live_until - s.sequence >= lifetime_floor(s)
            &&& touch_balance(s, addr).balances[addr].live_until >= s.balances[addr].live_until
            &&& put_balance(s, addr, amount).balances[addr].live_until
                >= s.balances[addr].live_until
        },
        put_balance(s, addr, amount).balances.dom().contains(addr),
        put_balance(s, addr, amount).balances[addr].live_until - s.sequence >= lifetime_floor(s),
{
    if s.balances.dom().contains(addr) {
        law_refresh_leaves_the_floor(s, s.balances[addr].live_until);
    } else {
        law_refresh_leaves_the_floor(
            s,
            created_live_until(s.sequence, s.min_persistent_entry_ttl) as u32,
        );
    }
}

/// What an account that holds `balance` holds after a credit of `amount`, or
/// `ArithmeticOverflow` where the sum does not fit in an `i128`.
pub fn credit(balance: i128, amount: i128) -> (r: Result<i128, LedgerError>)
    ensures
        match r {
            Ok(sum) => credit_outcome(balance, amount).is_ok() && sum == balance + amount,
            Err(error) => credit_outcome(balance, amount) == Err::<(), LedgerError>(error),
        },
{
    match balance.checked_add(amount) {
        Some(sum) => Ok(sum),
        None => Err(LedgerError::ArithmeticOverflow),
    }
}

/// What an account that holds `balance` holds after a debit of `amount`, or
/// why the debit is refused: `InsufficientBalance` where it asks for more than
/// the account holds, `ArithmeticOverflow` where the difference does not fit
/// in an `i128`.
pub fn debit(balance: i128, amount: i128) -> (r: Result<i128, LedgerError>)
    ensures
        match r {
            Ok(rest) => debit_outcome(balance, amount).is_ok() && rest == balance - amount,
            Err(error) => debit_outcome(balance, amount) == Err::<(), LedgerError>(error),
        },
{
    if balance < amount {
        return Err(LedgerError::InsufficientBalance);
    }
    match balance.checked_sub(amount) {
        Some(rest) => Ok(rest),
        None => Err(LedgerError::ArithmeticOverflow),
    }
}

/// The balance of `addr`; zero where the ledger holds no entry for it. An
/// entry that is found has its lifetime refreshed.
pub fn read_balance(e: &mut Env, addr: Address) -> (r: i128)
    requires
        ready(*old(e)),
    ensures
        r == balance_of(store(*old(e)), addr),
        !store(*old(e)).balances.dom().contains(addr) ==> r == 0,
        store(*final(e)) == touch_balance(store(*old(e)), addr),
        ready(*final(e)),
{
    match persistent_get(e, &addr) {
        Some(balance) => {
            refresh_entry(e, &addr);
            balance
        },
        None => 0,
    }
}

/// Stores `amount` as the balance of `addr` and refreshes the entry's
/// lifetime. The amount is taken as it is: that it is not negative is for the
/// caller to see to.
pub(crate) fn write_balance(e: &mut Env, addr: Address, amount: i128)
    requires
        ready(*old(e)),
    ensures
        store(*final(e)) == put_balance(store(*old(e)), addr, amount),
        ready(*final(e)),
{
    persistent_set(e, &addr, amount);
    refresh_entry(e, &addr);
    proof {
        assert(store(*e).balances =~= put_balance(store(*old(e)), addr, amount).balances);
    }
}

/// Credits `amount` to `addr`. Where the sum does not fit in an `i128` the
/// credit is refused with `ArithmeticOverflow` and no amount is written.
pub fn receive_balance(e: &mut Env, addr: Address, amount: i128) -> (r: Result<(), LedgerError>)
    requires
        ready(*old(e)),
    ensures
        r == credit_outcome(balance_of(store(*old(e)), addr), amount),
        store(*final(e)) == credited(store(*old(e)), addr, amount),
        ready(*final(e)),
{
    let balance: i128 = read_balance(e, addr.clone());
    match credit(balance, amount) {
        Ok(sum) => {
            proof {
                lemma_put_after_touch(store(*old(e)), addr, sum);
            }
            write_balance(e, addr, sum);
            Ok(())
        },
        Err(error) => Err(error),
    }
}

/// Debits `amount` from `addr`. A debit of more than the account holds is
/// refused with `InsufficientBalance`; one whose difference does not fit in an
/// `i128`, which only a negative amount can cause, with `ArithmeticOverflow`.
/// A refused debit writes no amount.
pub fn spend_balance(e: &mut Env, addr: Address, amount: i128) -> (r: Result<(), LedgerError>)
    requires
        ready(*old(e)),
    ensures
        r == debit_outcome(balance_of(store(*old(e)), addr), amount),
        store(*final(e)) == debited(store(*old(e)), addr, amount),
        ready(*final(e)),
{
    let balance: i128 = read_balance(e, addr.clone());
    match debit(balance, amount) {
        Ok(rest) => {
            proof {
                lemma_put_after_touch(store(*old(e)), addr, rest);
            }
            write_balance(e, addr, rest);
            Ok(())
        },
        Err(error) => Err(error),
    }
}

} // verus!
