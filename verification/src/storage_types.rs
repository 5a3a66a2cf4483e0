use vstd::prelude::*;

verus! {

/// Ledgers closed in one day, at five seconds a ledger.
pub const DAY_IN_LEDGERS: u32 = 17280;

/// Lifetime, in ledgers, that a refreshed entry of the instance or persistent
/// tier is extended to.
pub const INSTANCE_BUMP_AMOUNT: u32 = 7 * DAY_IN_LEDGERS;

/// Remaining lifetime, in ledgers, under which a touch of an entry of the
/// instance or persistent tier extends it.
pub const INSTANCE_LIFETIME_THRESHOLD: u32 = INSTANCE_BUMP_AMOUNT - DAY_IN_LEDGERS;

/// The slot of the instance tier that holds the administrator.
pub const ADMINISTRATOR_SLOT: u32 = 0;

/// The slot of the instance tier that holds the community fund's account.
pub const FUND_SLOT: u32 = 1;

/// What an owner lets a spender take: an amount, and the last ledger at which
/// it may still be taken.
#[derive(Clone, Copy, Debug, PartialEq, Eq, Structural)]
pub struct AllowanceValue {
    pub amount: i128,
    pub expiration_ledger: u32,
}

/// Why a ledger operation was refused. A refused operation has written no
/// value to the store.
#[derive(Clone, Copy, Debug, PartialEq, Eq, Structural)]
pub enum LedgerError {
    /// The resulting amount does not fit in an `i128`.
    ArithmeticOverflow,
    /// A debit asks for more than the account holds.
    InsufficientBalance,
    /// A spend asks for more than the allowance still grants at this ledger.
    InsufficientAllowance,
    /// A slot that holds a single value was read before anything was written to it.
    MissingRequiredState,
}

} // verus!
