use soroban_sdk::testutils::storage::Persistent as _;
use soroban_sdk::testutils::{Address as _, ContractFunctionSet, EnvTestConfig, Ledger as _};
use soroban_sdk::{Address, Env, Val};
use water_token::balance::{credit, debit, read_balance, receive_balance, spend_balance};
use water_token::storage_types::{
    LedgerError, DAY_IN_LEDGERS, INSTANCE_BUMP_AMOUNT, INSTANCE_LIFETIME_THRESHOLD,
};

struct Ledger;

impl ContractFunctionSet for Ledger {
    fn call(&self, _func: &str, _env: Env, _args: &[Val]) -> Option<Val> {
        None
    }
}

fn setup() -> (Env, Address) {
    let env = Env::new_with_config(EnvTestConfig { capture_snapshot_at_drop: false });
    let contract = env.register(Ledger, ());
    (env, contract)
}

fn balance(env: &Env, contract: &Address, account: &Address) -> i128 {
    let mut e = env.clone();
    env.as_contract(contract, || read_balance(&mut e, account.clone()))
}

fn receive(env: &Env, contract: &Address, account: &Address, n: i128) -> Result<(), LedgerError> {
    let mut e = env.clone();
    env.as_contract(contract, || receive_balance(&mut e, account.clone(), n))
}

fn spend(env: &Env, contract: &Address, account: &Address, n: i128) -> Result<(), LedgerError> {
    let mut e = env.clone();
    env.as_contract(contract, || spend_balance(&mut e, account.clone(), n))
}

fn balance_ttl(env: &Env, contract: &Address, account: &Address) -> u32 {
    env.as_contract(contract, || {
        env.storage().persistent().get_ttl(account)
    })
}

fn has_entry(env: &Env, contract: &Address, account: &Address) -> bool {
    env.as_contract(contract, || {
        env.storage().persistent().has(account)
    })
}

#[test]
fn lifetime_constants() {
    assert_eq!(DAY_IN_LEDGERS, 17280);
    assert_eq!(INSTANCE_BUMP_AMOUNT, 120960);
    assert_eq!(INSTANCE_LIFETIME_THRESHOLD, 103680);
}

#[test]
fn account_without_entry_holds_zero() {
    let (env, contract) = setup();
    let x = Address::generate(&env);
    assert_eq!(balance(&env, &contract, &x), 0);
    assert!(!has_entry(&env, &contract, &x));
}

#[test]
fn account_whose_entry_is_gone_holds_zero_again() {
    let (env, contract) = setup();
    let x = Address::generate(&env);
    assert_eq!(receive(&env, &contract, &x, 12), Ok(()));
    env.as_contract(&contract, || env.storage().persistent().remove(&x));
    assert_eq!(balance(&env, &contract, &x), 0);
    assert_eq!(receive(&env, &contract, &x, 3), Ok(()));
    assert_eq!(balance(&env, &contract, &x), 3);
}

#[test]
fn credit_then_debit_to_zero_then_refusal() {
    let (env, contract) = setup();
    let x = Address::generate(&env);
    assert_eq!(balance(&env, &contract, &x), 0);
    assert_eq!(receive(&env, &contract, &x, 500), Ok(()));
    assert_eq!(balance(&env, &contract, &x), 500);
    assert_eq!(spend(&env, &contract, &x, 500), Ok(()));
    assert_eq!(balance(&env, &contract, &x), 0);
    assert_eq!(spend(&env, &contract, &x, 1), Err(LedgerError::InsufficientBalance));
    assert_eq!(balance(&env, &contract, &x), 0);
}

#[test]
fn credit_adds_exactly() {
    let (env, contract) = setup();
    let x = Address::generate(&env);
    assert_eq!(receive(&env, &contract, &x, 40), Ok(()));
    assert_eq!(receive(&env, &contract, &x, 2), Ok(()));
    assert_eq!(receive(&env, &contract, &x, 0), Ok(()));
    assert_eq!(balance(&env, &contract, &x), 42);
}

#[test]
fn credit_that_overflows_is_refused_and_changes_nothing() {
    let (env, contract) = setup();
    let x = Address::generate(&env);
    assert_eq!(receive(&env, &contract, &x, i128::MAX), Ok(()));
    assert_eq!(receive(&env, &contract, &x, 1), Err(LedgerError::ArithmeticOverflow));
    assert_eq!(balance(&env, &contract, &x), i128::MAX);
}

#[test]
fn credit_that_overflows_on_fresh_account_writes_no_entry() {
    let (env, contract) = setup();
    let x = Address::generate(&env);
    let y = Address::generate(&env);
    assert_eq!(receive(&env, &contract, &x, i128::MIN), Ok(()));
    assert_eq!(receive(&env, &contract, &x, -1), Err(LedgerError::ArithmeticOverflow));
    assert_eq!(balance(&env, &contract, &x), i128::MIN);
    assert!(!has_entry(&env, &contract, &y));
}

#[test]
fn debit_beyond_balance_is_refused_and_changes_nothing() {
    let (env, contract) = setup();
    let x = Address::generate(&env);
    assert_eq!(receive(&env, &contract, &x, 100), Ok(()));
    assert_eq!(spend(&env, &contract, &x, 101), Err(LedgerError::InsufficientBalance));
    assert_eq!(balance(&env, &contract, &x), 100);
}

#[test]
fn debit_from_account_without_entry_is_refused_and_writes_no_entry() {
    let (env, contract) = setup();
    let x = Address::generate(&env);
    assert_eq!(spend(&env, &contract, &x, 1), Err(LedgerError::InsufficientBalance));
    assert!(!has_entry(&env, &contract, &x));
}

#[test]
fn debit_within_balance_leaves_the_difference() {
    let (env, contract) = setup();
    let x = Address::generate(&env);
    assert_eq!(receive(&env, &contract, &x, 100), Ok(()));
    assert_eq!(spend(&env, &contract, &x, 30), Ok(()));
    assert_eq!(balance(&env, &contract, &x), 70);
    assert_eq!(spend(&env, &contract, &x, 0), Ok(()));
    assert_eq!(balance(&env, &contract, &x), 70);
    assert_eq!(spend(&env, &contract, &x, 70), Ok(()));
    assert_eq!(balance(&env, &contract, &x), 0);
}

#[test]
fn debit_of_negative_amount_that_overflows_is_refused() {
    let (env, contract) = setup();
    let x = Address::generate(&env);
    assert_eq!(receive(&env, &contract, &x, i128::MAX), Ok(()));
    assert_eq!(spend(&env, &contract, &x, -1), Err(LedgerError::ArithmeticOverflow));
    assert_eq!(balance(&env, &contract, &x), i128::MAX);
}

#[test]
fn other_accounts_keep_their_balance() {
    let (env, contract) = setup();
    let x = Address::generate(&env);
    let y = Address::generate(&env);
    assert_eq!(receive(&env, &contract, &x, 10), Ok(()));
    assert_eq!(receive(&env, &contract, &y, 7), Ok(()));
    assert_eq!(spend(&env, &contract, &x, 4), Ok(()));
    assert_eq!(balance(&env, &contract, &x), 6);
    assert_eq!(balance(&env, &contract, &y), 7);
}

#[test]
fn first_write_extends_lifetime_to_bump() {
    let (env, contract) = setup();
    env.ledger().set_sequence_number(100);
    let x = Address::generate(&env);
    assert_eq!(receive(&env, &contract, &x, 1), Ok(()));
    assert_eq!(balance_ttl(&env, &contract, &x), INSTANCE_BUMP_AMOUNT);
}

#[test]
fn read_under_threshold_extends_lifetime() {
    let (env, contract) = setup();
    let x = Address::generate(&env);
    assert_eq!(receive(&env, &contract, &x, 1), Ok(()));
    env.ledger().set_sequence_number(INSTANCE_BUMP_AMOUNT - INSTANCE_LIFETIME_THRESHOLD + 1);
    assert_eq!(balance_ttl(&env, &contract, &x), INSTANCE_LIFETIME_THRESHOLD - 1);
    assert_eq!(balance(&env, &contract, &x), 1);
    assert_eq!(balance_ttl(&env, &contract, &x), INSTANCE_BUMP_AMOUNT);
}

#[test]
fn read_at_threshold_leaves_lifetime() {
    let (env, contract) = setup();
    let x = Address::generate(&env);
    assert_eq!(receive(&env, &contract, &x, 1), Ok(()));
    env.ledger().set_sequence_number(INSTANCE_BUMP_AMOUNT - INSTANCE_LIFETIME_THRESHOLD);
    assert_eq!(balance_ttl(&env, &contract, &x), INSTANCE_LIFETIME_THRESHOLD);
    assert_eq!(balance(&env, &contract, &x), 1);
    assert_eq!(balance_ttl(&env, &contract, &x), INSTANCE_LIFETIME_THRESHOLD);
    assert_eq!(spend(&env, &contract, &x, 1), Ok(()));
    assert_eq!(balance_ttl(&env, &contract, &x), INSTANCE_LIFETIME_THRESHOLD);
    assert_eq!(receive(&env, &contract, &x, 1), Ok(()));
    assert_eq!(balance_ttl(&env, &contract, &x), INSTANCE_LIFETIME_THRESHOLD);
}

#[test]
fn refused_debit_still_refreshes_lifetime() {
    let (env, contract) = setup();
    let x = Address::generate(&env);
    assert_eq!(receive(&env, &contract, &x, 1), Ok(()));
    env.ledger().set_sequence_number(INSTANCE_BUMP_AMOUNT - 5);
    assert_eq!(balance_ttl(&env, &contract, &x), 5);
    assert_eq!(spend(&env, &contract, &x, 2), Err(LedgerError::InsufficientBalance));
    assert_eq!(balance_ttl(&env, &contract, &x), INSTANCE_BUMP_AMOUNT);
}

#[test]
fn lifetime_is_capped_by_the_network() {
    let (env, contract) = setup();
    env.ledger().set_min_persistent_entry_ttl(10);
    env.ledger().set_max_entry_ttl(1000);
    env.ledger().set_sequence_number(50);
    let x = Address::generate(&env);
    assert_eq!(receive(&env, &contract, &x, 1), Ok(()));
    assert_eq!(balance_ttl(&env, &contract, &x), 1000);
}

#[test]
fn new_entry_that_outlives_the_cap_keeps_its_lifetime() {
    let (env, contract) = setup();
    env.ledger().set_max_entry_ttl(1000);
    let x = Address::generate(&env);
    assert_eq!(receive(&env, &contract, &x, 1), Ok(()));
    assert_eq!(balance_ttl(&env, &contract, &x), 4095);
}

#[test]
fn credit_gives_the_sum_or_overflows() {
    assert_eq!(credit(0, 500), Ok(500));
    assert_eq!(credit(i128::MAX - 1, 1), Ok(i128::MAX));
    assert_eq!(credit(i128::MAX, 1), Err(LedgerError::ArithmeticOverflow));
    assert_eq!(credit(i128::MIN, -1), Err(LedgerError::ArithmeticOverflow));
    assert_eq!(credit(7, -7), Ok(0));
}

#[test]
fn debit_gives_the_difference_or_says_why_not() {
    assert_eq!(debit(500, 500), Ok(0));
    assert_eq!(debit(500, 0), Ok(500));
    assert_eq!(debit(0, 1), Err(LedgerError::InsufficientBalance));
    assert_eq!(debit(499, 500), Err(LedgerError::InsufficientBalance));
    assert_eq!(debit(i128::MAX, -1), Err(LedgerError::ArithmeticOverflow));
    assert_eq!(debit(-1, i128::MIN), Ok(i128::MAX));
}

#[test]
fn balance_is_read_and_refreshed_long_after_its_lifetime() {
    let (env, contract) = setup();
    let x = Address::generate(&env);
    assert_eq!(receive(&env, &contract, &x, 25), Ok(()));
    env.ledger().set_sequence_number(3 * INSTANCE_BUMP_AMOUNT);
    assert_eq!(balance(&env, &contract, &x), 25);
    assert_eq!(balance_ttl(&env, &contract, &x), INSTANCE_BUMP_AMOUNT);
    assert_eq!(spend(&env, &contract, &x, 5), Ok(()));
    assert_eq!(balance(&env, &contract, &x), 20);
}
