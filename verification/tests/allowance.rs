use soroban_sdk::testutils::storage::Temporary as _;
use soroban_sdk::testutils::{Address as _, ContractFunctionSet, EnvTestConfig, Ledger as _};
use soroban_sdk::{Address, Env, Val};
use water_token::allowance::{
    draw, effective, entry_lifetime, read_allowance, spend_allowance, write_allowance,
};
use water_token::storage_types::{AllowanceValue, LedgerError};

struct Ledger;

impl ContractFunctionSet for Ledger {
    fn call(&self, _func: &str, _env: Env, _args: &[Val]) -> Option<Val> {
        None
    }
}

struct Fixture {
    env: Env,
    contract: Address,
    owner: Address,
    spender: Address,
}

fn setup() -> Fixture {
    let env = Env::new_with_config(EnvTestConfig { capture_snapshot_at_drop: false });
    let contract = env.register(Ledger, ());
    let owner = Address::generate(&env);
    let spender = Address::generate(&env);
    Fixture { env, contract, owner, spender }
}

fn granted(amount: i128, expiration_ledger: u32) -> AllowanceValue {
    AllowanceValue { amount, expiration_ledger }
}

impl Fixture {
    fn read(&self) -> AllowanceValue {
        self.env.as_contract(&self.contract, || {
            read_allowance(&self.env, self.owner.clone(), self.spender.clone())
        })
    }

    fn write(&self, amount: i128, expiration_ledger: u32) {
        let mut e = self.env.clone();
        self.env.as_contract(&self.contract, || {
            write_allowance(
                &mut e,
                self.owner.clone(),
                self.spender.clone(),
                amount,
                expiration_ledger,
            )
        })
    }

    fn spend(&self, amount: i128) -> Result<(), LedgerError> {
        let mut e = self.env.clone();
        self.env.as_contract(&self.contract, || {
            spend_allowance(&mut e, self.owner.clone(), self.spender.clone(), amount)
        })
    }

    fn key(&self) -> (Address, Address) {
        (self.owner.clone(), self.spender.clone())
    }

    fn ttl(&self) -> u32 {
        self.env.as_contract(&self.contract, || self.env.storage().temporary().get_ttl(&self.key()))
    }

    fn held(&self) -> bool {
        self.env.as_contract(&self.contract, || self.env.storage().temporary().has(&self.key()))
    }
}

#[test]
fn allowance_never_written_reads_as_zero_at_ledger_zero() {
    let f = setup();
    f.env.ledger().set_sequence_number(1000);
    assert_eq!(f.read(), granted(0, 0));
    assert!(!f.held());
}

#[test]
fn written_allowance_reads_back() {
    let f = setup();
    f.env.ledger().set_sequence_number(1000);
    f.write(123, 1001);
    assert_eq!(f.read(), granted(123, 1001));
}

#[test]
fn allowance_is_live_at_its_expiration_ledger() {
    let f = setup();
    f.env.ledger().set_sequence_number(1000);
    f.write(5, 1000);
    assert_eq!(f.read(), granted(5, 1000));
    assert_eq!(f.spend(5), Ok(()));
    assert_eq!(f.read(), granted(0, 1000));
}

#[test]
fn write_replaces_and_does_not_add() {
    let f = setup();
    f.env.ledger().set_sequence_number(1000);
    f.write(100, 1100);
    f.write(30, 1050);
    assert_eq!(f.read(), granted(30, 1050));
}

#[test]
fn expired_allowance_reads_as_zero_and_keeps_expiration() {
    let f = setup();
    f.env.ledger().set_min_temp_entry_ttl(500);
    f.env.ledger().set_sequence_number(1000);
    f.write(100, 1020);
    f.env.ledger().set_sequence_number(1021);
    assert!(f.held());
    assert_eq!(f.read(), granted(0, 1020));
    assert_eq!(f.read(), granted(0, 1020));
}

#[test]
fn allowance_whose_entry_was_dropped_reads_as_never_written() {
    let f = setup();
    f.env.ledger().set_sequence_number(1000);
    f.write(100, 1020);
    assert_eq!(f.ttl(), 20);
    f.env.ledger().set_sequence_number(1021);
    assert!(!f.held());
    assert_eq!(f.read(), granted(0, 0));
    assert_eq!(f.spend(1), Err(LedgerError::InsufficientAllowance));
}

#[test]
fn spend_keeps_expiration() {
    let f = setup();
    f.env.ledger().set_sequence_number(1000);
    f.write(100, 1040);
    assert_eq!(f.spend(40), Ok(()));
    f.env.ledger().set_sequence_number(1039);
    assert_eq!(f.read(), granted(60, 1040));
}

#[test]
fn spend_on_expired_allowance_is_refused() {
    let f = setup();
    f.env.ledger().set_min_temp_entry_ttl(500);
    f.env.ledger().set_sequence_number(1000);
    f.write(100, 1020);
    f.env.ledger().set_sequence_number(1021);
    assert_eq!(f.spend(1), Err(LedgerError::InsufficientAllowance));
    assert_eq!(f.read(), granted(0, 1020));
}

#[test]
fn grant_spend_expire() {
    let f = setup();
    f.env.ledger().set_min_temp_entry_ttl(100);
    f.env.ledger().set_sequence_number(1000);
    f.write(200, 1050);
    assert_eq!(f.spend(150), Ok(()));
    assert_eq!(f.read(), granted(50, 1050));
    f.env.ledger().set_sequence_number(1051);
    assert_eq!(f.read(), granted(0, 1050));
    assert_eq!(f.spend(1), Err(LedgerError::InsufficientAllowance));
    assert_eq!(f.read(), granted(0, 1050));
}

#[test]
fn spend_beyond_allowance_is_refused_and_changes_nothing() {
    let f = setup();
    f.env.ledger().set_sequence_number(1000);
    f.write(10, 1100);
    assert_eq!(f.spend(11), Err(LedgerError::InsufficientAllowance));
    assert_eq!(f.read(), granted(10, 1100));
}

#[test]
fn spend_of_negative_amount_that_overflows_is_refused() {
    let f = setup();
    f.env.ledger().set_sequence_number(1000);
    f.write(i128::MAX, 1100);
    assert_eq!(f.spend(-1), Err(LedgerError::ArithmeticOverflow));
    assert_eq!(f.read(), granted(i128::MAX, 1100));
}

#[test]
fn spend_of_zero_from_nothing_writes_an_empty_allowance() {
    let f = setup();
    f.env.ledger().set_sequence_number(1000);
    assert_eq!(f.spend(0), Ok(()));
    assert!(f.held());
    assert_eq!(f.read(), granted(0, 0));
}

#[test]
fn entry_lives_until_the_allowance_expires() {
    let f = setup();
    f.env.ledger().set_sequence_number(1000);
    f.write(200, 1050);
    assert_eq!(f.ttl(), 50);
    f.env.ledger().set_sequence_number(1050);
    assert!(f.held());
    assert_eq!(f.read(), granted(200, 1050));
}

#[test]
fn entry_lifetime_is_capped_by_the_network() {
    let f = setup();
    f.env.ledger().set_max_entry_ttl(30);
    f.env.ledger().set_sequence_number(1000);
    f.write(200, 5000);
    assert_eq!(f.ttl(), 30);
    assert_eq!(f.read(), granted(200, 5000));
}

#[test]
fn write_never_shortens_the_entry_lifetime() {
    let f = setup();
    f.env.ledger().set_sequence_number(1000);
    f.write(200, 1100);
    assert_eq!(f.ttl(), 100);
    f.write(10, 1020);
    assert_eq!(f.ttl(), 100);
    assert_eq!(f.read(), granted(10, 1020));
}

#[test]
fn allowance_written_already_expired_is_stored_and_reads_as_zero() {
    let f = setup();
    f.env.ledger().set_sequence_number(1000);
    f.write(77, 999);
    assert!(f.held());
    assert_eq!(f.ttl(), 15);
    assert_eq!(f.read(), granted(0, 999));
    assert_eq!(f.spend(1), Err(LedgerError::InsufficientAllowance));
}

#[test]
fn other_pairs_are_untouched() {
    let f = setup();
    let other = Fixture {
        env: f.env.clone(),
        contract: f.contract.clone(),
        owner: f.spender.clone(),
        spender: f.owner.clone(),
    };
    f.env.ledger().set_sequence_number(1000);
    f.write(9, 1100);
    assert_eq!(other.read(), granted(0, 0));
    other.write(4, 1200);
    assert_eq!(f.spend(3), Ok(()));
    assert_eq!(f.read(), granted(6, 1100));
    assert_eq!(other.read(), granted(4, 1200));
}

#[test]
fn stored_allowance_is_weighed_against_the_clock() {
    assert_eq!(effective(None, 1000), granted(0, 0));
    assert_eq!(effective(Some(granted(100, 1020)), 1000), granted(100, 1020));
    assert_eq!(effective(Some(granted(100, 1020)), 1020), granted(100, 1020));
    assert_eq!(effective(Some(granted(100, 1020)), 1021), granted(0, 1020));
    assert_eq!(effective(Some(granted(100, 0)), 0), granted(100, 0));
    assert_eq!(effective(Some(granted(100, u32::MAX)), u32::MAX), granted(100, u32::MAX));
}

#[test]
fn entry_lifetime_ends_with_the_allowance_within_the_cap() {
    assert_eq!(entry_lifetime(6_311_999, 1050, 1000), 50);
    assert_eq!(entry_lifetime(30, 5000, 1000), 30);
    assert_eq!(entry_lifetime(30, 1030, 1000), 30);
    assert_eq!(entry_lifetime(100, 1000, 1000), 0);
    assert_eq!(entry_lifetime(100, 999, 1000), 0);
    assert_eq!(entry_lifetime(0, 5000, 1000), 0);
    assert_eq!(entry_lifetime(u32::MAX, u32::MAX, 0), u32::MAX);
}

#[test]
fn draw_gives_the_rest_or_says_why_not() {
    assert_eq!(draw(200, 150), Ok(50));
    assert_eq!(draw(50, 50), Ok(0));
    assert_eq!(draw(0, 0), Ok(0));
    assert_eq!(draw(0, 1), Err(LedgerError::InsufficientAllowance));
    assert_eq!(draw(50, 51), Err(LedgerError::InsufficientAllowance));
    assert_eq!(draw(i128::MAX, -1), Err(LedgerError::ArithmeticOverflow));
}
