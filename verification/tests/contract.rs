use community_currency::currency::{PLACEHOLDER_ADMIN, PLACEHOLDER_NAME, PLACEHOLDER_SYMBOL};
use community_currency::model::{TTL_EXTEND_TO, TTL_THRESHOLD};
use community_currency::{
    CommunityCurrencyContract, CurrencyInfo, Identity, LedgerError, TtlExtension,
};

const ADMIN: &str = "GAAAAAAAAAAAAAAAAAAAAAAAAAAAAAAAAAAAAAAAAAAAAAAAAAAAC6PV";
const USER1: &str = "GAAAAAAAAAAAAAAAAAAAAAAAAAAAAAAAAAAAAAAAAAAAAAAAAAAAEGWF";
const USER2: &str = "GAAAAAAAAAAAAAAAAAAAAAAAAAAAAAAAAAAAAAAAAAAAAAAAAAAAGO6V";

fn id(key: &str) -> Identity {
    Identity::new(key)
}

fn community_token(supply: i128) -> CommunityCurrencyContract {
    let mut contract = CommunityCurrencyContract::new();
    let admin = id(ADMIN);
    let result = contract.initialize(
        &admin,
        admin.clone(),
        String::from("Community Token"),
        String::from("COMM"),
        supply,
    );
    assert_eq!(result, Ok(true));
    contract
}

#[test]
fn test_initialize() {
    let mut contract = CommunityCurrencyContract::new();

    let admin = id(ADMIN);
    let name = String::from("Community Token");
    let symbol = String::from("COMM");
    let supply = 1000000;

    let result = contract.initialize(&admin, admin.clone(), name, symbol, supply);
    assert_eq!(result, Ok(true));
}

#[test]
fn test_transfer() {
    let mut contract = CommunityCurrencyContract::new();

    let admin = id(ADMIN);
    let user1 = id(USER1);

    // Initialize currency
    let initialized = contract.initialize(
        &admin,
        admin.clone(),
        String::from("Community Token"),
        String::from("COMM"),
        1000000,
    );
    assert_eq!(initialized, Ok(true));

    // Transfer tokens
    let transferred = contract.transfer(&admin, admin.clone(), user1.clone(), 500);
    assert_eq!(transferred, Ok(true));

    // Check balances
    assert_eq!(contract.get_balance(admin), 999500);
    assert_eq!(contract.get_balance(user1), 500);
}

#[test]
fn test_get_balance() {
    let contract = CommunityCurrencyContract::new();

    let user = id(USER1);
    let balance = contract.get_balance(user);

    assert_eq!(balance, 0); // Should return 0 for uninitialized balance
}

#[test]
fn initialize_stores_the_currency_and_credits_the_admin() {
    let contract = community_token(1_000_000);
    assert!(contract.is_initialized());
    let info = contract.get_currency_info();
    assert_eq!(info.name, "Community Token");
    assert_eq!(info.symbol, "COMM");
    assert_eq!(info.total_supply, 1_000_000);
    assert_eq!(info.community_admin, id(ADMIN));
    assert_eq!(contract.get_balance(id(ADMIN)), 1_000_000);
    assert_eq!(contract.get_balance(id(USER1)), 0);
}

#[test]
fn second_initialize_fails_and_changes_nothing() {
    let mut contract = community_token(1_000_000);
    assert_eq!(contract.transfer(&id(ADMIN), id(ADMIN), id(USER1), 500), Ok(true));
    let before = contract.get_currency_info();

    let other = id(USER2);
    let again = contract.initialize(
        &other,
        other.clone(),
        String::from("Other Token"),
        String::from("OTH"),
        42,
    );
    assert_eq!(again, Err(LedgerError::AlreadyInitialized));
    assert_eq!(contract.get_currency_info(), before);
    assert_eq!(contract.get_balance(id(ADMIN)), 999_500);
    assert_eq!(contract.get_balance(id(USER1)), 500);
    assert_eq!(contract.get_balance(id(USER2)), 0);

    let admin = id(ADMIN);
    let same = contract.initialize(
        &admin,
        admin.clone(),
        String::from("Community Token"),
        String::from("COMM"),
        1_000_000,
    );
    assert_eq!(same, Err(LedgerError::AlreadyInitialized));
    assert_eq!(contract.get_balance(id(ADMIN)), 999_500);
}

#[test]
fn already_initialized_is_reported_before_unauthorized() {
    let mut contract = community_token(10);
    let again = contract.initialize(
        &id(USER1),
        id(ADMIN),
        String::from("Community Token"),
        String::from("COMM"),
        10,
    );
    assert_eq!(again, Err(LedgerError::AlreadyInitialized));
}

#[test]
fn initialize_without_the_admins_authorization_fails() {
    let mut contract = CommunityCurrencyContract::new();
    let result = contract.initialize(
        &id(USER1),
        id(ADMIN),
        String::from("Community Token"),
        String::from("COMM"),
        1_000_000,
    );
    assert_eq!(result, Err(LedgerError::Unauthorized));
    assert!(!contract.is_initialized());
    assert_eq!(contract.get_balance(id(ADMIN)), 0);
    assert_eq!(contract.get_currency_info(), CurrencyInfo::placeholder());
    assert_eq!(contract.extension(), None);

    // the failed call used nothing up: the admin can still initialize
    let admin = id(ADMIN);
    let result = contract.initialize(
        &admin,
        admin.clone(),
        String::from("Community Token"),
        String::from("COMM"),
        1_000_000,
    );
    assert_eq!(result, Ok(true));
    assert_eq!(contract.get_balance(id(ADMIN)), 1_000_000);
}

#[test]
fn transfer_without_the_senders_authorization_fails() {
    let mut contract = community_token(1_000_000);
    let result = contract.transfer(&id(USER1), id(ADMIN), id(USER1), 500);
    assert_eq!(result, Err(LedgerError::Unauthorized));
    assert_eq!(contract.get_balance(id(ADMIN)), 1_000_000);
    assert_eq!(contract.get_balance(id(USER1)), 0);
}

#[test]
fn unauthorized_is_reported_before_invalid_amount() {
    let mut contract = community_token(1_000_000);
    let result = contract.transfer(&id(USER1), id(ADMIN), id(USER1), 0);
    assert_eq!(result, Err(LedgerError::Unauthorized));
}

#[test]
fn transfer_of_zero_fails() {
    let mut contract = community_token(1_000_000);
    let result = contract.transfer(&id(ADMIN), id(ADMIN), id(USER1), 0);
    assert_eq!(result, Err(LedgerError::InvalidAmount));
    assert_eq!(contract.get_balance(id(ADMIN)), 1_000_000);
    assert_eq!(contract.get_balance(id(USER1)), 0);
}

#[test]
fn transfer_of_a_negative_amount_fails() {
    let mut contract = community_token(1_000_000);
    let result = contract.transfer(&id(ADMIN), id(ADMIN), id(USER1), -5);
    assert_eq!(result, Err(LedgerError::InvalidAmount));
    assert_eq!(contract.get_balance(id(ADMIN)), 1_000_000);
    assert_eq!(contract.get_balance(id(USER1)), 0);
}

#[test]
fn invalid_amount_is_reported_before_insufficient_balance() {
    let mut contract = community_token(1_000_000);
    let result = contract.transfer(&id(USER1), id(USER1), id(ADMIN), i128::MIN);
    assert_eq!(result, Err(LedgerError::InvalidAmount));
}

#[test]
fn transfer_of_one_more_than_the_balance_fails() {
    let mut contract = community_token(1_000_000);
    let result = contract.transfer(&id(ADMIN), id(ADMIN), id(USER1), 1_000_001);
    assert_eq!(result, Err(LedgerError::InsufficientBalance));
    assert_eq!(contract.get_balance(id(ADMIN)), 1_000_000);
    assert_eq!(contract.get_balance(id(USER1)), 0);

    // a holder without an entry has a balance of zero
    let result = contract.transfer(&id(USER1), id(USER1), id(ADMIN), 1);
    assert_eq!(result, Err(LedgerError::InsufficientBalance));
    assert_eq!(contract.get_balance(id(ADMIN)), 1_000_000);
    assert_eq!(contract.get_balance(id(USER1)), 0);
}

#[test]
fn transfer_of_the_whole_balance_succeeds() {
    let mut contract = community_token(1_000_000);
    let result = contract.transfer(&id(ADMIN), id(ADMIN), id(USER1), 1_000_000);
    assert_eq!(result, Ok(true));
    assert_eq!(contract.get_balance(id(ADMIN)), 0);
    assert_eq!(contract.get_balance(id(USER1)), 1_000_000);
}

#[test]
fn transfers_conserve_the_total_supply() {
    let mut contract = community_token(1_000_000);
    let holders = [ADMIN, USER1, USER2];
    let moves: [(usize, usize, i128); 8] = [
        (0, 1, 500),
        (1, 2, 200),
        (2, 0, 50),
        (1, 1, 300),
        (0, 2, 999_550),
        (2, 1, 1),
        (1, 0, 301),
        (0, 0, 301),
    ];
    for (from, to, amount) in moves {
        let sender = id(holders[from]);
        let result = contract.transfer(&sender, sender.clone(), id(holders[to]), amount);
        assert_eq!(result, Ok(true));
        let sum: i128 = holders.iter().map(|holder| contract.get_balance(id(holder))).sum();
        assert_eq!(sum, 1_000_000);
        assert_eq!(contract.get_currency_info().total_supply, 1_000_000);
    }
    assert_eq!(contract.get_balance(id(ADMIN)), 301);
    assert_eq!(contract.get_balance(id(USER1)), 0);
    assert_eq!(contract.get_balance(id(USER2)), 999_699);
}

#[test]
fn failed_transfers_conserve_the_total_supply() {
    let mut contract = community_token(1_000);
    assert_eq!(contract.transfer(&id(ADMIN), id(ADMIN), id(USER1), 400), Ok(true));
    assert_eq!(
        contract.transfer(&id(USER1), id(USER1), id(USER2), 401),
        Err(LedgerError::InsufficientBalance)
    );
    assert_eq!(
        contract.transfer(&id(USER2), id(USER1), id(USER2), 1),
        Err(LedgerError::Unauthorized)
    );
    assert_eq!(
        contract.transfer(&id(USER1), id(USER1), id(USER2), 0),
        Err(LedgerError::InvalidAmount)
    );
    assert_eq!(contract.get_balance(id(ADMIN)), 600);
    assert_eq!(contract.get_balance(id(USER1)), 400);
    assert_eq!(contract.get_balance(id(USER2)), 0);
}

#[test]
fn transfer_to_oneself_changes_no_balance() {
    let mut contract = community_token(1_000_000);
    let result = contract.transfer(&id(ADMIN), id(ADMIN), id(ADMIN), 500);
    assert_eq!(result, Ok(true));
    assert_eq!(contract.get_balance(id(ADMIN)), 1_000_000);

    let result = contract.transfer(&id(ADMIN), id(ADMIN), id(ADMIN), 1_000_000);
    assert_eq!(result, Ok(true));
    assert_eq!(contract.get_balance(id(ADMIN)), 1_000_000);

    let result = contract.transfer(&id(ADMIN), id(ADMIN), id(ADMIN), 1_000_001);
    assert_eq!(result, Err(LedgerError::InsufficientBalance));
    assert_eq!(contract.get_balance(id(ADMIN)), 1_000_000);
}

#[test]
fn transfer_to_oneself_of_the_largest_supply_does_not_overflow() {
    let mut contract = community_token(i128::MAX);
    let result = contract.transfer(&id(ADMIN), id(ADMIN), id(ADMIN), i128::MAX);
    assert_eq!(result, Ok(true));
    assert_eq!(contract.get_balance(id(ADMIN)), i128::MAX);

    let result = contract.transfer(&id(ADMIN), id(ADMIN), id(USER1), i128::MAX);
    assert_eq!(result, Ok(true));
    assert_eq!(contract.get_balance(id(ADMIN)), 0);
    assert_eq!(contract.get_balance(id(USER1)), i128::MAX);
}

#[test]
fn concrete_scenario() {
    let mut contract = CommunityCurrencyContract::new();
    let admin = id(ADMIN);
    let user1 = id(USER1);
    assert_eq!(
        contract.initialize(
            &admin,
            admin.clone(),
            String::from("Community Token"),
            String::from("COMM"),
            1_000_000
        ),
        Ok(true)
    );
    assert_eq!(contract.transfer(&admin, admin.clone(), user1.clone(), 500), Ok(true));
    assert_eq!(contract.get_balance(admin), 999_500);
    assert_eq!(contract.get_balance(user1), 500);
}

#[test]
fn queries_before_initialization() {
    let contract = CommunityCurrencyContract::new();
    assert!(!contract.is_initialized());
    for holder in [ADMIN, USER1, USER2, PLACEHOLDER_ADMIN, ""] {
        assert_eq!(contract.get_balance(id(holder)), 0);
    }
    let info = contract.get_currency_info();
    assert_eq!(info.name, "Not_Initialized");
    assert_eq!(info.symbol, "N/A");
    assert_eq!(info.total_supply, 0);
    assert_eq!(
        info.community_admin.key(),
        "GAAAAAAAAAAAAAAAAAAAAAAAAAAAAAAAAAAAAAAAAAAAAAAAAAAAAWHF"
    );
}

#[test]
fn placeholder_constants() {
    assert_eq!(PLACEHOLDER_NAME, "Not_Initialized");
    assert_eq!(PLACEHOLDER_SYMBOL, "N/A");
    assert_eq!(PLACEHOLDER_ADMIN, "GAAAAAAAAAAAAAAAAAAAAAAAAAAAAAAAAAAAAAAAAAAAAAAAAAAAAWHF");
    let info = CurrencyInfo::placeholder();
    assert_eq!(info.name, PLACEHOLDER_NAME);
    assert_eq!(info.symbol, PLACEHOLDER_SYMBOL);
    assert_eq!(info.total_supply, 0);
    assert_eq!(info.community_admin, id(PLACEHOLDER_ADMIN));
}

#[test]
fn transfer_before_initialization_fails_for_want_of_balance() {
    let mut contract = CommunityCurrencyContract::new();
    let result = contract.transfer(&id(USER1), id(USER1), id(USER2), 1);
    assert_eq!(result, Err(LedgerError::InsufficientBalance));
    assert_eq!(contract.get_balance(id(USER1)), 0);
    assert_eq!(contract.get_balance(id(USER2)), 0);
    assert!(!contract.is_initialized());
    assert_eq!(contract.extension(), None);
}

#[test]
fn initialize_accepts_any_supply_name_and_symbol() {
    let mut contract = CommunityCurrencyContract::new();
    let admin = id(ADMIN);
    let result = contract.initialize(&admin, admin.clone(), String::new(), String::new(), 0);
    assert_eq!(result, Ok(true));
    assert!(contract.is_initialized());
    let info = contract.get_currency_info();
    assert_eq!(info.name, "");
    assert_eq!(info.symbol, "");
    assert_eq!(info.total_supply, 0);
    assert_eq!(contract.get_balance(id(ADMIN)), 0);
}

#[test]
fn negative_supply_is_stored_and_cannot_move() {
    let mut contract = community_token(-5);
    assert_eq!(contract.get_currency_info().total_supply, -5);
    assert_eq!(contract.get_balance(id(ADMIN)), -5);
    assert_eq!(
        contract.transfer(&id(ADMIN), id(ADMIN), id(USER1), 1),
        Err(LedgerError::InsufficientBalance)
    );
    assert_eq!(
        contract.transfer(&id(USER1), id(USER1), id(ADMIN), 5),
        Err(LedgerError::InsufficientBalance)
    );
    assert_eq!(contract.get_balance(id(ADMIN)), -5);
    assert_eq!(contract.get_balance(id(USER1)), 0);
}

#[test]
fn placeholder_admin_may_be_the_admin() {
    let mut contract = CommunityCurrencyContract::new();
    let admin = id(PLACEHOLDER_ADMIN);
    let result = contract.initialize(
        &admin,
        admin.clone(),
        String::from("Community Token"),
        String::from("COMM"),
        7,
    );
    assert_eq!(result, Ok(true));
    assert_eq!(contract.get_balance(id(PLACEHOLDER_ADMIN)), 7);
}

#[test]
fn successful_changes_ask_for_the_expiry_extension() {
    assert_eq!(TTL_THRESHOLD, 100000);
    assert_eq!(TTL_EXTEND_TO, 100000);
    let asked = Some(TtlExtension { threshold: 100000, extend_to: 100000 });

    let mut contract = CommunityCurrencyContract::new();
    assert_eq!(contract.extension(), None);
    let admin = id(ADMIN);
    assert_eq!(
        contract.initialize(&admin, admin.clone(), String::from("T"), String::from("T"), 10),
        Ok(true)
    );
    assert_eq!(contract.extension(), asked);
    assert_eq!(contract.transfer(&admin, admin.clone(), id(USER1), 3), Ok(true));
    assert_eq!(contract.extension(), asked);
    assert_eq!(
        contract.transfer(&admin, admin.clone(), id(USER1), 8),
        Err(LedgerError::InsufficientBalance)
    );
    assert_eq!(contract.extension(), asked);
}

#[test]
fn queries_change_nothing() {
    let mut contract = community_token(1_000_000);
    assert_eq!(contract.transfer(&id(ADMIN), id(ADMIN), id(USER1), 500), Ok(true));
    for _ in 0..3 {
        assert_eq!(contract.get_balance(id(ADMIN)), 999_500);
        assert_eq!(contract.get_balance(id(USER1)), 500);
        assert_eq!(contract.get_balance(id(USER2)), 0);
        assert_eq!(contract.get_currency_info().name, "Community Token");
    }
}
