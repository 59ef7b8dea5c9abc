use bet_ledger::contract::{
    close_round, deposit, execute, instantiate, open_round, place_bet, withdraw, withdraw_fees,
};
use bet_ledger::err::{ContractError, OverflowError, OverflowOperation, PaymentError, StdError};
use bet_ledger::host::{Attribute, BankMsg, Coin, MessageInfo, Response};
use bet_ledger::msg::{ExecuteMsg, InstantiateMsg};
use bet_ledger::state::{Ledger, Round};

const ADMIN: &str = "admin";
const ALICE: &str = "alice";
const BOB: &str = "bob";

fn caller(sender: &str) -> MessageInfo {
    MessageInfo { sender: sender.to_string(), funds: vec![] }
}

fn paying(sender: &str, amount: u128) -> MessageInfo {
    MessageInfo { sender: sender.to_string(), funds: vec![Coin::new(amount, "uscrt")] }
}

fn fresh() -> Ledger {
    let mut store = Ledger::new();
    assert_eq!(instantiate(&mut store, caller(ADMIN), InstantiateMsg {}), Ok(Response::default()));
    store
}

fn with_balance(owner: &str, amount: u128) -> Ledger {
    let mut store = fresh();
    store.save_balance(&owner.to_string(), amount);
    store
}

fn not_found(kind: &str) -> ContractError {
    ContractError::StdError(StdError::NotFound { kind: kind.to_string() })
}

fn no_balance() -> ContractError {
    ContractError::Deposit { msg: "No balance".to_string() }
}

fn transfer(to: &str, amount: u128, action: &str) -> Response {
    Response {
        messages: vec![BankMsg::Send {
            to_address: to.to_string(),
            amount: vec![Coin { denom: "uscrt".to_string(), amount }],
        }],
        attributes: vec![
            Attribute { key: "action".to_string(), value: action.to_string() },
            Attribute { key: "amount".to_string(), value: amount.to_string() },
        ],
    }
}

#[test]
fn instantiate_writes_every_singleton() {
    let store = fresh();
    assert_eq!(store.load_admin(), Ok(ADMIN.to_string()));
    assert_eq!(store.load_current_round(), Ok(Round::default()));
    assert_eq!(store.load_deposit_denom(), Ok("uscrt".to_string()));
    assert_eq!(store.load_fee_pool_balance(), Ok(0));
    assert_eq!(store.load_betting_open(), Ok(false));
}

#[test]
fn instantiate_ignores_attached_funds_and_keeps_balances() {
    let mut store = Ledger::new();
    store.save_balance(&ALICE.to_string(), 5);
    store.save_bet(&ALICE.to_string(), &"0".to_string(), 2);
    let res = instantiate(&mut store, paying(ADMIN, 9), InstantiateMsg {});
    assert_eq!(res, Ok(Response::default()));
    assert_eq!(store.load_balance(&ALICE.to_string()), Ok(5));
    assert_eq!(store.load_balance(&ADMIN.to_string()).is_err(), true);
    assert_eq!(store.bet(&ALICE.to_string(), &"0".to_string()), Some(2));
}

#[test]
fn deposit_opens_a_balance_at_the_amount_paid() {
    let mut store = fresh();
    assert_eq!(deposit(&mut store, paying(ALICE, 1000)), Ok(Response::default()));
    assert_eq!(store.load_balance(&ALICE.to_string()), Ok(1000));
}

#[test]
fn deposits_add_up() {
    let mut store = fresh();
    let amounts: [u128; 5] = [1, 20, 300, 4000, 50000];
    let mut sum: u128 = 0;
    for amount in amounts {
        assert_eq!(deposit(&mut store, paying(ALICE, amount)), Ok(Response::default()));
        sum += amount;
        assert_eq!(store.load_balance(&ALICE.to_string()), Ok(sum));
    }
    assert_eq!(store.load_balance(&ALICE.to_string()), Ok(54321));
}

#[test]
fn deposit_touches_only_the_sender() {
    let mut store = with_balance(BOB, 7);
    assert_eq!(deposit(&mut store, paying(ALICE, 3)), Ok(Response::default()));
    assert_eq!(store.load_balance(&BOB.to_string()), Ok(7));
    assert_eq!(store.load_balance(&ALICE.to_string()), Ok(3));
    assert_eq!(store.load_fee_pool_balance(), Ok(0));
}

#[test]
fn deposit_without_funds_fails_and_opens_no_balance() {
    let mut store = fresh();
    assert_eq!(
        deposit(&mut store, caller(ALICE)),
        Err(ContractError::Payment(PaymentError::NoFunds {}))
    );
    assert_eq!(store.load_balance(&ALICE.to_string()).is_err(), true);
}

#[test]
fn deposit_of_an_empty_coin_fails() {
    let mut store = with_balance(ALICE, 4);
    assert_eq!(
        deposit(&mut store, paying(ALICE, 0)),
        Err(ContractError::Payment(PaymentError::NoFunds {}))
    );
    assert_eq!(store.load_balance(&ALICE.to_string()), Ok(4));
}

#[test]
fn deposit_in_another_denom_fails() {
    let mut store = fresh();
    let info = MessageInfo { sender: ALICE.to_string(), funds: vec![Coin::new(5, "uatom")] };
    assert_eq!(
        deposit(&mut store, info),
        Err(ContractError::Payment(PaymentError::MissingDenom("uscrt".to_string())))
    );
    assert_eq!(store.load_balance(&ALICE.to_string()).is_err(), true);
}

#[test]
fn deposit_of_two_coins_fails() {
    let mut store = fresh();
    let info = MessageInfo {
        sender: ALICE.to_string(),
        funds: vec![Coin::new(5, "uscrt"), Coin::new(5, "uatom")],
    };
    assert_eq!(
        deposit(&mut store, info),
        Err(ContractError::Payment(PaymentError::MultipleDenoms {}))
    );
}

#[test]
fn deposit_beyond_the_range_fails_and_keeps_the_balance() {
    let mut store = with_balance(ALICE, u128::MAX - 1);
    assert_eq!(
        deposit(&mut store, paying(ALICE, 2)),
        Err(ContractError::StdError(StdError::Overflow {
            source: OverflowError {
                operation: OverflowOperation::Add,
                operand1: "340282366920938463463374607431768211454".to_string(),
                operand2: "2".to_string(),
            }
        }))
    );
    assert_eq!(store.load_balance(&ALICE.to_string()), Ok(u128::MAX - 1));
    assert_eq!(deposit(&mut store, paying(ALICE, 1)), Ok(Response::default()));
    assert_eq!(store.load_balance(&ALICE.to_string()), Ok(u128::MAX));
}

#[test]
fn deposit_on_an_uninitialized_store_fails_and_opens_no_balance() {
    let mut store = Ledger::new();
    assert_eq!(deposit(&mut store, paying(ALICE, 5)), Err(not_found("deposit denom")));
    assert_eq!(deposit(&mut store, caller(ALICE)), Err(not_found("deposit denom")));
    assert_eq!(store.load_balance(&ALICE.to_string()).is_err(), true);
}

#[test]
fn deposit_is_taken_in_the_configured_denom() {
    let mut store = Ledger::new();
    store.save_deposit_denom("uatom".to_string());
    assert_eq!(
        deposit(&mut store, paying(ALICE, 5)),
        Err(ContractError::Payment(PaymentError::MissingDenom("uatom".to_string())))
    );
    let info = MessageInfo { sender: ALICE.to_string(), funds: vec![Coin::new(5, "uatom")] };
    assert_eq!(deposit(&mut store, info), Ok(Response::default()));
    assert_eq!(store.load_balance(&ALICE.to_string()), Ok(5));
}

#[test]
fn withdraw_takes_the_amount_and_sends_the_amount() {
    let mut store = with_balance(ALICE, 1000);
    assert_eq!(withdraw(&mut store, caller(ALICE), 400), Ok(transfer(ALICE, 400, "withdraw")));
    assert_eq!(store.load_balance(&ALICE.to_string()), Ok(600));
}

#[test]
fn withdraw_of_the_whole_balance_leaves_zero() {
    let mut store = with_balance(ALICE, 1000);
    assert_eq!(withdraw(&mut store, caller(ALICE), 1000), Ok(transfer(ALICE, 1000, "withdraw")));
    assert_eq!(store.load_balance(&ALICE.to_string()), Ok(0));
}

#[test]
fn withdraw_of_nothing_changes_nothing() {
    let mut store = with_balance(ALICE, 1000);
    assert_eq!(withdraw(&mut store, caller(ALICE), 0), Ok(transfer(ALICE, 0, "withdraw")));
    assert_eq!(store.load_balance(&ALICE.to_string()), Ok(1000));
}

#[test]
fn withdraw_beyond_the_balance_fails_and_keeps_the_balance() {
    let mut store = with_balance(ALICE, 1000);
    assert_eq!(
        withdraw(&mut store, caller(ALICE), 1001),
        Err(ContractError::InsufficientBalance { amount: 1001, balance: 1000 })
    );
    assert_eq!(store.load_balance(&ALICE.to_string()), Ok(1000));
}

#[test]
fn withdraw_without_a_balance_record_fails() {
    let mut store = with_balance(BOB, 1000);
    assert_eq!(withdraw(&mut store, caller(ALICE), 1), Err(no_balance()));
    assert_eq!(withdraw(&mut store, caller(ALICE), 0), Err(no_balance()));
    assert_eq!(store.load_balance(&BOB.to_string()), Ok(1000));
    assert_eq!(store.load_balance(&ALICE.to_string()).is_err(), true);
}

#[test]
fn withdraw_touches_no_other_balance_and_no_fee() {
    let mut store = with_balance(ALICE, 10);
    store.save_balance(&BOB.to_string(), 20);
    store.save_fee_pool_balance(3);
    assert_eq!(withdraw(&mut store, caller(ALICE), 10), Ok(transfer(ALICE, 10, "withdraw")));
    assert_eq!(store.load_balance(&BOB.to_string()), Ok(20));
    assert_eq!(store.load_fee_pool_balance(), Ok(3));
}

#[test]
fn place_bet_takes_amount_and_fee_and_records_the_stake() {
    let mut store = with_balance(ALICE, 1000);
    assert_eq!(place_bet(&mut store, caller(ALICE), 500), Ok(Response::default()));
    assert_eq!(store.load_balance(&ALICE.to_string()), Ok(490));
    assert_eq!(store.load_fee_pool_balance(), Ok(10));
    assert_eq!(store.bet(&ALICE.to_string(), &"0".to_string()), Some(500));
}

#[test]
fn the_fee_is_a_fiftieth_rounded_down() {
    let cases: [(u128, u128); 8] =
        [(0, 0), (1, 0), (49, 0), (50, 1), (99, 1), (100, 2), (149, 2), (12345, 246)];
    for (amount, fee) in cases {
        let mut store = with_balance(ALICE, 1_000_000);
        assert_eq!(place_bet(&mut store, caller(ALICE), amount), Ok(Response::default()));
        assert_eq!(store.load_balance(&ALICE.to_string()), Ok(1_000_000 - amount - fee));
        assert_eq!(store.load_fee_pool_balance(), Ok(fee));
        assert_eq!(store.bet(&ALICE.to_string(), &"0".to_string()), Some(amount));
    }
}

#[test]
fn place_bet_with_exactly_amount_and_fee_succeeds() {
    let mut store = with_balance(ALICE, 510);
    assert_eq!(place_bet(&mut store, caller(ALICE), 500), Ok(Response::default()));
    assert_eq!(store.load_balance(&ALICE.to_string()), Ok(0));
    assert_eq!(store.load_fee_pool_balance(), Ok(10));
}

#[test]
fn place_bet_one_short_of_the_fee_fails_and_changes_nothing() {
    let mut store = with_balance(ALICE, 509);
    assert_eq!(
        place_bet(&mut store, caller(ALICE), 500),
        Err(ContractError::InsufficientBalance { amount: 500, balance: 509 })
    );
    assert_eq!(store.load_balance(&ALICE.to_string()), Ok(509));
    assert_eq!(store.load_fee_pool_balance(), Ok(0));
    assert_eq!(store.bet(&ALICE.to_string(), &"0".to_string()), None);
}

#[test]
fn place_bet_of_the_largest_amount_is_insufficient_balance() {
    let mut store = with_balance(ALICE, u128::MAX);
    assert_eq!(
        place_bet(&mut store, caller(ALICE), u128::MAX),
        Err(ContractError::InsufficientBalance { amount: u128::MAX, balance: u128::MAX })
    );
    assert_eq!(store.load_balance(&ALICE.to_string()), Ok(u128::MAX));
    assert_eq!(store.load_fee_pool_balance(), Ok(0));
}

#[test]
fn place_bet_without_a_balance_record_fails() {
    let mut store = fresh();
    assert_eq!(place_bet(&mut store, caller(ALICE), 1), Err(no_balance()));
    assert_eq!(place_bet(&mut store, caller(ALICE), 0), Err(no_balance()));
    assert_eq!(store.load_fee_pool_balance(), Ok(0));
    assert_eq!(store.bet(&ALICE.to_string(), &"0".to_string()), None);
}

#[test]
fn place_bet_is_recorded_for_the_current_round() {
    let mut store = with_balance(ALICE, 1000);
    let opened = open_round(&mut store, caller(BOB), "42".to_string(), "derby".to_string(), 150);
    assert_eq!(opened, Ok(Response::default()));
    assert_eq!(place_bet(&mut store, caller(ALICE), 100), Ok(Response::default()));
    assert_eq!(store.bet(&ALICE.to_string(), &"42".to_string()), Some(100));
    assert_eq!(store.bet(&ALICE.to_string(), &"0".to_string()), None);
    assert_eq!(store.bet(&BOB.to_string(), &"42".to_string()), None);
}

#[test]
fn a_second_bet_in_a_round_replaces_the_first() {
    let mut store = with_balance(ALICE, 1000);
    assert_eq!(place_bet(&mut store, caller(ALICE), 100), Ok(Response::default()));
    assert_eq!(place_bet(&mut store, caller(ALICE), 50), Ok(Response::default()));
    assert_eq!(store.bet(&ALICE.to_string(), &"0".to_string()), Some(50));
    assert_eq!(store.load_balance(&ALICE.to_string()), Ok(1000 - 102 - 51));
    assert_eq!(store.load_fee_pool_balance(), Ok(3));
}

#[test]
fn bets_in_different_rounds_are_kept_apart() {
    let mut store = with_balance(ALICE, 1000);
    assert_eq!(place_bet(&mut store, caller(ALICE), 100), Ok(Response::default()));
    let opened = open_round(&mut store, caller(ADMIN), "1".to_string(), "derby".to_string(), 2);
    assert_eq!(opened, Ok(Response::default()));
    assert_eq!(place_bet(&mut store, caller(ALICE), 200), Ok(Response::default()));
    assert_eq!(store.bet(&ALICE.to_string(), &"0".to_string()), Some(100));
    assert_eq!(store.bet(&ALICE.to_string(), &"1".to_string()), Some(200));
}

#[test]
fn place_bet_that_overfills_the_fee_pool_fails_and_changes_nothing() {
    let mut store = with_balance(ALICE, 1000);
    store.save_fee_pool_balance(u128::MAX);
    assert_eq!(
        place_bet(&mut store, caller(ALICE), 50),
        Err(ContractError::StdError(StdError::Overflow {
            source: OverflowError {
                operation: OverflowOperation::Add,
                operand1: "340282366920938463463374607431768211455".to_string(),
                operand2: "1".to_string(),
            }
        }))
    );
    assert_eq!(store.load_balance(&ALICE.to_string()), Ok(1000));
    assert_eq!(store.load_fee_pool_balance(), Ok(u128::MAX));
    assert_eq!(store.bet(&ALICE.to_string(), &"0".to_string()), None);
    assert_eq!(place_bet(&mut store, caller(ALICE), 49), Ok(Response::default()));
    assert_eq!(store.load_fee_pool_balance(), Ok(u128::MAX));
}

#[test]
fn place_bet_on_an_uninitialized_store_fails_and_changes_nothing() {
    let mut store = Ledger::new();
    store.save_balance(&ALICE.to_string(), 1000);
    assert_eq!(place_bet(&mut store, caller(ALICE), 100), Err(not_found("fee pool balance")));
    store.save_fee_pool_balance(0);
    assert_eq!(place_bet(&mut store, caller(ALICE), 100), Err(not_found("current round")));
    assert_eq!(store.load_balance(&ALICE.to_string()), Ok(1000));
    assert_eq!(store.load_fee_pool_balance(), Ok(0));
}

#[test]
fn open_round_is_open_to_anyone() {
    let mut store = fresh();
    let res = open_round(&mut store, caller(BOB), "42".to_string(), "derby".to_string(), 150);
    assert_eq!(res, Ok(Response::default()));
    assert_eq!(
        store.load_current_round(),
        Ok(Round { id: "42".to_string(), game: "derby".to_string(), odds: 150 })
    );
    assert_eq!(store.load_betting_open(), Ok(false));
}

#[test]
fn close_round_by_the_admin_resets_the_round() {
    let mut store = fresh();
    let _ = open_round(&mut store, caller(BOB), "42".to_string(), "derby".to_string(), 150);
    assert_eq!(close_round(&mut store, caller(ADMIN), "home".to_string()), Ok(Response::default()));
    assert_eq!(store.load_current_round(), Ok(Round::default()));
}

#[test]
fn close_round_by_another_caller_is_unauthorized() {
    let mut store = fresh();
    let _ = open_round(&mut store, caller(BOB), "42".to_string(), "derby".to_string(), 150);
    assert_eq!(
        close_round(&mut store, caller(BOB), "home".to_string()),
        Err(ContractError::Unauthorized { sender: BOB.to_string() })
    );
    assert_eq!(
        store.load_current_round(),
        Ok(Round { id: "42".to_string(), game: "derby".to_string(), odds: 150 })
    );
}

#[test]
fn close_round_settles_no_bet() {
    let mut store = with_balance(ALICE, 1000);
    assert_eq!(place_bet(&mut store, caller(ALICE), 500), Ok(Response::default()));
    assert_eq!(close_round(&mut store, caller(ADMIN), ALICE.to_string()), Ok(Response::default()));
    assert_eq!(store.load_balance(&ALICE.to_string()), Ok(490));
    assert_eq!(store.load_fee_pool_balance(), Ok(10));
    assert_eq!(store.bet(&ALICE.to_string(), &"0".to_string()), Some(500));
}

#[test]
fn close_round_on_an_uninitialized_store_fails() {
    let mut store = Ledger::new();
    assert_eq!(close_round(&mut store, caller(ADMIN), "x".to_string()), Err(not_found("admin")));
    assert_eq!(store.load_current_round().is_err(), true);
}

#[test]
fn withdraw_fees_sends_the_pool_to_the_admin_and_empties_it() {
    let mut store = with_balance(ALICE, 1000);
    assert_eq!(place_bet(&mut store, caller(ALICE), 500), Ok(Response::default()));
    assert_eq!(withdraw_fees(&mut store, caller(ADMIN)), Ok(transfer(ADMIN, 10, "fee collection")));
    assert_eq!(store.load_fee_pool_balance(), Ok(0));
    assert_eq!(withdraw_fees(&mut store, caller(ADMIN)), Ok(transfer(ADMIN, 0, "fee collection")));
    assert_eq!(store.load_balance(&ALICE.to_string()), Ok(490));
}

#[test]
fn withdraw_fees_by_another_caller_is_unauthorized() {
    let mut store = fresh();
    store.save_fee_pool_balance(10);
    assert_eq!(
        withdraw_fees(&mut store, caller(ALICE)),
        Err(ContractError::Unauthorized { sender: ALICE.to_string() })
    );
    assert_eq!(store.load_fee_pool_balance(), Ok(10));
}

#[test]
fn withdraw_fees_on_an_uninitialized_store_fails() {
    let mut store = Ledger::new();
    assert_eq!(withdraw_fees(&mut store, caller(ADMIN)), Err(not_found("fee pool balance")));
    store.save_fee_pool_balance(10);
    assert_eq!(withdraw_fees(&mut store, caller(ADMIN)), Err(not_found("admin")));
    assert_eq!(store.load_fee_pool_balance(), Ok(10));
}

#[test]
fn execute_dispatches_every_command() {
    let mut store = fresh();
    assert_eq!(
        execute(&mut store, paying(ALICE, 1000), ExecuteMsg::Deposit {}),
        Ok(Response::default())
    );
    assert_eq!(
        execute(
            &mut store,
            caller(BOB),
            ExecuteMsg::OpenRound { id: "9".to_string(), game: "go".to_string(), odds: 7 }
        ),
        Ok(Response::default())
    );
    assert_eq!(
        execute(&mut store, caller(ALICE), ExecuteMsg::PlaceBet { amount: 100 }),
        Ok(Response::default())
    );
    assert_eq!(store.bet(&ALICE.to_string(), &"9".to_string()), Some(100));
    assert_eq!(
        execute(&mut store, caller(ALICE), ExecuteMsg::Withdraw { amount: 98 }),
        Ok(transfer(ALICE, 98, "withdraw"))
    );
    assert_eq!(store.load_balance(&ALICE.to_string()), Ok(800));
    assert_eq!(
        execute(&mut store, caller(BOB), ExecuteMsg::CloseRound { winner: "w".to_string() }),
        Err(ContractError::Unauthorized { sender: BOB.to_string() })
    );
    assert_eq!(
        execute(&mut store, caller(ADMIN), ExecuteMsg::CloseRound { winner: "w".to_string() }),
        Ok(Response::default())
    );
    assert_eq!(store.load_current_round(), Ok(Round::default()));
    assert_eq!(
        execute(&mut store, caller(BOB), ExecuteMsg::WithdrawFees {}),
        Err(ContractError::Unauthorized { sender: BOB.to_string() })
    );
    assert_eq!(
        execute(&mut store, caller(ADMIN), ExecuteMsg::WithdrawFees {}),
        Ok(transfer(ADMIN, 2, "fee collection"))
    );
    assert_eq!(store.load_fee_pool_balance(), Ok(0));
}

#[test]
fn no_command_changes_admin_denom_or_betting_flag() {
    let mut store = fresh();
    let _ = execute(&mut store, paying(ALICE, 1000), ExecuteMsg::Deposit {});
    let _ = execute(&mut store, caller(ALICE), ExecuteMsg::PlaceBet { amount: 100 });
    let _ = execute(&mut store, caller(ALICE), ExecuteMsg::Withdraw { amount: 1 });
    let _ = execute(
        &mut store,
        caller(ALICE),
        ExecuteMsg::OpenRound { id: "1".to_string(), game: "g".to_string(), odds: 1 },
    );
    let _ = execute(&mut store, caller(ADMIN), ExecuteMsg::CloseRound { winner: "".to_string() });
    let _ = execute(&mut store, caller(ADMIN), ExecuteMsg::WithdrawFees {});
    assert_eq!(store.load_admin(), Ok(ADMIN.to_string()));
    assert_eq!(store.load_deposit_denom(), Ok("uscrt".to_string()));
    assert_eq!(store.load_betting_open(), Ok(false));
}

#[test]
fn a_command_reads_only_the_singletons_and_the_callers_balance() {
    let commands = || {
        vec![
            ExecuteMsg::PlaceBet { amount: 100 },
            ExecuteMsg::Withdraw { amount: 30 },
            ExecuteMsg::Withdraw { amount: 3000 },
            ExecuteMsg::Deposit {},
            ExecuteMsg::CloseRound { winner: "w".to_string() },
            ExecuteMsg::WithdrawFees {},
            ExecuteMsg::OpenRound { id: "5".to_string(), game: "g".to_string(), odds: 2 },
        ]
    };
    for (index, _) in commands().iter().enumerate() {
        let mut crowded = with_balance(ALICE, 1000);
        crowded.save_balance(&BOB.to_string(), 77);
        crowded.save_bet(&BOB.to_string(), &"0".to_string(), 5);
        crowded.save_bet(&ALICE.to_string(), &"old".to_string(), 9);
        let mut sparse = with_balance(ALICE, 1000);
        let on_crowded = execute(&mut crowded, paying(ALICE, 8), commands().remove(index));
        let on_sparse = execute(&mut sparse, paying(ALICE, 8), commands().remove(index));
        assert_eq!(on_crowded, on_sparse);
        assert_eq!(crowded.load_balance(&ALICE.to_string()), sparse.load_balance(&ALICE.to_string()));
        assert_eq!(crowded.load_fee_pool_balance(), sparse.load_fee_pool_balance());
        assert_eq!(crowded.load_current_round(), sparse.load_current_round());
        assert_eq!(
            crowded.bet(&ALICE.to_string(), &"0".to_string()),
            sparse.bet(&ALICE.to_string(), &"0".to_string())
        );
        assert_eq!(crowded.load_balance(&BOB.to_string()), Ok(77));
        assert_eq!(crowded.bet(&BOB.to_string(), &"0".to_string()), Some(5));
        assert_eq!(crowded.bet(&ALICE.to_string(), &"old".to_string()), Some(9));
    }
}
