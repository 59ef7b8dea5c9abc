//! What holds of the ledger whatever the store and whoever calls. Each law is
//! stated over the state machine that the commands are proved to carry out.

use crate::err::ContractErrorView;
use crate::err::StdErrorView;
use crate::host::CoinView;
use crate::host::MessageInfoView;
use crate::host::ResponseView;
use crate::model::balance_or_zero;
use crate::model::bet_fee;
use crate::model::close_round_step;
use crate::model::deposit_step;
use crate::model::execute_step;
use crate::model::fee_collection_response;
use crate::model::instantiated;
use crate::model::native_denom;
use crate::model::open_round_step;
use crate::model::place_bet_step;
use crate::model::query_answer;
use crate::model::run;
use crate::model::store_after;
use crate::model::withdraw_fees_step;
use crate::model::withdraw_step;
use crate::model::withdrawal_response;
use crate::model::Call;
use crate::model::Outcome;
use crate::msg::ExecuteMsgView;
use crate::msg::QueryMsgView;
use crate::msg::QueryResponseView;
use crate::payment::paid_amount;
use crate::state::missing;
use crate::state::LedgerView;
use crate::state::RoundView;
use vstd::prelude::*;

verus! {

/// A store that was initialized: every singleton record exists.
pub open spec fn initialized(s: LedgerView) -> bool {
    &&& s.admin is Some
    &&& s.current_round is Some
    &&& s.deposit_denom is Some
    &&& s.fee_pool_balance is Some
    &&& s.betting_open is Some
}

/// The call by which `sender` deposits the funds `funds`.
pub open spec fn deposit_call(sender: Seq<char>, funds: Seq<CoinView>) -> MessageInfoView {
    MessageInfoView { sender, funds }
}

/// The store after `sender` has made one deposit for each entry of
/// `payments`, in order, each with those funds attached; the error of the
/// first deposit that fails, if one does.
pub open spec fn deposits(s: LedgerView, sender: Seq<char>, payments: Seq<Seq<CoinView>>) -> Result<
    LedgerView,
    ContractErrorView,
>
    decreases payments.len(),
{
    if payments.len() == 0 {
        Ok(s)
    } else {
        match deposits(s, sender, payments.drop_last()) {
            Err(e) => Err(e),
            Ok(before) => match deposit_step(before, deposit_call(sender, payments.last())) {
                Err(e) => Err(e),
                Ok(outcome) => Ok(outcome.store),
            },
        }
    }
}

/// The sum of the amounts that `payments` pay in `denom`.
pub open spec fn total_paid(payments: Seq<Seq<CoinView>>, denom: Seq<char>) -> nat
    decreases payments.len(),
{
    if payments.len() == 0 {
        0
    } else {
        total_paid(payments.drop_last(), denom) + (match paid_amount(payments.last(), denom) {
            Ok(amount) => amount as nat,
            Err(_) => 0,
        })
    }
}

/// Deposits add up. On a store that is configured to take deposits in
/// `denom`, a run of deposits by one address succeeds exactly when every
/// payment is acceptable and the balance can hold the total; the balance is
/// then what it was, or zero, plus the sum of the amounts paid, and nothing
/// else in the store has changed.
pub proof fn law_deposits_add_up(
    s: LedgerView,
    denom: Seq<char>,
    sender: Seq<char>,
    payments: Seq<Seq<CoinView>>,
)
    requires
        s.deposit_denom == Some(denom),
    ensures
        deposits(s, sender, payments) is Ok <==> (forall|i: int|
            0 <= i < payments.len() ==> (#[trigger] paid_amount(payments[i], denom)) is Ok)
            && balance_or_zero(s, sender) + total_paid(payments, denom) <= u128::MAX,
        deposits(s, sender, payments) matches Ok(after) ==> {
            &&& balance_or_zero(after, sender) == balance_or_zero(s, sender) + total_paid(
                payments,
                denom,
            )
            &&& payments.len() > 0 ==> after.balances.contains_key(sender)
            &&& after.balances.remove(sender) == s.balances.remove(sender)
            &&& after == (LedgerView { balances: after.balances, ..s })
        },
    decreases payments.len(),
{
    if payments.len() > 0 {
        let earlier = payments.drop_last();
        law_deposits_add_up(s, denom, sender, earlier);
        assert forall|i: int| 0 <= i < earlier.len() implies earlier[i] == payments[i] by {}
        let all_paid = forall|i: int|
            0 <= i < payments.len() ==> (#[trigger] paid_amount(payments[i], denom)) is Ok;
        let earlier_paid = forall|i: int|
            0 <= i < earlier.len() ==> (#[trigger] paid_amount(earlier[i], denom)) is Ok;
        assert(all_paid <==> earlier_paid && paid_amount(payments.last(), denom) is Ok) by {
            if all_paid {
                assert(paid_amount(payments[payments.len() - 1], denom) is Ok);
                assert forall|i: int| 0 <= i < earlier.len() implies (#[trigger] paid_amount(
                    earlier[i],
                    denom,
                )) is Ok by {
                    assert(paid_amount(payments[i], denom) is Ok);
                }
            }
            if earlier_paid && paid_amount(payments.last(), denom) is Ok {
                assert forall|i: int| 0 <= i < payments.len() implies (#[trigger] paid_amount(
                    payments[i],
                    denom,
                )) is Ok by {
                    if i < earlier.len() {
                        assert(paid_amount(earlier[i], denom) is Ok);
                    }
                }
            }
        }
        if deposits(s, sender, payments) is Ok {
            let before = deposits(s, sender, earlier)->Ok_0;
            let after = deposits(s, sender, payments)->Ok_0;
            assert(after.balances.remove(sender) =~= before.balances.remove(sender));
        }
    } else {
        assert(s == (LedgerView { balances: s.balances, ..s }));
    }
}

/// A withdrawal that the balance covers takes exactly the amount off the
/// sender's balance, touches nothing else and has the host send exactly that
/// amount to the sender. One that the balance does not cover fails with
/// `InsufficientBalance` and leaves the store as it was.
pub proof fn law_withdraw(s: LedgerView, sender: Seq<char>, amount: u128)
    requires
        s.balances.contains_key(sender),
    ensures
        amount <= s.balances[sender] ==> {
            &&& withdraw_step(s, sender, amount) matches Ok(outcome)
            &&& outcome.store.balances.contains_key(sender)
            &&& outcome.store.balances[sender] == s.balances[sender] - amount
            &&& outcome.store == (LedgerView {
                balances: s.balances.insert(sender, outcome.store.balances[sender]),
                ..s
            })
            &&& outcome.response == withdrawal_response(sender, amount)
        },
        amount > s.balances[sender] ==> {
            &&& withdraw_step(s, sender, amount) == Err::<Outcome, ContractErrorView>(
                ContractErrorView::InsufficientBalance { amount, balance: s.balances[sender] },
            )
            &&& store_after(s, withdraw_step(s, sender, amount)) == s
        },
{
}

/// A bet that the balance covers, fee included, takes exactly the amount and
/// the fee off the sender's balance, adds exactly the fee to the fee pool and
/// records the amount as the sender's stake on the current round; nothing
/// else changes. One that the balance does not cover fails with
/// `InsufficientBalance` and leaves the store as it was.
///
/// The first part is stated of an initialized store whose fee pool can hold
/// the fee.
pub proof fn law_place_bet(s: LedgerView, sender: Seq<char>, amount: u128)
    requires
        s.balances.contains_key(sender),
    ensures
        s.balances[sender] >= amount + bet_fee(amount) && initialized(s)
            && s.fee_pool_balance->Some_0 + bet_fee(amount) <= u128::MAX ==> {
            &&& place_bet_step(s, sender, amount) matches Ok(outcome)
            &&& outcome.store.balances.contains_key(sender)
            &&& outcome.store.balances[sender] == s.balances[sender] - (amount + bet_fee(amount))
            &&& outcome.store.fee_pool_balance matches Some(pool)
            &&& pool == s.fee_pool_balance->Some_0 + bet_fee(amount)
            &&& outcome.store.bets.contains_key((sender, s.current_round->Some_0.id))
            &&& outcome.store.bets[(sender, s.current_round->Some_0.id)] == amount
            &&& outcome.store == (LedgerView {
                balances: s.balances.insert(sender, outcome.store.balances[sender]),
                fee_pool_balance: Some(pool),
                bets: s.bets.insert((sender, s.current_round->Some_0.id), amount),
                ..s
            })
            &&& outcome.response == ResponseView::empty()
        },
        s.balances[sender] < amount + bet_fee(amount) ==> {
            &&& place_bet_step(s, sender, amount) == Err::<Outcome, ContractErrorView>(
                ContractErrorView::InsufficientBalance { amount, balance: s.balances[sender] },
            )
            &&& store_after(s, place_bet_step(s, sender, amount)) == s
        },
{
}

/// The round that was just opened is the round that a query reports, value
/// for value, whoever opened it and whatever stood before.
pub proof fn law_open_round_then_query(s: LedgerView, id: Seq<char>, game: Seq<char>, odds: u128)
    ensures
        open_round_step(s, id, game, odds) matches Ok(outcome) && query_answer(
            outcome.store,
            QueryMsgView::CurrentRound,
        ) == Ok::<QueryResponseView, StdErrorView>(
            QueryResponseView::CurrentRound(RoundView { id, game, odds }),
        ),
{
}

/// Closing a round is the administrator's alone. Any other caller gets
/// `Unauthorized` and the store stays as it was, current round included. For
/// the administrator the current round becomes the idle one, whatever it
/// was, and nothing else changes.
pub proof fn law_close_round(s: LedgerView, sender: Seq<char>)
    requires
        s.admin is Some,
    ensures
        sender != s.admin->Some_0 ==> {
            &&& close_round_step(s, sender) == Err::<Outcome, ContractErrorView>(
                ContractErrorView::Unauthorized { sender },
            )
            &&& store_after(s, close_round_step(s, sender)) == s
        },
        sender == s.admin->Some_0 ==> {
            &&& close_round_step(s, sender) matches Ok(outcome)
            &&& outcome.store == (LedgerView { current_round: Some(RoundView::idle()), ..s })
            &&& outcome.response == ResponseView::empty()
        },
{
}

/// Whether `call` is a deposit by `address`.
pub open spec fn deposit_by(call: Call, address: Seq<char>) -> bool {
    call.msg is Deposit && call.info.sender == address
}

/// What a command can touch. Whatever the call and whether or not it
/// succeeds:
/// the administrator, the denomination and the betting flag stay as they are;
/// the current round changes only when a round is opened or closed;
/// the fee pool changes only when a bet is placed or the fees are collected;
/// no balance changes but the caller's, and that only by a deposit, a
/// withdrawal or a bet, and only a deposit gives the caller a balance record
/// that was not there;
/// no bet changes but the caller's on the current round, and that only when
/// a bet is placed.
pub proof fn law_command_frame(s: LedgerView, call: Call)
    ensures
        ({
            let after = store_after(s, execute_step(s, call.info, call.msg));
            let sender = call.info.sender;
            &&& after.admin == s.admin
            &&& after.deposit_denom == s.deposit_denom
            &&& after.betting_open == s.betting_open
            &&& !(call.msg is OpenRound || call.msg is CloseRound) ==> after.current_round
                == s.current_round
            &&& !(call.msg is PlaceBet || call.msg is WithdrawFees) ==> after.fee_pool_balance
                == s.fee_pool_balance
            &&& !(call.msg is Deposit || call.msg is Withdraw || call.msg is PlaceBet)
                ==> after.balances == s.balances
            &&& after.balances.remove(sender) == s.balances.remove(sender)
            &&& s.balances.dom().subset_of(after.balances.dom())
            &&& !(call.msg is Deposit) ==> after.balances.dom() == s.balances.dom()
            &&& !(call.msg is PlaceBet) ==> after.bets == s.bets
            &&& s.bets.dom().subset_of(after.bets.dom())
            &&& s.current_round matches Some(round) ==> after.bets.remove((sender, round.id))
                == s.bets.remove((sender, round.id))
            &&& s.current_round is None ==> after.bets == s.bets
        }),
{
    let after = store_after(s, execute_step(s, call.info, call.msg));
    let sender = call.info.sender;
    assert(after.balances.remove(sender) =~= s.balances.remove(sender));
    assert(!(call.msg is Deposit) ==> after.balances.dom() =~= s.balances.dom());
    if s.current_round is Some {
        let key = (sender, s.current_round->Some_0.id);
        assert(after.bets.remove(key) =~= s.bets.remove(key));
    }
}

/// Whether two stores hold the same singleton records and the same balance,
/// or none, for `address`.
pub open spec fn alike_for(s1: LedgerView, s2: LedgerView, address: Seq<char>) -> bool {
    &&& s1.admin == s2.admin
    &&& s1.current_round == s2.current_round
    &&& s1.deposit_denom == s2.deposit_denom
    &&& s1.fee_pool_balance == s2.fee_pool_balance
    &&& s1.betting_open == s2.betting_open
    &&& s1.balances.contains_key(address) == s2.balances.contains_key(address)
    &&& s1.balances.contains_key(address) ==> s1.balances[address] == s2.balances[address]
}

/// A command reads nothing but the singleton records and the caller's own
/// balance. On two stores that are alike in these, a call ends alike: in the
/// same error, or in the same response with stores that are again alike and
/// hold the same stake for the caller on the current round.
pub proof fn law_command_is_local(s1: LedgerView, s2: LedgerView, call: Call)
    requires
        alike_for(s1, s2, call.info.sender),
    ensures
        match (execute_step(s1, call.info, call.msg), execute_step(s2, call.info, call.msg)) {
            (Ok(o1), Ok(o2)) => {
                &&& o1.response == o2.response
                &&& alike_for(o1.store, o2.store, call.info.sender)
                &&& call.msg is PlaceBet ==> {
                    let key = (call.info.sender, s1.current_round->Some_0.id);
                    o1.store.bets.contains_key(key) && o2.store.bets.contains_key(key)
                        && o1.store.bets[key] == o2.store.bets[key]
                }
            },
            (Err(e1), Err(e2)) => e1 == e2,
            _ => false,
        },
{
}

/// A query reads nothing but the singleton records and the balance of the
/// address that it asks about.
pub proof fn law_query_is_local(s1: LedgerView, s2: LedgerView, msg: QueryMsgView)
    requires
        s1.current_round == s2.current_round,
        s1.betting_open == s2.betting_open,
        msg matches QueryMsgView::Balance { address } ==> alike_for(s1, s2, address),
    ensures
        query_answer(s1, msg) == query_answer(s2, msg),
{
}

/// A bet on a round replaces the caller's earlier bet on that round: after
/// two bets in a row by one caller, the stake on record is the second
/// amount, while both bets were paid for.
pub proof fn law_second_bet_replaces_first(
    s: LedgerView,
    sender: Seq<char>,
    first: u128,
    second: u128,
)
    requires
        place_bet_step(s, sender, first) is Ok,
        place_bet_step(place_bet_step(s, sender, first)->Ok_0.store, sender, second) is Ok,
    ensures
        ({
            let mid = place_bet_step(s, sender, first)->Ok_0.store;
            let end = place_bet_step(mid, sender, second)->Ok_0.store;
            let round = s.current_round->Some_0;
            &&& s.current_round is Some
            &&& mid.bets[(sender, round.id)] == first
            &&& end.bets[(sender, round.id)] == second
            &&& end.bets.dom() == mid.bets.dom()
            &&& end.balances[sender] == s.balances[sender] - first - bet_fee(first) - second
                - bet_fee(second)
        }),
{
    let mid = place_bet_step(s, sender, first)->Ok_0.store;
    let end = place_bet_step(mid, sender, second)->Ok_0.store;
    assert(end.bets.dom() =~= mid.bets.dom());
}

/// An address that made no deposit has no balance to report. Starting from a
/// store in which `address` has no balance record, after any calls among
/// which there is no deposit by `address`, the query for its balance fails
/// as for a missing record.
pub proof fn law_no_balance_without_deposit(s: LedgerView, calls: Seq<Call>, address: Seq<char>)
    requires
        !s.balances.contains_key(address),
        forall|i: int| 0 <= i < calls.len() ==> !deposit_by(#[trigger] calls[i], address),
    ensures
        !run(s, calls).balances.contains_key(address),
        query_answer(run(s, calls), (QueryMsgView::Balance { address })) == Err::<
            QueryResponseView,
            StdErrorView,
        >(missing("user balance"@)),
    decreases calls.len(),
{
    if calls.len() > 0 {
        let earlier = calls.drop_last();
        assert forall|i: int| 0 <= i < earlier.len() implies !deposit_by(
            #[trigger] earlier[i],
            address,
        ) by {
            assert(earlier[i] == calls[i]);
        }
        law_no_balance_without_deposit(s, earlier, address);
        assert(!deposit_by(calls[calls.len() - 1], address));
        law_command_frame(run(s, earlier), calls.last());
    }
}

/// Initialization makes every singleton record: the caller administers, the
/// idle round stands, deposits are taken in the settlement currency, the fee
/// pool is empty and betting is closed. It leaves balances and bets alone;
/// on a store in which nothing was saved, no address has a balance
/// afterwards.
pub proof fn law_instantiated(s: LedgerView, sender: Seq<char>)
    ensures
        initialized(instantiated(s, sender)),
        instantiated(s, sender).admin == Some(sender),
        instantiated(s, sender).current_round == Some(RoundView::idle()),
        instantiated(s, sender).deposit_denom == Some(native_denom()),
        instantiated(s, sender).fee_pool_balance == Some(0u128),
        instantiated(s, sender).betting_open == Some(false),
        instantiated(s, sender).balances == s.balances,
        instantiated(s, sender).bets == s.bets,
        instantiated(LedgerView::empty(), sender).balances == Map::<Seq<char>, u128>::empty(),
{
}

/// What no command changes and what commands only increase: whatever calls
/// are delivered, the administrator, the denomination and the betting flag
/// stay as they are, an initialized store stays initialized, no balance
/// record and no bet disappears, and, as long as no call withdraws the fees,
/// the fee pool does not shrink.
pub proof fn law_run_invariants(s: LedgerView, calls: Seq<Call>)
    ensures
        run(s, calls).admin == s.admin,
        run(s, calls).deposit_denom == s.deposit_denom,
        run(s, calls).betting_open == s.betting_open,
        initialized(s) ==> initialized(run(s, calls)),
        s.balances.dom().subset_of(run(s, calls).balances.dom()),
        s.bets.dom().subset_of(run(s, calls).bets.dom()),
        s.fee_pool_balance is Some == run(s, calls).fee_pool_balance is Some,
        (forall|i: int| 0 <= i < calls.len() ==> !((#[trigger] calls[i]).msg is WithdrawFees))
            && s.fee_pool_balance is Some ==> run(s, calls).fee_pool_balance->Some_0
            >= s.fee_pool_balance->Some_0,
    decreases calls.len(),
{
    if calls.len() > 0 {
        let earlier = calls.drop_last();
        law_run_invariants(s, earlier);
        if forall|i: int| 0 <= i < calls.len() ==> !((#[trigger] calls[i]).msg is WithdrawFees) {
            assert forall|i: int| 0 <= i < earlier.len() implies !((
            #[trigger] earlier[i]).msg is WithdrawFees) by {
                assert(earlier[i] == calls[i]);
            }
            assert(!(calls[calls.len() - 1].msg is WithdrawFees));
        }
    }
}

/// Collecting the fees is the administrator's alone. It sends the whole pool
/// to the administrator and leaves the pool empty, so that collecting again
/// right away sends nothing.
pub proof fn law_withdraw_fees(s: LedgerView, sender: Seq<char>)
    requires
        initialized(s),
    ensures
        sender != s.admin->Some_0 ==> {
            &&& withdraw_fees_step(s, sender) == Err::<Outcome, ContractErrorView>(
                ContractErrorView::Unauthorized { sender },
            )
            &&& store_after(s, withdraw_fees_step(s, sender)) == s
        },
        sender == s.admin->Some_0 ==> {
            &&& withdraw_fees_step(s, sender) matches Ok(outcome)
            &&& outcome.store == (LedgerView { fee_pool_balance: Some(0), ..s })
            &&& outcome.response == fee_collection_response(
                sender,
                s.fee_pool_balance->Some_0,
            )
            &&& withdraw_fees_step(outcome.store, sender) matches Ok(again)
            &&& again.response == fee_collection_response(sender, 0)
        },
{
}

} // verus!
