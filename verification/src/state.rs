//! The ledger store: the records that commands read and write, each with a
//! load that fails while the record is missing and a save that writes
//! unconditionally.

use crate::err::StdError;
use crate::err::StdErrorView;
use crate::table::AmountTable;
use crate::table::TableKey;
use vstd::prelude::*;

verus! {

/// The betting event that bets are currently placed on.
#[derive(Debug, PartialEq, Eq)]
pub struct Round {
    pub id: String,
    pub game: String,
    pub odds: u128,
}

pub struct RoundView {
    pub id: Seq<char>,
    pub game: Seq<char>,
    pub odds: u128,
}

impl View for Round {
    type V = RoundView;

    open spec fn view(&self) -> RoundView {
        RoundView { id: self.id@, game: self.game@, odds: self.odds }
    }
}

impl RoundView {
    /// The round that stands while no betting event is open.
    pub open spec fn idle() -> RoundView {
        RoundView { id: "0"@, game: "N/a"@, odds: 500000 }
    }
}

impl Clone for Round {
    fn clone(&self) -> (r: Self)
        ensures
            r == *self,
    {
        Round { id: self.id.clone(), game: self.game.clone(), odds: self.odds }
    }
}

impl Default for Round {
    fn default() -> (r: Self)
        ensures
            r@ == RoundView::idle(),
    {
        Round { id: "0".to_owned(), game: "N/a".to_owned(), odds: 500000 }
    }
}

/// A summary of who runs the ledger, where payouts go and which round is on.
#[derive(Debug, PartialEq, Eq)]
pub struct State {
    pub admin: String,
    pub payout_address: String,
    pub current_round: Round,
}

/// The key of a bet: who placed it and on which round.
pub struct BetKey {
    pub owner: String,
    pub round_id: String,
}

impl TableKey for BetKey {
    type Id = (Seq<char>, Seq<char>);

    open spec fn id(&self) -> (Seq<char>, Seq<char>) {
        (self.owner@, self.round_id@)
    }

    fn same_as(&self, other: &Self) -> (same: bool) {
        self.owner == other.owner && self.round_id == other.round_id
    }
}

/// Everything the ledger holds. A singleton record is `None` until it is
/// first saved; a balance or a bet exists from its first save on.
pub struct LedgerView {
    pub admin: Option<Seq<char>>,
    pub current_round: Option<RoundView>,
    pub deposit_denom: Option<Seq<char>>,
    pub fee_pool_balance: Option<u128>,
    pub betting_open: Option<bool>,
    /// The custodial balance of each address that has one.
    pub balances: Map<Seq<char>, u128>,
    /// The stake of each bet, by address and round id.
    pub bets: Map<(Seq<char>, Seq<char>), u128>,
}

impl LedgerView {
    /// The store in which nothing was saved yet.
    pub open spec fn empty() -> LedgerView {
        LedgerView {
            admin: None,
            current_round: None,
            deposit_denom: None,
            fee_pool_balance: None,
            betting_open: None,
            balances: Map::empty(),
            bets: Map::empty(),
        }
    }
}

/// The error that a load gives for a record that was never saved.
pub open spec fn missing(kind: Seq<char>) -> StdErrorView {
    StdErrorView::NotFound { kind }
}

/// The ledger store. It owns every record of the ledger; nothing in it is
/// reached but through the loads and saves below.
pub struct Ledger {
    admin: Option<String>,
    current_round: Option<Round>,
    deposit_denom: Option<String>,
    fee_pool_balance: Option<u128>,
    betting_open: Option<bool>,
    balances: AmountTable<String>,
    bets: AmountTable<BetKey>,
}

impl View for Ledger {
    type V = LedgerView;

    closed spec fn view(&self) -> LedgerView {
        LedgerView {
            admin: match self.admin {
                Some(admin) => Some(admin@),
                None => None,
            },
            current_round: match self.current_round {
                Some(round) => Some(round@),
                None => None,
            },
            deposit_denom: match self.deposit_denom {
                Some(denom) => Some(denom@),
                None => None,
            },
            fee_pool_balance: self.fee_pool_balance,
            betting_open: self.betting_open,
            balances: self.balances@,
            bets: self.bets@,
        }
    }
}

impl Ledger {
    /// A store in which nothing was saved yet.
    pub fn new() -> (store: Self)
        ensures
            store@ == LedgerView::empty(),
    {
        Ledger {
            admin: None,
            current_round: None,
            deposit_denom: None,
            fee_pool_balance: None,
            betting_open: None,
            balances: AmountTable::new(),
            bets: AmountTable::new(),
        }
    }

    /// The administrator's address; fails while none was saved.
    pub fn load_admin(&self) -> (res: Result<String, StdError>)
        ensures
            match self@.admin {
                Some(admin) => res matches Ok(a) && a@ == admin,
                None => res matches Err(e) && e@ == missing("admin"@),
            },
    {
        match &self.admin {
            Some(admin) => Ok(admin.clone()),
            None => Err(StdError::not_found("admin")),
        }
    }

    /// Sets the administrator's address and touches nothing else.
    pub fn save_admin(&mut self, admin: String)
        ensures
            final(self)@ == (LedgerView { admin: Some(admin@), ..old(self)@ }),
    {
        self.admin = Some(admin);
    }

    /// The current round; fails while none was saved.
    pub fn load_current_round(&self) -> (res: Result<Round, StdError>)
        ensures
            match self@.current_round {
                Some(round) => res matches Ok(r) && r@ == round,
                None => res matches Err(e) && e@ == missing("current round"@),
            },
    {
        match &self.current_round {
            Some(round) => Ok(round.clone()),
            None => Err(StdError::not_found("current round")),
        }
    }

    /// Sets the current round and touches nothing else.
    pub fn save_current_round(&mut self, round: Round)
        ensures
            final(self)@ == (LedgerView { current_round: Some(round@), ..old(self)@ }),
    {
        self.current_round = Some(round);
    }

    /// The denomination in which deposits are taken; fails while none was
    /// saved.
    pub fn load_deposit_denom(&self) -> (res: Result<String, StdError>)
        ensures
            match self@.deposit_denom {
                Some(denom) => res matches Ok(d) && d@ == denom,
                None => res matches Err(e) && e@ == missing("deposit denom"@),
            },
    {
        match &self.deposit_denom {
            Some(denom) => Ok(denom.clone()),
            None => Err(StdError::not_found("deposit denom")),
        }
    }

    /// Sets the denomination of deposits and touches nothing else.
    pub fn save_deposit_denom(&mut self, denom: String)
        ensures
            final(self)@ == (LedgerView { deposit_denom: Some(denom@), ..old(self)@ }),
    {
        self.deposit_denom = Some(denom);
    }

    /// The fees collected and not yet withdrawn; fails while no fee pool was
    /// saved.
    pub fn load_fee_pool_balance(&self) -> (res: Result<u128, StdError>)
        ensures
            match self@.fee_pool_balance {
                Some(amount) => res == Ok::<u128, StdError>(amount),
                None => res matches Err(e) && e@ == missing("fee pool balance"@),
            },
    {
        match self.fee_pool_balance {
            Some(amount) => Ok(amount),
            None => Err(StdError::not_found("fee pool balance")),
        }
    }

    /// Sets the fee pool and touches nothing else.
    pub fn save_fee_pool_balance(&mut self, amount: u128)
        ensures
            final(self)@ == (LedgerView { fee_pool_balance: Some(amount), ..old(self)@ }),
    {
        self.fee_pool_balance = Some(amount);
    }

    /// Whether betting is open; fails while the flag was never saved.
    pub fn load_betting_open(&self) -> (res: Result<bool, StdError>)
        ensures
            match self@.betting_open {
                Some(open) => res == Ok::<bool, StdError>(open),
                None => res matches Err(e) && e@ == missing("betting open"@),
            },
    {
        match self.betting_open {
            Some(open) => Ok(open),
            None => Err(StdError::not_found("betting open")),
        }
    }

    /// Sets the betting flag and touches nothing else.
    pub fn save_betting_open(&mut self, open: bool)
        ensures
            final(self)@ == (LedgerView { betting_open: Some(open), ..old(self)@ }),
    {
        self.betting_open = Some(open);
    }

    /// The balance of `owner`; fails while `owner` has no balance record. A
    /// balance of zero is a record like any other.
    pub fn load_balance(&self, owner: &String) -> (res: Result<u128, StdError>)
        ensures
            res matches Ok(amount) ==> self@.balances.contains_key(owner@) && amount
                == self@.balances[owner@],
            res matches Err(e) ==> !self@.balances.contains_key(owner@) && e@ == missing(
                "user balance"@,
            ),
    {
        match self.balances.get(owner) {
            Some(amount) => Ok(amount),
            None => Err(StdError::not_found("user balance")),
        }
    }

    /// Sets the balance of `owner`, whether or not it had one.
    pub fn save_balance(&mut self, owner: &String, amount: u128)
        ensures
            final(self)@ == (LedgerView {
                balances: old(self)@.balances.insert(owner@, amount),
                ..old(self)@
            }),
    {
        self.balances.insert(owner.clone(), amount);
    }

    /// The stake that `owner` has on the round `round_id`, if any.
    pub fn bet(&self, owner: &String, round_id: &String) -> (stake: Option<u128>)
        ensures
            stake == (if self@.bets.contains_key((owner@, round_id@)) {
                Some(self@.bets[(owner@, round_id@)])
            } else {
                None
            }),
    {
        let key = BetKey { owner: owner.clone(), round_id: round_id.clone() };
        self.bets.get(&key)
    }

    /// Records the stake of `owner` on the round `round_id`, in place of any
    /// earlier one.
    pub fn save_bet(&mut self, owner: &String, round_id: &String, amount: u128)
        ensures
            final(self)@ == (LedgerView {
                bets: old(self)@.bets.insert((owner@, round_id@), amount),
                ..old(self)@
            }),
    {
        let key = BetKey { owner: owner.clone(), round_id: round_id.clone() };
        self.bets.insert(key, amount);
    }
}

} // verus!
