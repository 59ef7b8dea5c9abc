//! Reading a payment off the funds attached to a call.

use crate::err::PaymentError;
use crate::err::PaymentErrorView;
use crate::host::Coin;
use crate::host::CoinView;
use crate::host::MessageInfo;
use vstd::prelude::*;

verus! {

/// The single coin among `funds`: there must be exactly one, and it must hold
/// something. No funds, or one empty coin, is `NoFunds`; more than one coin
/// is `MultipleDenoms`.
pub open spec fn single_coin(funds: Seq<CoinView>) -> Result<CoinView, PaymentErrorView> {
    if funds.len() == 0 {
        Err(PaymentErrorView::NoFunds)
    } else if funds.len() > 1 {
        Err(PaymentErrorView::MultipleDenoms)
    } else if funds[0].amount == 0 {
        Err(PaymentErrorView::NoFunds)
    } else {
        Ok(funds[0])
    }
}

/// The amount paid in `denom` by `funds`: that of the single coin, which must
/// be of this denomination, else `MissingDenom` names the denomination asked
/// for.
pub open spec fn paid_amount(funds: Seq<CoinView>, denom: Seq<char>) -> Result<
    u128,
    PaymentErrorView,
> {
    match single_coin(funds) {
        Err(e) => Err(e),
        Ok(coin) => if coin.denom == denom {
            Ok(coin.amount)
        } else {
            Err(PaymentErrorView::MissingDenom(denom))
        },
    }
}

/// The view of what `one_coin` returns.
pub open spec fn coin_result_view(res: Result<Coin, PaymentError>) -> Result<
    CoinView,
    PaymentErrorView,
> {
    match res {
        Ok(coin) => Ok(coin@),
        Err(e) => Err(e@),
    }
}

/// The view of what `must_pay` returns.
pub open spec fn amount_result_view(res: Result<u128, PaymentError>) -> Result<
    u128,
    PaymentErrorView,
> {
    match res {
        Ok(amount) => Ok(amount),
        Err(e) => Err(e@),
    }
}

/// Returns the amount that the caller paid in `denom`: exactly one coin must
/// be attached, non-empty and of that denomination.
pub fn must_pay(info: &MessageInfo, denom: &str) -> (res: Result<u128, PaymentError>)
    ensures
        amount_result_view(res) == paid_amount(info@.funds, denom@),
{
    match one_coin(info) {
        Err(e) => Err(e),
        Ok(coin) => {
            let wanted = denom.to_owned();
            if coin.denom == wanted {
                Ok(coin.amount)
            } else {
                Err(PaymentError::MissingDenom(wanted))
            }
        },
    }
}

/// Returns the one coin attached to the call, whatever its denomination.
pub fn one_coin(info: &MessageInfo) -> (res: Result<Coin, PaymentError>)
    ensures
        coin_result_view(res) == single_coin(info@.funds),
{
    let n = info.funds.len();
    if n == 0 {
        Err(PaymentError::NoFunds {  })
    } else if n == 1 {
        let coin = &info.funds[0];
        if coin.amount == 0 {
            Err(PaymentError::NoFunds {  })
        } else {
            Ok(coin.clone())
        }
    } else {
        Err(PaymentError::MultipleDenoms {  })
    }
}

} // verus!
