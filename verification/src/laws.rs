//! The engine's laws, stated over the spec functions its contracts use.

use crate::ledger::AccountBalances;
use crate::ledger::Ledger;
use crate::pallet::spec_mint_outcome;
use crate::pallet::spec_minted_balances;
use crate::pallet::spec_required_collateral;
use crate::pallet::spec_success_events;
use crate::pallet::Error;
use vstd::prelude::*;

verus! {

/// Conservation: a successful mint raises the caller's reserved collateral by
/// exactly the required collateral, lowers the free part by the same amount,
/// and raises the token balance by exactly the requested amount; at the 1:1
/// rate the reserved-collateral delta and the token delta are the same number.
pub proof fn lemma_mint_conservation(rate: u32, pre: AccountBalances, usd_amount: u32)
    requires
        pre.wf(),
        spec_mint_outcome(rate, pre, usd_amount) is Ok,
        pre.token_balance + usd_amount <= u32::MAX,
    ensures
        spec_minted_balances(rate, pre, usd_amount).reserved_collateral
            - pre.reserved_collateral == spec_required_collateral(usd_amount, rate),
        pre.free_collateral - spec_minted_balances(rate, pre, usd_amount).free_collateral
            == spec_required_collateral(usd_amount, rate),
        spec_minted_balances(rate, pre, usd_amount).token_balance - pre.token_balance
            == usd_amount,
        rate == 1 ==> spec_minted_balances(rate, pre, usd_amount).reserved_collateral
            - pre.reserved_collateral == usd_amount,
{
    if rate == 1 {
        assert(spec_required_collateral(usd_amount, rate) == usd_amount as int) by (nonlinear_arith)
            requires rate == 1;
    }
}

/// Atomicity on overflow: a request whose collateral requirement does not fit
/// the balance width ends in `InvalidMintingAmount`, whatever the caller's
/// balances; the engine's contract then leaves ledger and log unchanged.
pub proof fn lemma_overflow_rejected(rate: u32, pre: AccountBalances, usd_amount: u32)
    requires
        spec_required_collateral(usd_amount, rate) > u32::MAX as int,
    ensures
        spec_mint_outcome(rate, pre, usd_amount) == Err::<(), Error>(Error::InvalidMintingAmount),
{
}

/// Atomicity on insufficiency: a priceable request that asks for more than
/// the caller's free collateral ends in `InsufficientETHCollateral`; the
/// engine's contract then leaves ledger and log unchanged.
pub proof fn lemma_insufficiency_rejected(rate: u32, pre: AccountBalances, usd_amount: u32)
    requires
        spec_required_collateral(usd_amount, rate) <= u32::MAX as int,
        (pre.free_collateral as int) < spec_required_collateral(usd_amount, rate),
    ensures
        spec_mint_outcome(rate, pre, usd_amount) == Err::<(), Error>(
            Error::InsufficientETHCollateral,
        ),
{
}

/// A mint succeeds exactly when the requirement can be priced and the caller's
/// free collateral covers it.
pub proof fn lemma_mint_success_condition(rate: u32, pre: AccountBalances, usd_amount: u32)
    ensures
        spec_mint_outcome(rate, pre, usd_amount) is Ok <==> (spec_required_collateral(
            usd_amount,
            rate,
        ) <= u32::MAX as int && spec_required_collateral(usd_amount, rate)
            <= pre.free_collateral as int),
{
}

/// No negative balances: every balance the ledger can report, free collateral,
/// reserved collateral, token balance, for any account, is at least zero.
pub proof fn lemma_no_negative_balances(l: Ledger)
    ensures
        forall|who: u64|
            {
                let b = #[trigger] l.balances_of(who);
                0 <= b.free_collateral && 0 <= b.reserved_collateral && 0 <= b.token_balance
            },
{
}

/// Notification ordering: a successful mint appends exactly two
/// notifications, the collateral-committed one strictly before the
/// token-minted one, both naming the caller and the exact amounts.
pub proof fn lemma_notification_order(sender: u64, usd_amount: u32, rate: u32)
    ensures
        spec_success_events(sender, usd_amount, rate).len() == 2,
        spec_success_events(sender, usd_amount, rate)[0] is ETHUsedForMinting,
        spec_success_events(sender, usd_amount, rate)[1] is USDTokenMinted,
        spec_success_events(sender, usd_amount, rate)[0]->ETHUsedForMinting_account == sender,
        spec_success_events(sender, usd_amount, rate)[1]->USDTokenMinted_amount == usd_amount,
{
}

} // verus!
