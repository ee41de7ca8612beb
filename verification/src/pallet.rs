//! The minting engine: validates a mint request, reserves the required
//! collateral, credits the synthetic token, and emits two ordered
//! notifications.

use crate::ledger::AccountBalances;
use crate::ledger::Ledger;
use vstd::prelude::*;

verus! {

/// The two ways a mint request can fail.
#[derive(Clone, Copy, Debug, PartialEq, Eq, Structural)]
pub enum Error {
    /// The caller's free collateral is below the computed requirement.
    InsufficientETHCollateral,
    /// Pricing the request overflows the balance width, or the token credit
    /// the request asks for would.
    InvalidMintingAmount,
}

/// The notifications the engine emits on a successful mint, in the order
/// collateral-committed first, token-minted second.
#[derive(Clone, Copy, Debug, PartialEq, Eq, Structural)]
pub enum Event {
    USDTokenMinted { account: u64, amount: u32 },
    ETHUsedForMinting { account: u64, eth_amount: u32 },
}

/// Read-only configuration of the engine: how many units of collateral back
/// one unit of the synthetic token.
#[derive(Clone, Copy, Debug, PartialEq, Eq, Structural)]
pub struct Config {
    pub eth_per_usd: u32,
}

/// The minting engine. It holds no balances of its own: every balance lives
/// in the [`Ledger`] a call hands it.
pub struct Pallet {
    pub config: Config,
}

/// The collateral a request for `usd_amount` tokens must lock, as an
/// unbounded integer so that overflow of the balance width stays visible.
pub open spec fn spec_required_collateral(usd_amount: u32, rate: u32) -> int {
    (usd_amount as int) * (rate as int)
}

/// How a mint request ends, decided by the caller's balances before the call:
/// overflow of the pricing multiplication is rejected first, then a short
/// free balance; everything else succeeds.
pub open spec fn spec_mint_outcome(rate: u32, pre: AccountBalances, usd_amount: u32) -> Result<
    (),
    Error,
> {
    if spec_required_collateral(usd_amount, rate) > u32::MAX as int {
        Err(Error::InvalidMintingAmount)
    } else if (pre.free_collateral as int) < spec_required_collateral(usd_amount, rate) {
        Err(Error::InsufficientETHCollateral)
    } else {
        Ok(())
    }
}

/// The caller's balances after a successful mint: the required collateral has
/// moved from free to reserved, and the token balance has grown by the
/// requested amount.
pub open spec fn spec_minted_balances(
    rate: u32,
    pre: AccountBalances,
    usd_amount: u32,
) -> AccountBalances {
    AccountBalances {
        free_collateral: (pre.free_collateral - spec_required_collateral(usd_amount, rate)) as u32,
        reserved_collateral: (pre.reserved_collateral + spec_required_collateral(
            usd_amount,
            rate,
        )) as u32,
        token_balance: (pre.token_balance + usd_amount) as u32,
    }
}

/// The notification pair a successful mint appends, in its required order.
pub open spec fn spec_success_events(sender: u64, usd_amount: u32, rate: u32) -> Seq<Event> {
    seq![
        (Event::ETHUsedForMinting {
            account: sender,
            eth_amount: spec_required_collateral(usd_amount, rate) as u32,
        }),
        (Event::USDTokenMinted { account: sender, amount: usd_amount }),
    ]
}

impl Pallet {
    /// An engine priced at the given conversion rate.
    pub fn new(config: Config) -> (p: Pallet)
        ensures
            p.config == config,
    {
        Pallet { config }
    }

    /// Mint `usd_amount` synthetic tokens for `sender` against reserved
    /// collateral, atomically: on success the required collateral has moved
    /// from free to reserved, the token balance has grown by `usd_amount`, no
    /// other account has changed, and the two notifications stand appended in
    /// order; on failure the ledger and the notification log are byte-for-byte
    /// unchanged. The ledger's owner must guarantee that a credit the outcome
    /// calls for fits the balance width.
    pub fn mint_usd_tokens(
        &self,
        ledger: &mut Ledger,
        events: &mut Vec<Event>,
        sender: u64,
        usd_amount: u32,
    ) -> (r: Result<(), Error>)
        requires
            old(ledger).wf(),
            spec_mint_outcome(
                self.config.eth_per_usd,
                old(ledger).balances_of(sender),
                usd_amount,
            ) is Ok ==> old(ledger).balances_of(sender).token_balance + usd_amount <= u32::MAX,
        ensures
            final(ledger).wf(),
            r == spec_mint_outcome(
                self.config.eth_per_usd,
                old(ledger).balances_of(sender),
                usd_amount,
            ),
            r is Err ==> final(ledger)@ == old(ledger)@ && final(events)@ == old(events)@,
            r is Ok ==> final(ledger).balances_of(sender) == spec_minted_balances(
                self.config.eth_per_usd,
                old(ledger).balances_of(sender),
                usd_amount,
            ),
            r is Ok ==> forall|other: u64|
                other != sender ==> #[trigger] final(ledger).balances_of(other) == old(
                    ledger,
                ).balances_of(other),
            r is Ok ==> final(events)@ == old(events)@ + spec_success_events(
                sender,
                usd_amount,
                self.config.eth_per_usd,
            ),
    {
        let eth_per_usd = self.config.eth_per_usd;
        let required_eth = match usd_amount.checked_mul(eth_per_usd) {
            Some(v) => v,
            None => {
                return Err(Error::InvalidMintingAmount);
            },
        };
        if ledger.free_balance(sender) < required_eth {
            return Err(Error::InsufficientETHCollateral);
        }
        match ledger.reserve(sender, required_eth) {
            Ok(()) => {},
            Err(e) => {
                return Err(e);
            },
        }
        ledger.deposit_creating(sender, usd_amount);
        events.push(Event::ETHUsedForMinting { account: sender, eth_amount: required_eth });
        events.push(Event::USDTokenMinted { account: sender, amount: usd_amount });
        proof {
            assert(events@ =~= old(events)@ + spec_success_events(sender, usd_amount, eth_per_usd));
        }
        Ok(())
    }
}

} // verus!
