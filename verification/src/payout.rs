//! Payout engine.
//!
//! The profit basis of a payout is the balance gain since the last payout
//! (`balance - balance_at_last_payout`, or the initial balance before the
//! first payout), so profit already paid out is never paid again. The
//! trader share follows a scaling ladder by payout count (the last tier
//! repeats); a request below the minimum, without profit, or before the
//! payout cycle allows is rejected.
use crate::account::{Account, AccountStatus};
use crate::error::Error;
use crate::fixed::{fits, fx_mul, mul_raw, Fixed, SCALE};
use crate::ids::{AccountId, ViolationId};
use crate::types::{Money, Timestamp, MS_PER_DAY};
use vstd::prelude::*;

verus! {

/// How often a payout may be requested.
#[derive(Debug, Clone, Copy, PartialEq, Eq, Structural)]
pub enum PayoutCycle {
    /// Any time.
    OnDemand,
    /// At most every 14 days.
    BiWeekly,
    /// At most every 30 days.
    Monthly,
}

/// Minimum gap (milliseconds) of a cycle, `None` for on-demand: 14 days
/// bi-weekly, 30 days monthly.
pub open spec fn cycle_gap(c: PayoutCycle) -> Option<i64> {
    match c {
        PayoutCycle::OnDemand => None,
        PayoutCycle::BiWeekly => Some(1_209_600_000i64),
        PayoutCycle::Monthly => Some(2_592_000_000i64),
    }
}

impl PayoutCycle {
    /// Minimum gap between payouts in milliseconds, `None` for on-demand.
    pub fn min_gap(self) -> (r: Option<i64>)
        ensures
            r == cycle_gap(self),
    {
        match self {
            PayoutCycle::OnDemand => None,
            PayoutCycle::BiWeekly => Some(14 * MS_PER_DAY),
            PayoutCycle::Monthly => Some(30 * MS_PER_DAY),
        }
    }
}

/// One rung of the profit-split ladder.
#[derive(Debug, Clone, Copy, PartialEq, Eq, Structural)]
pub struct SplitTier {
    /// Share of the profit the trader receives (`0.80` = 80%).
    pub trader_share: Fixed,
}

/// A payout policy.
#[derive(Debug)]
pub struct PayoutConfig {
    /// Requests below this amount are rejected.
    pub minimum_payout: Money,
    /// Payout frequency.
    pub cycle: PayoutCycle,
    /// Scaling ladder by payout count.
    pub tiers: Vec<SplitTier>,
}

/// Two payout policies agree (the ladder by its rungs).
pub open spec fn same_payout_config(a: PayoutConfig, b: PayoutConfig) -> bool {
    a.minimum_payout == b.minimum_payout && a.cycle == b.cycle && a.tiers@ == b.tiers@
}

impl Clone for PayoutConfig {
    fn clone(&self) -> (r: PayoutConfig)
        ensures
            same_payout_config(r, *self),
    {
        let mut tiers: Vec<SplitTier> = Vec::new();
        let mut i: usize = 0;
        while i < self.tiers.len()
            invariant
                i <= self.tiers@.len(),
                tiers@ == self.tiers@.take(i as int),
            decreases self.tiers@.len() - i,
        {
            tiers.push(self.tiers[i]);
            assert(self.tiers@.take(i + 1) == self.tiers@.take(i as int).push(self.tiers@[i as int]));
            i = i + 1;
        }
        assert(self.tiers@.take(self.tiers@.len() as int) == self.tiers@);
        PayoutConfig { minimum_payout: self.minimum_payout, cycle: self.cycle, tiers }
    }
}

/// Trader share of the `n`-th payout (0-based): tier `n`, the last tier
/// once the ladder is exhausted, zero without tiers.
pub open spec fn share_for(tiers: Seq<SplitTier>, n: int) -> Fixed {
    if tiers.len() == 0 {
        Fixed(0)
    } else if n < tiers.len() {
        tiers[n].trader_share
    } else {
        tiers[tiers.len() - 1].trader_share
    }
}

impl PayoutConfig {
    /// $100 minimum, on-demand, 80% / 90% / 100% ladder.
    pub fn default_config() -> (r: PayoutConfig)
        ensures
            r.minimum_payout.0 == 100 * SCALE,
            r.cycle == PayoutCycle::OnDemand,
            r.tiers@ == seq![
                SplitTier { trader_share: Fixed(80_000_000) },
                SplitTier { trader_share: Fixed(90_000_000) },
                SplitTier { trader_share: Fixed(100_000_000) },
            ],
    {
        let mut tiers: Vec<SplitTier> = Vec::new();
        tiers.push(SplitTier { trader_share: Fixed(80_000_000) });
        tiers.push(SplitTier { trader_share: Fixed(90_000_000) });
        tiers.push(SplitTier { trader_share: Fixed(100_000_000) });
        PayoutConfig { minimum_payout: Money(100 * SCALE), cycle: PayoutCycle::OnDemand, tiers }
    }

    /// Trader share of the `payout_count`-th payout (0-based).
    pub fn trader_share_for(&self, payout_count: u32) -> (r: Fixed)
        ensures
            r == share_for(self.tiers@, payout_count as int),
    {
        if self.tiers.len() == 0 {
            return Fixed(0);
        }
        let last = self.tiers.len() - 1;
        let idx = if (payout_count as usize) < last {
            payout_count as usize
        } else {
            last
        };
        self.tiers[idx].trader_share
    }
}


impl Default for PayoutConfig {
    /// The default policy: [`PayoutConfig::default_config`].
    fn default() -> (r: PayoutConfig)
        ensures
            r.minimum_payout.0 == 100 * SCALE,
            r.cycle == PayoutCycle::OnDemand,
            r.tiers@ == seq![
                SplitTier { trader_share: Fixed(80_000_000) },
                SplitTier { trader_share: Fixed(90_000_000) },
                SplitTier { trader_share: Fixed(100_000_000) },
            ],
    {
        PayoutConfig::default_config()
    }
}

/// The payout domain record.
#[derive(Debug, Clone, Copy, PartialEq, Eq, Structural)]
pub struct Payout {
    pub id: ViolationId,
    pub account_id: AccountId,
    /// Balance gain since the last payout.
    pub profit_basis: Money,
    pub trader_share: Fixed,
    pub fee_refund: Money,
    /// `profit_basis * trader_share + fee_refund`.
    pub amount: Money,
    pub requested_at: Timestamp,
    pub approved_at: Option<Timestamp>,
}

/// Why a payout request is refused.
#[derive(Debug, Clone, Copy, PartialEq, Eq, Structural)]
pub enum PayoutError {
    /// The amount is below the configured minimum.
    BelowMinimum { minimum: Money },
    /// The payout cycle forbids a payout this soon.
    CycleNotReached { next_allowed_at: Timestamp },
    /// No profit since the last payout.
    NoProfit,
}

/// What a payout request would be worth and whether it is permitted.
#[derive(Debug, Clone, Copy, PartialEq, Eq, Structural)]
pub struct PayoutQuote {
    pub profit_basis: Money,
    pub trader_share: Fixed,
    pub fee_refund: Money,
    pub amount: Money,
    pub rejected: Option<PayoutError>,
}

/// Profit basis (raw): balance gain over the watermark (the balance at the
/// last payout, or the initial balance before the first), never negative.
pub open spec fn basis_of(a: Account, balance_at_last_payout: Option<Money>) -> int {
    let reference = match balance_at_last_payout {
        Some(m) => m.0 as int,
        None => a.initial_balance.0 as int,
    };
    if a.balance.0 - reference > 0 {
        a.balance.0 - reference
    } else {
        0
    }
}

/// Fee refund of a request: the plan's refund fee on the first payout
/// while the refund is unused, zero otherwise.
pub open spec fn refund_of(a: Account, refund_used: bool) -> Money {
    if a.payout_count == 0 && !refund_used {
        a.plan.refund_fee_amount
    } else {
        Money(0)
    }
}

/// Amount (raw) of a request: basis times the tier share plus the refund.
pub open spec fn amount_of(
    a: Account,
    config: PayoutConfig,
    balance_at_last_payout: Option<Money>,
    refund_used: bool,
) -> int {
    fx_mul(basis_of(a, balance_at_last_payout), share_for(config.tiers@, a.payout_count as int).0 as int)
        + refund_of(a, refund_used).0
}

/// The amounts of a quote fit the raw range.
pub open spec fn quote_fits(
    a: Account,
    config: PayoutConfig,
    last_payout_at: Option<Timestamp>,
    balance_at_last_payout: Option<Money>,
    refund_used: bool,
) -> bool {
    &&& fits(basis_of(a, balance_at_last_payout))
    &&& fits(
        fx_mul(basis_of(a, balance_at_last_payout), share_for(config.tiers@, a.payout_count as int).0 as int),
    )
    &&& fits(amount_of(a, config, balance_at_last_payout, refund_used))
    &&& (cycle_gap(config.cycle) matches Some(g) ==> last_payout_at matches Some(l) ==> fits(l + g))
}

/// The refusal of a request: no profit first, then below minimum, then a
/// cycle not yet reached.
pub open spec fn rejection_of(
    a: Account,
    config: PayoutConfig,
    last_payout_at: Option<Timestamp>,
    balance_at_last_payout: Option<Money>,
    refund_used: bool,
    now: Timestamp,
) -> Option<PayoutError> {
    if basis_of(a, balance_at_last_payout) <= 0 {
        Some(PayoutError::NoProfit)
    } else if amount_of(a, config, balance_at_last_payout, refund_used) < config.minimum_payout.0 {
        Some(PayoutError::BelowMinimum { minimum: config.minimum_payout })
    } else {
        match (cycle_gap(config.cycle), last_payout_at) {
            (Some(g), Some(l)) => if now < l + g {
                Some(PayoutError::CycleNotReached { next_allowed_at: (l + g) as i64 })
            } else {
                None
            },
            _ => None,
        }
    }
}

/// Quotes a payout request of a funded account.
pub fn quote_payout(
    account: &Account,
    config: &PayoutConfig,
    last_payout_at: Option<Timestamp>,
    balance_at_last_payout: Option<Money>,
    refund_used: bool,
    now: Timestamp,
) -> (q: PayoutQuote)
    requires
        quote_fits(*account, *config, last_payout_at, balance_at_last_payout, refund_used),
    ensures
        q.profit_basis.0 == basis_of(*account, balance_at_last_payout),
        q.trader_share == share_for(config.tiers@, account.payout_count as int),
        q.fee_refund == refund_of(*account, refund_used),
        q.amount.0 == amount_of(*account, *config, balance_at_last_payout, refund_used),
        q.rejected == rejection_of(
            *account,
            *config,
            last_payout_at,
            balance_at_last_payout,
            refund_used,
            now,
        ),
{
    let reference = match balance_at_last_payout {
        Some(m) => m,
        None => account.initial_balance,
    };
    let d: i128 = account.balance.0 as i128 - reference.0 as i128;
    let profit_basis = if d > 0 {
        Money(d as i64)
    } else {
        Money(0)
    };
    let trader_share = config.trader_share_for(account.payout_count);
    let fee_refund = if account.payout_count == 0 && !refund_used {
        account.plan.refund_fee_amount
    } else {
        Money(0)
    };
    let share_amount = mul_raw(profit_basis.0, trader_share.0);
    let amount = Money(share_amount + fee_refund.0);
    let rejected = if profit_basis.0 <= 0 {
        Some(PayoutError::NoProfit)
    } else if amount.0 < config.minimum_payout.0 {
        Some(PayoutError::BelowMinimum { minimum: config.minimum_payout })
    } else {
        match (config.cycle.min_gap(), last_payout_at) {
            (Some(gap), Some(last)) => {
                let next_allowed = last + gap;
                if now < next_allowed {
                    Some(PayoutError::CycleNotReached { next_allowed_at: next_allowed })
                } else {
                    None
                }
            },
            _ => None,
        }
    };
    PayoutQuote { profit_basis, trader_share, fee_refund, amount, rejected }
}

/// The account after an approved payout: the count grows (saturating), the
/// watermark is the balance before the payout, the payout time is stamped,
/// the amount leaves the balance (the refund is added back), and a pending
/// payout resolves to funded.
pub open spec fn after_payout(a: Account, amount: Money, fee_refund: Money, at: Timestamp) -> Account {
    Account {
        payout_count: if a.payout_count < u32::MAX {
            (a.payout_count + 1) as u32
        } else {
            u32::MAX
        },
        balance_at_last_payout: a.balance,
        last_payout_at: Some(at),
        balance: Money((a.balance.0 - amount.0 + fee_refund.0) as i64),
        status: if a.status == AccountStatus::PayoutPending {
            AccountStatus::Funded
        } else {
            a.status
        },
        ..a
    }
}

/// Records an approved payout on a funded (or payout-pending) account;
/// any other status is an error and leaves the account unchanged.
pub fn record_payout(account: &mut Account, amount: Money, fee_refund: Money, at: Timestamp) -> (r:
    Result<(), Error>)
    requires
        fits(old(account).balance.0 - amount.0),
        fits(old(account).balance.0 - amount.0 + fee_refund.0),
    ensures
        (old(account).status == AccountStatus::Funded || old(account).status
            == AccountStatus::PayoutPending) ==> r is Ok && *final(account) == after_payout(
            *old(account),
            amount,
            fee_refund,
            at,
        ),
        !(old(account).status == AccountStatus::Funded || old(account).status
            == AccountStatus::PayoutPending) ==> r is Err && r->Err_0 is InvalidState
            && r->Err_0->InvalidState_0@ == "payouts are only available to funded accounts"@,
        !(old(account).status == AccountStatus::Funded || old(account).status
            == AccountStatus::PayoutPending) ==> *final(account) == *old(account),
{
    if account.status != AccountStatus::Funded && account.status != AccountStatus::PayoutPending {
        return Err(Error::invalid_state("payouts are only available to funded accounts"));
    }
    account.payout_count = account.payout_count.saturating_add(1);
    account.balance_at_last_payout = account.balance;
    account.last_payout_at = Some(at);
    account.balance = Money(account.balance.0 - amount.0 + fee_refund.0);
    if account.status == AccountStatus::PayoutPending {
        account.status = AccountStatus::Funded;
    }
    Ok(())
}

/// Profit paid out is never paid again: after a payout, the next quote's
/// basis is measured from the balance the account had when it was paid,
/// so it can only count profit made after it.
pub proof fn law_paid_profit_excluded(a: Account, amount: Money, fee_refund: Money, at: Timestamp)
    ensures
        basis_of(
            after_payout(a, amount, fee_refund, at),
            Some(after_payout(a, amount, fee_refund, at).balance_at_last_payout),
        ) == if after_payout(a, amount, fee_refund, at).balance.0 - a.balance.0 > 0 {
            after_payout(a, amount, fee_refund, at).balance.0 - a.balance.0
        } else {
            0
        },
{
}

/// A permitted quote has profit, reaches the minimum and respects the
/// payout cycle.
pub proof fn law_permitted_quote(
    a: Account,
    config: PayoutConfig,
    last_payout_at: Option<Timestamp>,
    balance_at_last_payout: Option<Money>,
    refund_used: bool,
    now: Timestamp,
)
    requires
        rejection_of(a, config, last_payout_at, balance_at_last_payout, refund_used, now) is None,
    ensures
        basis_of(a, balance_at_last_payout) > 0,
        amount_of(a, config, balance_at_last_payout, refund_used) >= config.minimum_payout.0,
        cycle_gap(config.cycle) matches Some(g) ==> last_payout_at matches Some(l) ==> now >= l + g,
{
}

/// The refund is paid at most once: after a payout the count is positive,
/// so no later quote carries a refund.
pub proof fn law_refund_once(a: Account, amount: Money, fee_refund: Money, at: Timestamp, used: bool)
    ensures
        refund_of(after_payout(a, amount, fee_refund, at), used).0 == 0,
{
}

/// A recorded payout takes out of the trading balance only the trader's
/// profit share: the refund part of a quoted amount is paid by the firm,
/// so recording the quote's amount and refund lowers the balance by the
/// share of the profit basis alone.
pub proof fn law_payout_debits_share_only(
    a: Account,
    config: PayoutConfig,
    balance_at_last_payout: Option<Money>,
    refund_used: bool,
    at: Timestamp,
)
    requires
        fits(amount_of(a, config, balance_at_last_payout, refund_used)),
        fits(a.balance.0 - amount_of(a, config, balance_at_last_payout, refund_used) + refund_of(
            a,
            refund_used,
        ).0),
    ensures
        after_payout(
            a,
            Money(amount_of(a, config, balance_at_last_payout, refund_used) as i64),
            refund_of(a, refund_used),
            at,
        ).balance.0 == a.balance.0 - fx_mul(
            basis_of(a, balance_at_last_payout),
            share_for(config.tiers@, a.payout_count as int).0 as int,
        ),
{
}

} // verus!
