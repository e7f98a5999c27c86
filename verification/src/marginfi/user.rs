//! The health of a borrower's account.
//!
//! Every position in use is valued in dollars through its bank's share
//! accounting and its bank's price. Deposits and borrows are summed, and the
//! maintenance margin is the sum of the deposits weighted by their banks'
//! maintenance asset weights less the sum of the borrows weighted by their
//! banks' maintenance liability weights. An account whose margin is negative
//! may be liquidated.
//!
//! Nothing is valued in part: the first missing bank, missing feed, oracle
//! error or overflow ends the computation, and the error says at which
//! position and on which side it arose.

use crate::fixed_point::I80F48;
use crate::layout::Pubkey;
use crate::marginfi::errors::{BalanceSide, HealthError, HealthErrorKind};
use crate::marginfi::types::bank::{spec_to_display_amount, Bank};
use crate::marginfi::types::price::{
    OraclePriceFeedAdapter, OraclePriceType, PriceAdapter, PriceBias,
};
use crate::marginfi::types::user_account::{Balance, MarginfiAccount};
use vstd::prelude::*;

verus! {

/// One position with the bank it is in and the bank's price feed.
#[derive(Clone, Copy, Debug)]
pub struct BankAccount {
    pub bank: Bank,
    pub price_feed: OraclePriceFeedAdapter,
    pub balance: Balance,
}

impl BankAccount {
    /// The dollar value of one side of the position.
    ///
    /// A side without shares is worth nothing, and nothing is asked of the
    /// bank or the feed. Else the live price, biased low by the bank's
    /// confidence limit, is taken; the shares are turned into a token
    /// amount, the amount is multiplied by the price, and the product is
    /// rescaled from native units into whole tokens.
    pub open spec fn spec_side_value(&self, side: BalanceSide) -> Result<I80F48, HealthErrorKind> {
        if self.balance.spec_is_empty(side) {
            Ok(I80F48::spec_zero())
        } else {
            match self.price_feed.spec_price_of_type(
                OraclePriceType::RealTime,
                Some(PriceBias::Low),
                self.bank.config.oracle_max_confidence,
            ) {
                Err(e) => Err(HealthErrorKind::Oracle(e)),
                Ok(price) => {
                    let amount = match side {
                        BalanceSide::Assets => self.bank.spec_asset_amount(
                            self.balance.spec_shares(side),
                        ),
                        BalanceSide::Liabilities => self.bank.spec_liability_amount(
                            self.balance.spec_shares(side),
                        ),
                    };
                    match amount {
                        Err(_) => Err(HealthErrorKind::Arithmetic),
                        Ok(tokens) => match tokens.spec_checked_mul(price) {
                            None => Err(HealthErrorKind::Arithmetic),
                            Some(value_with_decimals) => match spec_to_display_amount(
                                value_with_decimals,
                                self.bank.mint_decimals,
                            ) {
                                Err(_) => Err(HealthErrorKind::Arithmetic),
                                Ok(value) => Ok(value),
                            },
                        },
                    }
                },
            }
        }
    }

    /// The dollar value of one side of the position.
    pub fn side_value(&self, side: BalanceSide) -> (r: Result<I80F48, HealthErrorKind>)
        ensures
            r == self.spec_side_value(side),
    {
        if self.balance.is_empty(side) {
            return Ok(I80F48::zero());
        }
        let price = match self.price_feed.get_price_of_type(
            OraclePriceType::RealTime,
            Some(PriceBias::Low),
            self.bank.config.oracle_max_confidence,
        ) {
            Ok(p) => p,
            Err(e) => {
                return Err(HealthErrorKind::Oracle(e));
            },
        };
        let shares = self.balance.shares(side);
        let amount = match side {
            BalanceSide::Assets => self.bank.get_asset_amount(shares),
            BalanceSide::Liabilities => self.bank.get_liability_amount(shares),
        };
        let tokens = match amount {
            Ok(t) => t,
            Err(_) => {
                return Err(HealthErrorKind::Arithmetic);
            },
        };
        let value_with_decimals = match tokens.checked_mul(price) {
            Some(v) => v,
            None => {
                return Err(HealthErrorKind::Arithmetic);
            },
        };
        match self.bank.get_display_asset(value_with_decimals) {
            Ok(value) => Ok(value),
            Err(_) => Err(HealthErrorKind::Arithmetic),
        }
    }

    /// The dollar value of the deposit.
    pub fn asset_value(&self) -> (r: Result<I80F48, HealthErrorKind>)
        ensures
            r == self.spec_side_value(BalanceSide::Assets),
    {
        self.side_value(BalanceSide::Assets)
    }

    /// The dollar value of the borrow.
    pub fn liability_value(&self) -> (r: Result<I80F48, HealthErrorKind>)
        ensures
            r == self.spec_side_value(BalanceSide::Liabilities),
    {
        self.side_value(BalanceSide::Liabilities)
    }

    /// The position's deposit and borrow, each weighted by the bank's
    /// maintenance weight for its side.
    pub open spec fn spec_weighted(&self, side: BalanceSide) -> Result<I80F48, HealthErrorKind> {
        match self.spec_side_value(side) {
            Err(kind) => Err(kind),
            Ok(value) => {
                let weight = match side {
                    BalanceSide::Assets => self.bank.config.spec_asset_weight_maint(),
                    BalanceSide::Liabilities => self.bank.config.spec_liability_weight_maint(),
                };
                match value.spec_checked_mul(weight) {
                    None => Err(HealthErrorKind::Arithmetic),
                    Some(weighted) => Ok(weighted),
                }
            },
        }
    }

    /// One side's dollar value times the bank's maintenance weight for it.
    pub fn weighted_value(&self, side: BalanceSide) -> (r: Result<I80F48, HealthErrorKind>)
        ensures
            r == self.spec_weighted(side),
    {
        let value = match self.side_value(side) {
            Ok(v) => v,
            Err(kind) => {
                return Err(kind);
            },
        };
        let weight = match side {
            BalanceSide::Assets => self.bank.config.asset_weight_maint.to_fixed(),
            BalanceSide::Liabilities => self.bank.config.liability_weight_maint.to_fixed(),
        };
        match value.checked_mul(weight) {
            Some(weighted) => Ok(weighted),
            None => Err(HealthErrorKind::Arithmetic),
        }
    }
}

/// The sum of one side's values over the first `n` positions, or the first
/// error met on the way.
pub open spec fn spec_total_prefix(positions: Seq<BankAccount>, side: BalanceSide, n: nat) -> Result<
    I80F48,
    HealthError,
>
    decreases n,
{
    if n == 0 {
        Ok(I80F48::spec_zero())
    } else {
        match spec_total_prefix(positions, side, (n - 1) as nat) {
            Err(e) => Err(e),
            Ok(before) => match positions[n - 1].spec_side_value(side) {
                Err(kind) => Err(HealthError { kind, position: (n - 1) as usize, side }),
                Ok(value) => match before.spec_checked_add(value) {
                    None => Err(
                        HealthError {
                            kind: HealthErrorKind::Arithmetic,
                            position: (n - 1) as usize,
                            side,
                        },
                    ),
                    Some(sum) => Ok(sum),
                },
            },
        }
    }
}

/// The sum of one side's values over all positions.
pub open spec fn spec_total(positions: Seq<BankAccount>, side: BalanceSide) -> Result<
    I80F48,
    HealthError,
> {
    spec_total_prefix(positions, side, positions.len())
}

/// The weighted deposits and the weighted borrows of the first `n`
/// positions, or the first error met on the way. Each position adds its
/// deposit first and its borrow second.
pub open spec fn spec_weighted_prefix(positions: Seq<BankAccount>, n: nat) -> Result<
    (I80F48, I80F48),
    HealthError,
>
    decreases n,
{
    if n == 0 {
        Ok((I80F48::spec_zero(), I80F48::spec_zero()))
    } else {
        match spec_weighted_prefix(positions, (n - 1) as nat) {
            Err(e) => Err(e),
            Ok((assets, liabilities)) => {
                let position = (n - 1) as usize;
                match spec_add_weighted(positions[n - 1], BalanceSide::Assets, assets, position) {
                    Err(e) => Err(e),
                    Ok(more_assets) => match spec_add_weighted(
                        positions[n - 1],
                        BalanceSide::Liabilities,
                        liabilities,
                        position,
                    ) {
                        Err(e) => Err(e),
                        Ok(more_liabilities) => Ok((more_assets, more_liabilities)),
                    },
                }
            },
        }
    }
}

/// A running total with one position's weighted side added.
pub open spec fn spec_add_weighted(
    entry: BankAccount,
    side: BalanceSide,
    total: I80F48,
    position: usize,
) -> Result<I80F48, HealthError> {
    match entry.spec_weighted(side) {
        Err(kind) => Err(HealthError { kind, position, side }),
        Ok(weighted) => match total.spec_checked_add(weighted) {
            None => Err(HealthError { kind: HealthErrorKind::Arithmetic, position, side }),
            Some(sum) => Ok(sum),
        },
    }
}

/// The maintenance margin: weighted deposits less weighted borrows. An
/// overflow of the difference is reported behind the last position, on the
/// borrow side.
pub open spec fn spec_maintenance(positions: Seq<BankAccount>) -> Result<I80F48, HealthError> {
    match spec_weighted_prefix(positions, positions.len()) {
        Err(e) => Err(e),
        Ok((assets, liabilities)) => match assets.spec_checked_sub(liabilities) {
            None => Err(
                HealthError {
                    kind: HealthErrorKind::Arithmetic,
                    position: positions.len() as usize,
                    side: BalanceSide::Liabilities,
                },
            ),
            Some(margin) => Ok(margin),
        },
    }
}

fn add_weighted(entry: &BankAccount, side: BalanceSide, total: I80F48, position: usize) -> (r:
    Result<I80F48, HealthError>)
    ensures
        r == spec_add_weighted(*entry, side, total, position),
{
    let weighted = match entry.weighted_value(side) {
        Ok(w) => w,
        Err(kind) => {
            return Err(HealthError { kind, position, side });
        },
    };
    match total.checked_add(weighted) {
        Some(sum) => Ok(sum),
        None => Err(HealthError { kind: HealthErrorKind::Arithmetic, position, side }),
    }
}

/// A borrower's account with the bank and the price feed of each of its
/// positions.
#[derive(Clone, Debug)]
pub struct MarginfiUserAccount {
    pub account: MarginfiAccount,
    pub bank_accounts: Vec<BankAccount>,
}

impl MarginfiUserAccount {
    /// The positions of `account` in use, each with the bank and the feed at
    /// the same place of `banks` and `price_feeds`.
    pub open spec fn spec_assemble(
        account: MarginfiAccount,
        banks: Seq<Bank>,
        price_feeds: Seq<OraclePriceFeedAdapter>,
    ) -> Seq<BankAccount> {
        Seq::new(
            account.lending_account.spec_active_balances().len(),
            |i: int|
                BankAccount {
                    bank: banks[i],
                    price_feed: price_feeds[i],
                    balance: account.lending_account.spec_active_balances()[i],
                },
        )
    }

    /// Puts an account together with the banks and price feeds of its
    /// positions in use, given in the positions' order. `None` unless there
    /// is exactly one bank and one feed for each such position.
    pub fn assemble(
        account: MarginfiAccount,
        banks: &Vec<Bank>,
        price_feeds: &Vec<OraclePriceFeedAdapter>,
    ) -> (r: Option<MarginfiUserAccount>)
        ensures
            r is Some <==> banks@.len() == account.lending_account.spec_active_balances().len()
                && price_feeds@.len() == banks@.len(),
            r matches Some(user) ==> user.account == account && user.bank_accounts@
                == MarginfiUserAccount::spec_assemble(account, banks@, price_feeds@),
    {
        let balances = account.lending_account.get_active_balances();
        if banks.len() != balances.len() || price_feeds.len() != banks.len() {
            return None;
        }
        let mut bank_accounts: Vec<BankAccount> = Vec::new();
        let mut i: usize = 0;
        while i < balances.len()
            invariant
                i <= balances@.len(),
                balances@ == account.lending_account.spec_active_balances(),
                banks@.len() == balances@.len(),
                price_feeds@.len() == balances@.len(),
                bank_accounts@.len() == i,
                forall|j: int|
                    0 <= j < i ==> bank_accounts@[j] == (BankAccount {
                        bank: banks@[j],
                        price_feed: price_feeds@[j],
                        balance: balances@[j],
                    }),
            decreases balances@.len() - i,
        {
            bank_accounts.push(
                BankAccount { bank: banks[i], price_feed: price_feeds[i], balance: balances[i] },
            );
            i += 1;
        }
        assert(bank_accounts@ =~= MarginfiUserAccount::spec_assemble(
            account,
            banks@,
            price_feeds@,
        ));
        Some(MarginfiUserAccount { account, bank_accounts })
    }

    /// The keys of the banks of the account's positions in use, in the
    /// positions' order: the banks that must be fetched to value it.
    pub fn bank_keys(account: &MarginfiAccount) -> (r: Vec<Pubkey>)
        ensures
            r@.len() == account.lending_account.spec_active_balances().len(),
            forall|i: int|
                0 <= i < r@.len() ==> (#[trigger] r@[i])@
                    == account.lending_account.spec_active_balances()[i].bank_pk@,
    {
        let balances = account.lending_account.get_active_balances();
        let mut keys: Vec<Pubkey> = Vec::new();
        let mut i: usize = 0;
        while i < balances.len()
            invariant
                i <= balances@.len(),
                keys@.len() == i,
                forall|j: int| 0 <= j < i ==> (#[trigger] keys@[j])@ == balances@[j].bank_pk@,
            decreases balances@.len() - i,
        {
            keys.push(balances[i].bank_pk);
            i += 1;
        }
        keys
    }

    /// The borrower's account record.
    pub fn account(&self) -> (r: &MarginfiAccount)
        ensures
            *r == self.account,
    {
        &self.account
    }

    /// The sum of one side's values over all positions.
    fn total(&self, side: BalanceSide) -> (r: Result<I80F48, HealthError>)
        ensures
            r == spec_total(self.bank_accounts@, side),
    {
        let mut sum = I80F48::zero();
        let mut i: usize = 0;
        while i < self.bank_accounts.len()
            invariant
                i <= self.bank_accounts@.len(),
                spec_total_prefix(self.bank_accounts@, side, i as nat) == Ok::<I80F48, HealthError>(
                    sum,
                ),
            decreases self.bank_accounts@.len() - i,
        {
            let value = match self.bank_accounts[i].side_value(side) {
                Ok(v) => v,
                Err(kind) => {
                    proof {
                        lemma_total_error_stays(
                            self.bank_accounts@,
                            side,
                            (i + 1) as nat,
                            self.bank_accounts@.len(),
                        );
                    }
                    return Err(HealthError { kind, position: i, side });
                },
            };
            sum = match sum.checked_add(value) {
                Some(s) => s,
                None => {
                    proof {
                        lemma_total_error_stays(
                            self.bank_accounts@,
                            side,
                            (i + 1) as nat,
                            self.bank_accounts@.len(),
                        );
                    }
                    return Err(
                        HealthError { kind: HealthErrorKind::Arithmetic, position: i, side },
                    );
                },
            };
            i += 1;
        }
        Ok(sum)
    }

    /// The dollar value of all deposits.
    pub fn asset_value(&self) -> (r: Result<I80F48, HealthError>)
        ensures
            r == spec_total(self.bank_accounts@, BalanceSide::Assets),
    {
        self.total(BalanceSide::Assets)
    }

    /// The dollar value of all borrows.
    pub fn liability_value(&self) -> (r: Result<I80F48, HealthError>)
        ensures
            r == spec_total(self.bank_accounts@, BalanceSide::Liabilities),
    {
        self.total(BalanceSide::Liabilities)
    }

    /// The maintenance margin of the account.
    pub fn maintenance(&self) -> (r: Result<I80F48, HealthError>)
        ensures
            r == spec_maintenance(self.bank_accounts@),
    {
        let mut total_asset_value = I80F48::zero();
        let mut total_liability_value = I80F48::zero();
        let mut i: usize = 0;
        while i < self.bank_accounts.len()
            invariant
                i <= self.bank_accounts@.len(),
                spec_weighted_prefix(self.bank_accounts@, i as nat) == Ok::<
                    (I80F48, I80F48),
                    HealthError,
                >((total_asset_value, total_liability_value)),
            decreases self.bank_accounts@.len() - i,
        {
            let entry = &self.bank_accounts[i];
            let more_assets = match add_weighted(entry, BalanceSide::Assets, total_asset_value, i) {
                Ok(v) => v,
                Err(e) => {
                    proof {
                        lemma_weighted_error_stays(
                            self.bank_accounts@,
                            (i + 1) as nat,
                            self.bank_accounts@.len(),
                        );
                    }
                    return Err(e);
                },
            };
            let more_liabilities = match add_weighted(
                entry,
                BalanceSide::Liabilities,
                total_liability_value,
                i,
            ) {
                Ok(v) => v,
                Err(e) => {
                    proof {
                        lemma_weighted_error_stays(
                            self.bank_accounts@,
                            (i + 1) as nat,
                            self.bank_accounts@.len(),
                        );
                    }
                    return Err(e);
                },
            };
            total_asset_value = more_assets;
            total_liability_value = more_liabilities;
            i += 1;
        }
        match total_asset_value.checked_sub(total_liability_value) {
            Some(margin) => Ok(margin),
            None => Err(
                HealthError {
                    kind: HealthErrorKind::Arithmetic,
                    position: self.bank_accounts.len(),
                    side: BalanceSide::Liabilities,
                },
            ),
        }
    }
}

/// An error met among the first `n` positions is the error of every longer
/// run of positions.
pub proof fn lemma_total_error_stays(
    positions: Seq<BankAccount>,
    side: BalanceSide,
    n: nat,
    m: nat,
)
    requires
        n <= m,
        spec_total_prefix(positions, side, n) is Err,
    ensures
        spec_total_prefix(positions, side, m) == spec_total_prefix(positions, side, n),
    decreases m,
{
    if n < m {
        lemma_total_error_stays(positions, side, n, (m - 1) as nat);
    }
}

/// An error met while weighting the first `n` positions is the error of
/// every longer run of positions.
pub proof fn lemma_weighted_error_stays(positions: Seq<BankAccount>, n: nat, m: nat)
    requires
        n <= m,
        spec_weighted_prefix(positions, n) is Err,
    ensures
        spec_weighted_prefix(positions, m) == spec_weighted_prefix(positions, n),
    decreases m,
{
    if n < m {
        lemma_weighted_error_stays(positions, n, (m - 1) as nat);
    }
}

} // verus!
