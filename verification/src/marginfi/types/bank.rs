//! A lending pool ("bank") and its share accounting.
//!
//! Depositors and borrowers hold shares of a pool. A pool's underlying
//! balance grows with interest while the number of shares does not, so a
//! share count is turned into a token amount through the pool's totals, and
//! a token amount in native units into whole tokens through the mint's
//! decimal count.

use crate::fixed_point::{spec_pow10, I80F48};
use crate::layout::{read_i64, read_key, read_u64, read_u8, spec_i64_at, spec_key_at, spec_u64_at, spec_u8_at, Pubkey};
use crate::marginfi::errors::{ArithmeticError, BalanceSide};
use crate::marginfi::types::bank_config::BankConfig;
use crate::utils::parse_account::AccountRecord;
use crate::wrapped_i80f48::{read_wrapped, spec_decode, WrappedI80F48};
use vstd::prelude::*;
use vstd::slice::slice_subrange;

verus! {

/// The amount that `shares` claim of a pool with `total_shares` shares over
/// `total_underlying` tokens: `shares * total_underlying / total_shares`,
/// the product rounded down and the quotient toward zero. No shares, or an
/// empty pool, claim nothing whatever the other totals are.
pub open spec fn spec_shares_to_amount(
    shares: I80F48,
    total_shares: I80F48,
    total_underlying: I80F48,
) -> Result<I80F48, ArithmeticError> {
    if shares.bits == 0 || total_underlying.bits == 0 {
        Ok(I80F48::spec_zero())
    } else {
        match shares.spec_checked_mul(total_underlying) {
            None => Err(ArithmeticError::Overflow),
            Some(claim) => if total_shares.bits == 0 {
                Err(ArithmeticError::DivisionByZero)
            } else {
                match claim.spec_checked_div(total_shares) {
                    None => Err(ArithmeticError::Overflow),
                    Some(amount) => Ok(amount),
                }
            },
        }
    }
}

/// Converts a share count into the underlying amount it claims.
pub fn shares_to_amount(shares: I80F48, total_shares: I80F48, total_underlying: I80F48) -> (r:
    Result<I80F48, ArithmeticError>)
    ensures
        r == spec_shares_to_amount(shares, total_shares, total_underlying),
{
    if shares.is_zero() || total_underlying.is_zero() {
        return Ok(I80F48::zero());
    }
    let claim = match shares.checked_mul(total_underlying) {
        Some(claim) => claim,
        None => {
            return Err(ArithmeticError::Overflow);
        },
    };
    if total_shares.is_zero() {
        return Err(ArithmeticError::DivisionByZero);
    }
    match claim.checked_div(total_shares) {
        Some(amount) => Ok(amount),
        None => Err(ArithmeticError::Overflow),
    }
}

/// No shares claim nothing of a pool that has shares, whatever it holds.
pub proof fn lemma_no_shares_claim_nothing(total_shares: I80F48, total_underlying: I80F48)
    requires
        total_shares.bits > 0,
    ensures
        spec_shares_to_amount(I80F48::spec_zero(), total_shares, total_underlying) == Ok::<
            I80F48,
            ArithmeticError,
        >(I80F48::spec_zero()),
{
}

/// Of a pool without shares and without tokens every share count claims
/// nothing: the division by the zero total is never made.
pub proof fn lemma_empty_pool_claims_nothing(shares: I80F48)
    ensures
        spec_shares_to_amount(shares, I80F48::spec_zero(), I80F48::spec_zero()) == Ok::<
            I80F48,
            ArithmeticError,
        >(I80F48::spec_zero()),
{
}

/// An amount in native units as whole tokens: `raw_amount / 10^decimals`,
/// rounded toward zero. A decimal count above 23 has no representable power
/// of ten.
pub open spec fn spec_to_display_amount(raw_amount: I80F48, mint_decimals: u8) -> Result<
    I80F48,
    ArithmeticError,
> {
    match I80F48::spec_from_int(spec_pow10(mint_decimals as nat)) {
        None => Err(ArithmeticError::Overflow),
        Some(unit) => match raw_amount.spec_checked_div(unit) {
            None => Err(ArithmeticError::Overflow),
            Some(amount) => Ok(amount),
        },
    }
}

/// Rescales an amount in native units into whole tokens.
pub fn to_display_amount(raw_amount: I80F48, mint_decimals: u8) -> (r: Result<
    I80F48,
    ArithmeticError,
>)
    ensures
        r == spec_to_display_amount(raw_amount, mint_decimals),
{
    let unit = match I80F48::exp10(mint_decimals as u32) {
        Some(unit) => unit,
        None => {
            return Err(ArithmeticError::Overflow);
        },
    };
    match raw_amount.checked_div(unit) {
        Some(amount) => Ok(amount),
        None => Err(ArithmeticError::Overflow),
    }
}

/// Size of a bank record in bytes.
pub const BANK_SIZE: usize = 1856;

/// A bank, as far as valuation reads it. The fields stand at fixed offsets
/// of a 1856-byte record; vaults, fees, emissions and caches lie between
/// them and are not kept.
#[derive(Clone, Copy, Debug)]
pub struct Bank {
    /// The token that the pool holds.
    pub mint: Pubkey,
    /// Number of decimal digits of the token's native unit.
    pub mint_decimals: u8,
    pub group: Pubkey,
    /// Tokens that one deposit share is worth.
    pub asset_share_value: WrappedI80F48,
    /// Tokens that one borrow share owes.
    pub liability_share_value: WrappedI80F48,
    pub total_liability_shares: WrappedI80F48,
    pub total_asset_shares: WrappedI80F48,
    pub last_update: i64,
    pub config: BankConfig,
    pub flags: u64,
}

impl Bank {
    /// Whether every field holds what `body` holds at the field's offset.
    pub open spec fn spec_is_record_of(&self, body: Seq<u8>) -> bool {
        &&& self.mint@ == spec_key_at(body, 0)
        &&& self.mint_decimals == spec_u8_at(body, 32)
        &&& self.group@ == spec_key_at(body, 33)
        &&& self.asset_share_value@ == body.subrange(72, 88)
        &&& self.liability_share_value@ == body.subrange(88, 104)
        &&& self.total_liability_shares@ == body.subrange(248, 264)
        &&& self.total_asset_shares@ == body.subrange(264, 280)
        &&& self.last_update == spec_i64_at(body, 280)
        &&& self.config.spec_is_record_of(body.subrange(288, 832))
        &&& self.flags == spec_u64_at(body, 832)
    }

    /// The tokens that deposit shares are worth: the claim of `shares` on a
    /// pool in which one share holds `asset_share_value` tokens.
    pub open spec fn spec_asset_amount(&self, shares: I80F48) -> Result<I80F48, ArithmeticError> {
        spec_shares_to_amount(shares, I80F48::spec_one(), spec_decode(self.asset_share_value@))
    }

    /// The tokens that borrow shares owe.
    pub open spec fn spec_liability_amount(&self, shares: I80F48) -> Result<
        I80F48,
        ArithmeticError,
    > {
        spec_shares_to_amount(shares, I80F48::spec_one(), spec_decode(self.liability_share_value@))
    }

    /// The tokens that deposit shares are worth.
    pub fn get_asset_amount(&self, shares: I80F48) -> (r: Result<I80F48, ArithmeticError>)
        ensures
            r == self.spec_asset_amount(shares),
    {
        shares_to_amount(shares, I80F48::one(), self.asset_share_value.to_fixed())
    }

    /// The tokens that borrow shares owe.
    pub fn get_liability_amount(&self, shares: I80F48) -> (r: Result<I80F48, ArithmeticError>)
        ensures
            r == self.spec_liability_amount(shares),
    {
        shares_to_amount(shares, I80F48::one(), self.liability_share_value.to_fixed())
    }

    /// The whole tokens that shares on one side stand for: the shares'
    /// amount in native units, rescaled by the mint's decimals.
    pub open spec fn spec_display_amount(&self, shares: I80F48, side: BalanceSide) -> Result<
        I80F48,
        ArithmeticError,
    > {
        let amount = match side {
            BalanceSide::Assets => self.spec_asset_amount(shares),
            BalanceSide::Liabilities => self.spec_liability_amount(shares),
        };
        match amount {
            Ok(native) => spec_to_display_amount(native, self.mint_decimals),
            Err(e) => Err(e),
        }
    }

    /// The whole tokens that shares on one side stand for.
    pub fn display_amount(&self, shares: I80F48, side: BalanceSide) -> (r: Result<
        I80F48,
        ArithmeticError,
    >)
        ensures
            r == self.spec_display_amount(shares, side),
    {
        let amount = match side {
            BalanceSide::Assets => self.get_asset_amount(shares),
            BalanceSide::Liabilities => self.get_liability_amount(shares),
        };
        match amount {
            Ok(native) => self.get_display_asset(native),
            Err(e) => Err(e),
        }
    }

    /// An amount of this bank's token in native units, as whole tokens.
    pub fn get_display_asset(&self, amount: I80F48) -> (r: Result<I80F48, ArithmeticError>)
        ensures
            r == spec_to_display_amount(amount, self.mint_decimals),
    {
        to_display_amount(amount, self.mint_decimals)
    }
}

impl AccountRecord for Bank {
    open spec fn record_size() -> nat {
        1856
    }

    open spec fn is_record_of(&self, body: Seq<u8>) -> bool {
        self.spec_is_record_of(body)
    }

    fn size() -> (r: usize) {
        BANK_SIZE
    }

    fn from_body(body: &[u8]) -> (r: Bank) {
        Bank {
            mint: read_key(body, 0),
            mint_decimals: read_u8(body, 32),
            group: read_key(body, 33),
            asset_share_value: read_wrapped(body, 72),
            liability_share_value: read_wrapped(body, 88),
            total_liability_shares: read_wrapped(body, 248),
            total_asset_shares: read_wrapped(body, 264),
            last_update: read_i64(body, 280),
            config: BankConfig::from_body(slice_subrange(body, 288, 832)),
            flags: read_u64(body, 832),
        }
    }
}

} // verus!
