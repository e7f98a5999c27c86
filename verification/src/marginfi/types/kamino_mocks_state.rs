//! The reserve of another lending program whose collateral token a bank can
//! hold, as far as pricing reads it.
//!
//! A collateral token is a share of the reserve's liquidity. Its price is the
//! price of the reserve's token times the reserve's liquidity per collateral
//! share, so a feed for the reserve's token is rescaled by that ratio.

use crate::fixed_point::I80F48;
use crate::layout::{read_u128, read_u64, spec_u128_at, spec_u64_at};
use crate::marginfi::errors::MarginfiError;
use crate::utils::parse_account::{parse_account, spec_length_error, AccountRecord};
use vstd::prelude::*;

verus! {

/// Size of a reserve record in bytes.
pub const MINIMAL_RESERVE_SIZE: usize = 8616;

/// The value of one in the reserve's fractions, which have 60 fractional
/// bits.
pub const FRACTION_ONE: u128 = 0x1000_0000_0000_0000;

/// Units of the reserve's fractions in one unit of a fixed-point number's
/// raw pattern, which has 48 fractional bits.
pub const FRACTIONS_PER_BIT: u128 = 0x1000;

/// The totals of a reserve.
#[derive(Clone, Copy, Debug, PartialEq, Eq, Structural)]
pub struct ReserveSupplies {
    /// Tokens that the reserve holds or has lent out.
    pub total_liquidity: I80F48,
    /// Collateral shares issued against them.
    pub total_collateral: I80F48,
}

/// A reserve, as far as pricing reads it. The fields stand at fixed offsets
/// of a 8616-byte record; amounts ending in `_sf` are fractions with 60
/// fractional bits.
#[derive(Clone, Copy, Debug, PartialEq, Eq, Structural)]
pub struct MinimalReserve {
    /// Tokens in the reserve's vault.
    pub available_amount: u64,
    /// Tokens lent out, with accrued interest.
    pub borrowed_amount_sf: u128,
    pub accumulated_protocol_fees_sf: u128,
    pub accumulated_referrer_fees_sf: u128,
    pub pending_referrer_fees_sf: u128,
    /// Collateral shares in existence.
    pub mint_total_supply: u64,
}

impl MinimalReserve {
    /// The reserve that a record's bytes hold.
    pub open spec fn spec_of_body(body: Seq<u8>) -> MinimalReserve {
        MinimalReserve {
            available_amount: spec_u64_at(body, 216),
            borrowed_amount_sf: spec_u128_at(body, 224),
            accumulated_protocol_fees_sf: spec_u128_at(body, 336),
            accumulated_referrer_fees_sf: spec_u128_at(body, 352),
            pending_referrer_fees_sf: spec_u128_at(body, 368),
            mint_total_supply: spec_u64_at(body, 2584),
        }
    }

    /// The reserve's liquidity as a fraction: what is in the vault and what
    /// is lent out, less the fees that are owed out of it.
    pub open spec fn spec_total_supply_sf(&self) -> int {
        self.available_amount * FRACTION_ONE + self.borrowed_amount_sf
            - self.accumulated_protocol_fees_sf - self.accumulated_referrer_fees_sf
            - self.pending_referrer_fees_sf
    }

    /// The reserve's totals as numbers: the liquidity rounded down to 48
    /// fractional bits, and the collateral supply. Fees beyond the liquidity,
    /// or a liquidity beyond 128 bits, are a math error.
    pub open spec fn spec_scaled_supplies(&self) -> Result<ReserveSupplies, MarginfiError> {
        let gross = self.available_amount * FRACTION_ONE + self.borrowed_amount_sf;
        let total = self.spec_total_supply_sf();
        if gross > u128::MAX || total < 0 {
            Err(MarginfiError::MathError)
        } else {
            Ok(
                ReserveSupplies {
                    total_liquidity: I80F48 { bits: (total / (FRACTIONS_PER_BIT as int)) as i128 },
                    total_collateral: I80F48 {
                        bits: (self.mint_total_supply * 0x1_0000_0000_0000) as i128,
                    },
                },
            )
        }
    }

    /// The reserve's totals as numbers.
    pub fn scaled_supplies(&self) -> (r: Result<ReserveSupplies, MarginfiError>)
        ensures
            r == self.spec_scaled_supplies(),
    {
        let vault: u128 = self.available_amount as u128 * FRACTION_ONE;
        let gross = match vault.checked_add(self.borrowed_amount_sf) {
            Some(v) => v,
            None => {
                return Err(MarginfiError::MathError);
            },
        };
        let fees = match self.accumulated_protocol_fees_sf.checked_add(
            self.accumulated_referrer_fees_sf,
        ) {
            Some(v) => v,
            None => {
                return Err(MarginfiError::MathError);
            },
        };
        let fees = match fees.checked_add(self.pending_referrer_fees_sf) {
            Some(v) => v,
            None => {
                return Err(MarginfiError::MathError);
            },
        };
        let total = match gross.checked_sub(fees) {
            Some(v) => v,
            None => {
                return Err(MarginfiError::MathError);
            },
        };
        let liquidity: u128 = total / FRACTIONS_PER_BIT;
        Ok(
            ReserveSupplies {
                total_liquidity: I80F48::from_bits(liquidity as i128),
                total_collateral: I80F48::from_u64(self.mint_total_supply),
            },
        )
    }
}

impl AccountRecord for MinimalReserve {
    open spec fn record_size() -> nat {
        8616
    }

    open spec fn is_record_of(&self, body: Seq<u8>) -> bool {
        *self == MinimalReserve::spec_of_body(body)
    }

    fn size() -> (r: usize) {
        MINIMAL_RESERVE_SIZE
    }

    fn from_body(body: &[u8]) -> (r: MinimalReserve) {
        MinimalReserve {
            available_amount: read_u64(body, 216),
            borrowed_amount_sf: read_u128(body, 224),
            accumulated_protocol_fees_sf: read_u128(body, 336),
            accumulated_referrer_fees_sf: read_u128(body, 352),
            pending_referrer_fees_sf: read_u128(body, 368),
            mint_total_supply: read_u64(body, 2584),
        }
    }
}

/// An integer rescaled by a ratio: the integer as a number times the ratio,
/// rounded toward negative infinity; `None` where a step overflows.
pub open spec fn spec_adjust(raw: int, ratio: I80F48) -> Option<int> {
    match I80F48::spec_from_int(raw) {
        None => None,
        Some(wide) => match wide.spec_checked_mul(ratio) {
            None => None,
            Some(product) => Some(product.spec_floor()),
        },
    }
}

/// A signed 64-bit mantissa rescaled by a ratio.
pub open spec fn spec_adjust_i64(raw: i64, ratio: I80F48) -> Result<i64, MarginfiError> {
    match spec_adjust(raw as int, ratio) {
        Some(v) => if i64::MIN <= v <= i64::MAX {
            Ok(v as i64)
        } else {
            Err(MarginfiError::MathError)
        },
        None => Err(MarginfiError::MathError),
    }
}

/// An unsigned 64-bit confidence value rescaled by a ratio.
pub open spec fn spec_adjust_u64(raw: u64, ratio: I80F48) -> Result<u64, MarginfiError> {
    match spec_adjust(raw as int, ratio) {
        Some(v) => if 0 <= v <= u64::MAX {
            Ok(v as u64)
        } else {
            Err(MarginfiError::MathError)
        },
        None => Err(MarginfiError::MathError),
    }
}

/// A 128-bit Switchboard integer rescaled by a ratio.
pub open spec fn spec_adjust_i128(raw: i128, ratio: I80F48) -> Result<i128, MarginfiError> {
    match spec_adjust(raw as int, ratio) {
        Some(v) => Ok(v as i128),
        None => Err(MarginfiError::MathError),
    }
}

/// Rescales a 128-bit Switchboard integer by a ratio.
pub fn adjust_i128(raw: i128, ratio: I80F48) -> (r: Result<i128, MarginfiError>)
    ensures
        r == spec_adjust_i128(raw, ratio),
        spec_adjust(raw as int, ratio) matches Some(v) ==> i128::MIN <= v <= i128::MAX,
{
    let wide = match I80F48::checked_from_i128(raw) {
        Some(v) => v,
        None => {
            return Err(MarginfiError::MathError);
        },
    };
    match wide.checked_mul(ratio) {
        Some(product) => Ok(product.floor()),
        None => Err(MarginfiError::MathError),
    }
}

/// Rescales a signed 64-bit mantissa by a ratio.
pub fn adjust_i64(raw: i64, ratio: I80F48) -> (r: Result<i64, MarginfiError>)
    ensures
        r == spec_adjust_i64(raw, ratio),
{
    match adjust_i128(raw as i128, ratio) {
        Ok(v) => if v < i64::MIN as i128 || v > i64::MAX as i128 {
            Err(MarginfiError::MathError)
        } else {
            Ok(v as i64)
        },
        Err(_) => Err(MarginfiError::MathError),
    }
}

/// Rescales an unsigned 64-bit confidence value by a ratio.
pub fn adjust_u64(raw: u64, ratio: I80F48) -> (r: Result<u64, MarginfiError>)
    ensures
        r == spec_adjust_u64(raw, ratio),
{
    match adjust_i128(raw as i128, ratio) {
        Ok(v) => if v < 0 || v > u64::MAX as i128 {
            Err(MarginfiError::MathError)
        } else {
            Ok(v as u64)
        },
        Err(_) => Err(MarginfiError::MathError),
    }
}

/// The ratio by which a reserve's collateral token is worth more than a
/// share: `total_liquidity / total_collateral`. A reserve without
/// collateral shares has no ratio and leaves prices as they are.
pub open spec fn spec_reserve_ratio(reserve: ReserveSupplies) -> Result<
    Option<I80F48>,
    MarginfiError,
> {
    if reserve.total_collateral.bits > 0 {
        match reserve.total_liquidity.spec_checked_div(reserve.total_collateral) {
            Some(ratio) => Ok(Some(ratio)),
            None => Err(MarginfiError::MathError),
        }
    } else {
        Ok(None)
    }
}

/// The liquidity per collateral share, where the reserve has collateral
/// shares.
pub fn reserve_ratio(reserve: &ReserveSupplies) -> (r: Result<Option<I80F48>, MarginfiError>)
    ensures
        r == spec_reserve_ratio(*reserve),
{
    if reserve.total_collateral.is_positive() {
        match reserve.total_liquidity.checked_div(reserve.total_collateral) {
            Some(ratio) => Ok(Some(ratio)),
            None => Err(MarginfiError::MathError),
        }
    } else {
        Ok(None)
    }
}

/// The ratio of the reserve in a raw account: the account must be a whole
/// reserve record behind a type tag, and its totals must be numbers.
pub open spec fn spec_ratio_of_reserve(data: Seq<u8>) -> Result<Option<I80F48>, MarginfiError> {
    if spec_length_error(data.len(), 8616) is Some {
        Err(MarginfiError::AccountDidNotDeserialize)
    } else {
        match MinimalReserve::spec_of_body(data.subrange(8, data.len() as int)).spec_scaled_supplies() {
            Err(e) => Err(e),
            Ok(supplies) => spec_reserve_ratio(supplies),
        }
    }
}

/// Reads a reserve out of a raw account and gives its ratio.
pub fn ratio_of_reserve(data: &[u8]) -> (r: Result<Option<I80F48>, MarginfiError>)
    ensures
        r == spec_ratio_of_reserve(data@),
{
    let parsed: Result<MinimalReserve, crate::marginfi::errors::DecodeError> = parse_account(data);
    let reserve = match parsed {
        Ok(reserve) => reserve,
        Err(_) => {
            return Err(MarginfiError::AccountDidNotDeserialize);
        },
    };
    match reserve.scaled_supplies() {
        Ok(supplies) => reserve_ratio(&supplies),
        Err(e) => Err(e),
    }
}

} // verus!
