//! Prices from a bank's oracle.
//!
//! A bank names one of a closed set of oracle kinds. For each kind the raw
//! oracle accounts are checked (type tag, verification, age) and reduced to
//! the few numbers a price query reads; the raw bytes are not kept. A query
//! asks for the live or the time-weighted price and may ask for it biased
//! low or high by the feed's confidence interval.
//!
//! Three account formats belong to other programs and are read by their
//! crates: the Pyth price update, the Switchboard pull feed and the stake
//! account. What those crates hand back is named by an uninterpreted
//! function each; everything decided on it is stated exactly.

use crate::fixed_point::{scale, spec_pow10, trunc_div, I80F48};
use crate::layout::{has_discriminator, spec_has_discriminator, Pubkey};
use crate::marginfi::errors::MarginfiError;
use crate::marginfi::types::bank::Bank;
use crate::marginfi::types::bank_config::{BankConfig, OracleSetup};
use crate::marginfi::types::kamino_mocks_state::{
    adjust_i128, adjust_i64, adjust_u64, ratio_of_reserve, spec_adjust_i128, spec_adjust_i64,
    spec_adjust_u64, spec_ratio_of_reserve,
};
use crate::wrapped_i80f48::spec_decode;
use anchor_lang::AnchorDeserialize;
use pyth_solana_receiver_sdk::price_update::PriceUpdateV2 as PythPriceUpdate;
use pyth_solana_receiver_sdk::price_update::VerificationLevel as PythVerificationLevel;
use solana_stake_interface::state::StakeStateV2;
use switchboard_on_demand::PullFeedAccountData;
use vstd::prelude::*;
use vstd::slice::slice_subrange;

verus! {

/// Type tag of a Pyth price update account.
pub const PYTH_PRICE_UPDATE_DISCRIMINATOR: [u8; 8] = [34, 241, 35, 99, 157, 126, 244, 205];

/// Type tag of a Switchboard pull feed account.
pub const SWITCHBOARD_PULL_FEED_DISCRIMINATOR: [u8; 8] = [196, 27, 108, 196, 10, 215, 219, 40];

/// Size in bytes of a Switchboard pull feed record, without its type tag:
/// 32 submissions of 64 bytes, three 32-byte keys and hashes, 28 bytes of
/// settings, a 32-byte name, four flag bytes, two 8-byte stamps, 32 reserved
/// bytes, the 128-byte current result, 16 bytes of staleness and padding,
/// 32 historical results of 16 bytes, 32 more reserved bytes and 32 8-byte
/// timestamps.
pub const SWITCHBOARD_PULL_FEED_SIZE: usize = 3200;

/// Number of decimal digits in a Switchboard value.
pub const SWITCHBOARD_PRECISION: u32 = 18;

/// Lamports of principal that a stake pool keeps out of its token's backing.
pub const LAMPORTS_PER_SOL: u64 = 1_000_000_000;

/// Raw pattern of 2.12, the number of standard deviations that a Pyth
/// confidence value is widened to.
pub const CONF_INTERVAL_MULTIPLE_BITS: i128 = 596_726_950_626_591;

/// Raw pattern of 1.96, the number of standard deviations that a Switchboard
/// deviation is widened to.
pub const STD_DEV_MULTIPLE_BITS: i128 = 551_690_954_352_886;

/// Raw pattern of 0.05: no confidence interval is applied beyond five
/// percent of the price.
pub const MAX_CONF_INTERVAL_BITS: i128 = 14_073_748_835_533;

/// The confidence limit that stands for one hundred percent.
pub const U32_MAX: u32 = 4_294_967_295;

/// The confidence limit used where a bank sets none: ten percent.
pub const U32_MAX_DIV_10: u32 = 429_496_730;

/// Direction in which a price is moved by its confidence interval.
#[derive(Clone, Copy, Debug, PartialEq, Eq, Structural)]
pub enum PriceBias {
    Low,
    High,
}

/// Which of a feed's prices is asked for.
#[derive(Clone, Copy, Debug, PartialEq, Eq, Structural)]
pub enum OraclePriceType {
    /// The exponential moving average, where the feed has one.
    TimeWeighted,
    /// The latest price.
    RealTime,
}

/// A number, or a math error where an operation gave none.
pub open spec fn spec_or_math_error(value: Option<I80F48>) -> Result<I80F48, MarginfiError> {
    match value {
        Some(v) => Ok(v),
        None => Err(MarginfiError::MathError),
    }
}

/// The confidence limit of a query as a number: the bank's limit, or the
/// default where the bank's limit is zero.
pub open spec fn spec_confidence_limit(oracle_max_confidence: u32) -> I80F48 {
    if oracle_max_confidence > 0 {
        I80F48 { bits: (oracle_max_confidence * scale()) as i128 }
    } else {
        I80F48 { bits: (U32_MAX_DIV_10 * scale()) as i128 }
    }
}

/// The confidence interval that is applied to `price`.
///
/// The interval may be at most `price * limit / u32::MAX`, else the feed is
/// rejected. An accepted interval is cut down to five percent of the price.
/// A negative interval or a negative five-percent cap has no meaning and is
/// reported as a math error.
pub open spec fn spec_bounded_confidence(
    conf_interval: I80F48,
    price: I80F48,
    oracle_max_confidence: u32,
) -> Result<I80F48, MarginfiError> {
    match price.spec_checked_mul(spec_confidence_limit(oracle_max_confidence)) {
        None => Err(MarginfiError::MathError),
        Some(scaled) => match scaled.spec_checked_div(I80F48 { bits: (U32_MAX * scale()) as i128 }) {
            None => Err(MarginfiError::MathError),
            Some(max_conf) => if conf_interval.bits > max_conf.bits {
                Err(MarginfiError::OracleMaxConfidenceExceeded)
            } else {
                match price.spec_checked_mul(I80F48 { bits: MAX_CONF_INTERVAL_BITS }) {
                    None => Err(MarginfiError::MathError),
                    Some(cap) => if cap.bits < 0 || conf_interval.bits < 0 {
                        Err(MarginfiError::MathError)
                    } else if conf_interval.bits <= cap.bits {
                        Ok(conf_interval)
                    } else {
                        Ok(cap)
                    },
                }
            },
        },
    }
}

/// Tests a confidence interval against the query's limit and cuts it down to
/// five percent of the price.
pub fn bounded_confidence(conf_interval: I80F48, price: I80F48, oracle_max_confidence: u32) -> (r:
    Result<I80F48, MarginfiError>)
    ensures
        r == spec_bounded_confidence(conf_interval, price, oracle_max_confidence),
        r matches Ok(applied) ==> 0 <= applied.bits <= conf_interval.bits,
{
    let limit = if oracle_max_confidence > 0 {
        I80F48::from_u32(oracle_max_confidence)
    } else {
        I80F48::from_u32(U32_MAX_DIV_10)
    };
    let scaled = match price.checked_mul(limit) {
        Some(v) => v,
        None => {
            return Err(MarginfiError::MathError);
        },
    };
    let max_conf = match scaled.checked_div(I80F48::from_u32(U32_MAX)) {
        Some(v) => v,
        None => {
            return Err(MarginfiError::MathError);
        },
    };
    if conf_interval.gt(max_conf) {
        return Err(MarginfiError::OracleMaxConfidenceExceeded);
    }
    let cap = match price.checked_mul(I80F48::from_bits(MAX_CONF_INTERVAL_BITS)) {
        Some(v) => v,
        None => {
            return Err(MarginfiError::MathError);
        },
    };
    if cap.is_negative() || conf_interval.is_negative() {
        return Err(MarginfiError::MathError);
    }
    Ok(conf_interval.min(cap))
}

/// An interval that is applied is never negative, never wider than the
/// feed's own interval and never wider than five percent of the price,
/// whatever limit the query sets.
pub proof fn lemma_confidence_is_capped(
    conf_interval: I80F48,
    price: I80F48,
    oracle_max_confidence: u32,
)
    ensures
        spec_bounded_confidence(conf_interval, price, oracle_max_confidence) matches Ok(applied)
            ==> {
            &&& price.spec_checked_mul(I80F48 { bits: MAX_CONF_INTERVAL_BITS }) matches Some(cap)
            &&& 0 <= applied.bits <= cap.bits
            &&& applied.bits <= conf_interval.bits
        },
{
}

/// An interval of at least a fifth of a positive price is rejected under
/// the default limit of ten percent. Under a limit of one hundred percent an
/// interval between a fifth of the price and the price is accepted, and what
/// is applied is five percent of the price. The price must be small enough
/// for its multiple by the limit to be representable.
pub proof fn lemma_wide_interval(conf_interval: I80F48, price: I80F48)
    requires
        0 < price.bits,
        price.bits * 0x1_0000_0000 <= i128::MAX,
        price.bits <= 5 * conf_interval.bits,
    ensures
        spec_bounded_confidence(conf_interval, price, 0) == Err::<I80F48, MarginfiError>(
            MarginfiError::OracleMaxConfidenceExceeded,
        ),
        conf_interval.bits <= price.bits ==> spec_bounded_confidence(conf_interval, price, U32_MAX)
            == Ok::<I80F48, MarginfiError>(
            I80F48 { bits: ((price.bits * MAX_CONF_INTERVAL_BITS) / scale()) as i128 },
        ),
{
    let p = price.bits as int;
    let c = conf_interval.bits as int;
    let one: int = 0x1_0000_0000_0000;
    assert(scale() == one);
    let tenth = spec_confidence_limit(0);
    assert(tenth.bits == 429_496_730 * one);
    assert((p * (429_496_730 * one)) / one == p * 429_496_730) by (nonlinear_arith)
        requires
            one == 0x1_0000_0000_0000,
    ;
    let scaled = I80F48 { bits: (p * 429_496_730) as i128 };
    assert(price.spec_checked_mul(tenth) == Some(scaled));
    let whole = I80F48 { bits: (4_294_967_295 * one) as i128 };
    let max_conf = (p * 429_496_730 * one) / (4_294_967_295 * one);
    assert(0 <= max_conf < c) by (nonlinear_arith)
        requires
            one == 0x1_0000_0000_0000,
            0 < p <= 5 * c,
            max_conf == (p * 429_496_730 * one) / (4_294_967_295 * one),
    ;
    assert(scaled.spec_checked_div(whole) == Some(I80F48 { bits: max_conf as i128 }));
    if conf_interval.bits <= price.bits {
        let full = spec_confidence_limit(U32_MAX);
        assert(full.bits == 4_294_967_295 * one);
        assert((p * (4_294_967_295 * one)) / one == p * 4_294_967_295) by (nonlinear_arith)
            requires
                one == 0x1_0000_0000_0000,
        ;
        let all = I80F48 { bits: (p * 4_294_967_295) as i128 };
        assert(price.spec_checked_mul(full) == Some(all));
        assert((p * 4_294_967_295 * one) / (4_294_967_295 * one) == p) by (nonlinear_arith)
            requires
                one == 0x1_0000_0000_0000,
        ;
        assert(all.spec_checked_div(whole) == Some(price));
        let cap = (p * MAX_CONF_INTERVAL_BITS) / one;
        assert(0 <= cap <= c) by (nonlinear_arith)
            requires
                one == 0x1_0000_0000_0000,
                0 < p <= 5 * c,
                cap == (p * 14_073_748_835_533) / one,
        ;
    }
}

/// A price moved by its confidence interval in the direction of the bias.
pub open spec fn spec_apply_bias(price: I80F48, bias: PriceBias, confidence: I80F48) -> Result<
    I80F48,
    MarginfiError,
> {
    match bias {
        PriceBias::Low => spec_or_math_error(price.spec_checked_sub(confidence)),
        PriceBias::High => spec_or_math_error(price.spec_checked_add(confidence)),
    }
}

/// Moves a price by its confidence interval in the direction of the bias.
pub fn apply_bias(price: I80F48, bias: PriceBias, confidence: I80F48) -> (r: Result<
    I80F48,
    MarginfiError,
>)
    ensures
        r == spec_apply_bias(price, bias, confidence),
{
    let moved = match bias {
        PriceBias::Low => price.checked_sub(confidence),
        PriceBias::High => price.checked_add(confidence),
    };
    match moved {
        Some(v) => Ok(v),
        None => Err(MarginfiError::MathError),
    }
}

/// Anything that answers a price query.
pub trait PriceAdapter {
    /// The answer to a query: the price of the asked type, moved by the
    /// bounded confidence interval if a bias is asked for.
    spec fn spec_price_of_type(
        &self,
        oracle_price_type: OraclePriceType,
        bias: Option<PriceBias>,
        oracle_max_confidence: u32,
    ) -> Result<I80F48, MarginfiError>;

    fn get_price_of_type(
        &self,
        oracle_price_type: OraclePriceType,
        bias: Option<PriceBias>,
        oracle_max_confidence: u32,
    ) -> (r: Result<I80F48, MarginfiError>)
        ensures
            r == self.spec_price_of_type(oracle_price_type, bias, oracle_max_confidence),
    ;

    /// The answer to a query that accepts any confidence interval.
    fn get_price_of_type_ignore_conf(&self, t: OraclePriceType, b: Option<PriceBias>) -> (r: Result<
        I80F48,
        MarginfiError,
    >)
        ensures
            r == self.spec_price_of_type(t, b, u32::MAX),
    {
        self.get_price_of_type(t, b, u32::MAX)
    }
}

/// A price that the bank's configuration fixes.
#[derive(Clone, Copy, Debug, PartialEq, Eq, Structural)]
pub struct FixedPriceFeed {
    pub price: I80F48,
}

impl PriceAdapter for FixedPriceFeed {
    /// The configured price, whatever is asked.
    open spec fn spec_price_of_type(
        &self,
        oracle_price_type: OraclePriceType,
        bias: Option<PriceBias>,
        oracle_max_confidence: u32,
    ) -> Result<I80F48, MarginfiError> {
        Ok(self.price)
    }

    fn get_price_of_type(
        &self,
        _oracle_price_type: OraclePriceType,
        _bias: Option<PriceBias>,
        _oracle_max_confidence: u32,
    ) -> (r: Result<I80F48, MarginfiError>) {
        Ok(self.price)
    }
}

/// How far the guardians' signatures on a price update were checked.
#[derive(Clone, Copy, Debug, PartialEq, Eq, Structural)]
pub enum VerificationLevel {
    /// Only `num_signatures` signatures were checked.
    Partial { num_signatures: u8 },
    /// Two thirds of the guardians' signatures were checked.
    Full,
}

impl VerificationLevel {
    /// Whether `self` is at least as strong as `other`: `Full` is above
    /// every `Partial`, and more signatures are above fewer.
    pub open spec fn spec_gte(self, other: VerificationLevel) -> bool {
        match self {
            VerificationLevel::Full => true,
            VerificationLevel::Partial { num_signatures } => match other {
                VerificationLevel::Full => false,
                VerificationLevel::Partial { num_signatures: other_signatures } => num_signatures
                    >= other_signatures,
            },
        }
    }

    /// Whether `self` is at least as strong as `other`.
    pub fn gte(self, other: VerificationLevel) -> (r: bool)
        ensures
            r == self.spec_gte(other),
    {
        match self {
            VerificationLevel::Full => true,
            VerificationLevel::Partial { num_signatures } => match other {
                VerificationLevel::Full => false,
                VerificationLevel::Partial { num_signatures: other_signatures } => num_signatures
                    >= other_signatures,
            },
        }
    }
}

/// The verification that a Pyth price update must carry to be used.
pub open spec fn spec_min_verification_level() -> VerificationLevel {
    VerificationLevel::Full
}

/// A Pyth price: `(price ± conf) * 10^exponent`, published at `publish_time`.
#[derive(Clone, Copy, Debug, PartialEq, Eq, Structural)]
pub struct Price {
    pub price: i64,
    pub conf: u64,
    pub exponent: i32,
    pub publish_time: i64,
}

/// What a Pyth price update account holds, as far as pricing reads it.
#[derive(Clone, Copy, Debug)]
pub struct PriceUpdateV2 {
    pub verification_level: VerificationLevel,
    pub feed_id: [u8; 32],
    pub price: i64,
    pub conf: u64,
    pub exponent: i32,
    /// Unix time in seconds at which the price was published.
    pub publish_time: i64,
    pub ema_price: i64,
    pub ema_conf: u64,
}

/// What `pyth_solana_receiver_sdk` reads as a price update from the bytes
/// that follow an account's type tag, or `None` where it reads none.
pub uninterp spec fn pyth_price_update(body: Seq<u8>) -> Option<PriceUpdateV2>;

/// Trusted: the Borsh deserialisation of
/// `pyth_solana_receiver_sdk::price_update::PriceUpdateV2` from the front of
/// `body`, bytes left over being ignored. The result depends on the bytes
/// alone; the contract gives it its name and claims nothing else.
#[verifier::external_body]
fn read_price_update(body: &[u8]) -> (r: Option<PriceUpdateV2>)
    ensures
        r == pyth_price_update(body@),
{
    let mut rest = body;
    let update = match PythPriceUpdate::deserialize(&mut rest) {
        Ok(update) => update,
        Err(_) => return None,
    };
    let m = update.price_message;
    let verification_level = match update.verification_level {
        PythVerificationLevel::Partial { num_signatures } => VerificationLevel::Partial { num_signatures },
        PythVerificationLevel::Full => VerificationLevel::Full,
    };
    let (feed_id, price, conf, exponent) = (m.feed_id, m.price, m.conf, m.exponent);
    let (publish_time, ema_price, ema_conf) = (m.publish_time, m.ema_price, m.ema_conf);
    Some(PriceUpdateV2 { verification_level, feed_id, price, conf, exponent, publish_time, ema_price, ema_conf })
}

/// The address that the Pyth push oracle derives for a shard and a feed,
/// with its bump seed, or `None` where the derivation finds none.
pub uninterp spec fn pyth_push_oracle_address(shard_id: u16, feed_id: Seq<u8>) -> Option<
    (Seq<u8>, u8),
>;

/// The price update in an account buffer: the buffer must start with the
/// price update's type tag, and the bytes after it must read as one.
pub open spec fn spec_load_price_update_v2(data: Seq<u8>) -> Result<PriceUpdateV2, MarginfiError> {
    if !spec_has_discriminator(data, PYTH_PRICE_UPDATE_DISCRIMINATOR@) {
        Err(MarginfiError::PythPushInvalidAccount)
    } else {
        match pyth_price_update(data.subrange(8, data.len() as int)) {
            Some(update) => Ok(update),
            None => Err(MarginfiError::AccountDidNotDeserialize),
        }
    }
}

/// Reads a Pyth price update out of a raw account buffer.
///
/// A buffer that is shorter than a type tag or carries another tag is
/// `PythPushInvalidAccount`; one whose tag is right and whose contents do not
/// read as a price update is `AccountDidNotDeserialize`.
pub fn load_price_update_v2_checked(data: &[u8]) -> (r: Result<PriceUpdateV2, MarginfiError>)
    ensures
        r == spec_load_price_update_v2(data@),
{
    if !has_discriminator(data, &PYTH_PRICE_UPDATE_DISCRIMINATOR) {
        return Err(MarginfiError::PythPushInvalidAccount);
    }
    match read_price_update(slice_subrange(data, 8, data.len())) {
        Some(update) => Ok(update),
        None => Err(MarginfiError::AccountDidNotDeserialize),
    }
}

/// Ten to the power `n` as a number, if representable.
pub open spec fn spec_exp10(n: nat) -> Option<I80F48> {
    I80F48::spec_from_int(spec_pow10(n))
}

/// The magnitude of a decimal exponent.
pub open spec fn spec_exponent_magnitude(exponent: i32) -> nat {
    if exponent < 0 {
        (-exponent) as nat
    } else {
        exponent as nat
    }
}

/// A mantissa scaled by its decimal exponent: divided by the power of ten
/// for a negative exponent, multiplied for a positive one, unchanged for
/// zero. A power of ten beyond `10^23` is a math error.
pub open spec fn spec_pyth_price_components_to_i80f48(price: I80F48, exponent: i32) -> Result<
    I80F48,
    MarginfiError,
> {
    if exponent == 0 {
        Ok(price)
    } else {
        match spec_exp10(spec_exponent_magnitude(exponent)) {
            None => Err(MarginfiError::MathError),
            Some(factor) => if exponent < 0 {
                spec_or_math_error(price.spec_checked_div(factor))
            } else {
                spec_or_math_error(price.spec_checked_mul(factor))
            },
        }
    }
}

/// Scales a mantissa by its decimal exponent.
pub fn pyth_price_components_to_i80f48(price: I80F48, exponent: i32) -> (r: Result<
    I80F48,
    MarginfiError,
>)
    ensures
        r == spec_pyth_price_components_to_i80f48(price, exponent),
{
    if exponent == 0 {
        return Ok(price);
    }
    let wide: i64 = exponent as i64;
    let magnitude: u32 = if exponent < 0 {
        (-wide) as u32
    } else {
        wide as u32
    };
    let factor = match I80F48::exp10(magnitude) {
        Some(f) => f,
        None => {
            return Err(MarginfiError::MathError);
        },
    };
    let scaled = if exponent < 0 {
        price.checked_div(factor)
    } else {
        price.checked_mul(factor)
    };
    match scaled {
        Some(v) => Ok(v),
        None => Err(MarginfiError::MathError),
    }
}

/// The prices of a Pyth price update that passed its checks.
#[derive(Clone, Copy, Debug, PartialEq, Eq, Structural)]
pub struct PythPushOraclePriceFeed {
    pub ema_price: Price,
    pub price: Price,
}

impl PythPushOraclePriceFeed {
    /// The two prices that a price update carries.
    pub open spec fn spec_of_update(update: PriceUpdateV2) -> PythPushOraclePriceFeed {
        PythPushOraclePriceFeed {
            ema_price: Price {
                price: update.ema_price,
                conf: update.ema_conf,
                exponent: update.exponent,
                publish_time: update.publish_time,
            },
            price: Price {
                price: update.price,
                conf: update.conf,
                exponent: update.exponent,
                publish_time: update.publish_time,
            },
        }
    }

    /// The feed of a price update at time `unix_timestamp`.
    ///
    /// The update must be fully verified, and it must not have been
    /// published more than `max_age` seconds before `unix_timestamp`.
    pub open spec fn spec_from_update(update: PriceUpdateV2, unix_timestamp: i64, max_age: u64) -> Result<
        PythPushOraclePriceFeed,
        MarginfiError,
    > {
        if !update.verification_level.spec_gte(spec_min_verification_level()) {
            Err(MarginfiError::PythPushInsufficientVerificationLevel)
        } else if update.publish_time + max_age < unix_timestamp {
            Err(MarginfiError::PythPushStalePrice)
        } else {
            Ok(PythPushOraclePriceFeed::spec_of_update(update))
        }
    }

    /// A fully verified update that was published exactly `max_age` seconds
    /// before the reference time is accepted; one that is a second older is
    /// stale.
    pub proof fn lemma_staleness_boundary(update: PriceUpdateV2, unix_timestamp: i64, max_age: u64)
        requires
            update.verification_level == VerificationLevel::Full,
        ensures
            update.publish_time + max_age == unix_timestamp
                ==> PythPushOraclePriceFeed::spec_from_update(update, unix_timestamp, max_age)
                == Ok::<PythPushOraclePriceFeed, MarginfiError>(
                PythPushOraclePriceFeed::spec_of_update(update),
            ),
            update.publish_time + max_age + 1 == unix_timestamp
                ==> PythPushOraclePriceFeed::spec_from_update(update, unix_timestamp, max_age)
                == Err::<PythPushOraclePriceFeed, MarginfiError>(MarginfiError::PythPushStalePrice),
    {
    }

    fn of_update(update: &PriceUpdateV2) -> (r: PythPushOraclePriceFeed)
        ensures
            r == PythPushOraclePriceFeed::spec_of_update(*update),
    {
        PythPushOraclePriceFeed {
            ema_price: Price {
                price: update.ema_price,
                conf: update.ema_conf,
                exponent: update.exponent,
                publish_time: update.publish_time,
            },
            price: Price {
                price: update.price,
                conf: update.conf,
                exponent: update.exponent,
                publish_time: update.publish_time,
            },
        }
    }

    /// Checks a price update's verification and age and keeps its prices.
    pub fn from_update(update: &PriceUpdateV2, unix_timestamp: i64, max_age: u64) -> (r: Result<
        PythPushOraclePriceFeed,
        MarginfiError,
    >)
        ensures
            r == PythPushOraclePriceFeed::spec_from_update(*update, unix_timestamp, max_age),
    {
        if !update.verification_level.gte(VerificationLevel::Full) {
            return Err(MarginfiError::PythPushInsufficientVerificationLevel);
        }
        let usable_until: i128 = update.publish_time as i128 + max_age as i128;
        if usable_until < unix_timestamp as i128 {
            return Err(MarginfiError::PythPushStalePrice);
        }
        Ok(PythPushOraclePriceFeed::of_update(update))
    }

    /// The feed of a raw Pyth account at time `unix_timestamp`: the account
    /// is read as a price update, which must then pass the checks of
    /// `spec_from_update`.
    pub open spec fn spec_load_checked(data: Seq<u8>, unix_timestamp: i64, max_age: u64) -> Result<
        PythPushOraclePriceFeed,
        MarginfiError,
    > {
        match spec_load_price_update_v2(data) {
            Ok(update) => PythPushOraclePriceFeed::spec_from_update(update, unix_timestamp, max_age),
            Err(e) => Err(e),
        }
    }

    /// Reads a raw Pyth account and checks its verification and age.
    pub fn load_checked(data: &[u8], unix_timestamp: i64, max_age: u64) -> (r: Result<
        PythPushOraclePriceFeed,
        MarginfiError,
    >)
        ensures
            r == PythPushOraclePriceFeed::spec_load_checked(data@, unix_timestamp, max_age),
    {
        match load_price_update_v2_checked(data) {
            Ok(update) => PythPushOraclePriceFeed::from_update(&update, unix_timestamp, max_age),
            Err(e) => Err(e),
        }
    }

    /// The feed of a raw Pyth account without any check of verification or
    /// age.
    pub fn load_unchecked(data: &[u8]) -> (r: Result<PythPushOraclePriceFeed, MarginfiError>)
        ensures
            r == (match spec_load_price_update_v2(data@) {
                Ok(update) => Ok::<PythPushOraclePriceFeed, MarginfiError>(
                    PythPushOraclePriceFeed::spec_of_update(update),
                ),
                Err(e) => Err(e),
            }),
    {
        match load_price_update_v2_checked(data) {
            Ok(update) => Ok(PythPushOraclePriceFeed::of_update(&update)),
            Err(e) => Err(e),
        }
    }

    /// The identifier of the feed that a raw Pyth account belongs to.
    pub fn peek_feed_id(data: &[u8]) -> (r: Result<[u8; 32], MarginfiError>)
        ensures
            r == (match spec_load_price_update_v2(data@) {
                Ok(update) => Ok::<[u8; 32], MarginfiError>(update.feed_id),
                Err(e) => Err(e),
            }),
    {
        match load_price_update_v2_checked(data) {
            Ok(update) => Ok(update.feed_id),
            Err(e) => Err(e),
        }
    }

    /// Trusted: `Pubkey::try_find_program_address` with the seeds
    /// `shard_id` (two bytes, little-endian) and `feed_id` under the program
    /// `pyth_solana_receiver_sdk::PYTH_PUSH_ORACLE_ID`: the address at which
    /// the push oracle keeps the feed for that shard, with its bump seed. The
    /// derivation hashes its arguments and nothing else; the contract gives
    /// the outcome its name and claims nothing else.
    #[verifier::external_body]
    pub fn find_oracle_address(shard_id: u16, feed_id: &[u8; 32]) -> (r: Option<(Pubkey, u8)>)
        ensures
            match r {
                Some((address, bump)) => pyth_push_oracle_address(shard_id, feed_id@) == Some(
                    (address@, bump),
                ),
                None => pyth_push_oracle_address(shard_id, feed_id@) is None,
            },
    {
        let seeds: [&[u8]; 2] = [&shard_id.to_le_bytes(), feed_id];
        let program = pyth_solana_receiver_sdk::PYTH_PUSH_ORACLE_ID;
        match anchor_lang::prelude::Pubkey::try_find_program_address(&seeds, &program) {
            Some((address, bump)) => Some((Pubkey { bytes: address.to_bytes() }, bump)),
            None => None,
        }
    }

    /// The price that a query reads: the moving average for a time-weighted
    /// query, the latest price else.
    pub open spec fn spec_selected(&self, use_ema: bool) -> Price {
        if use_ema {
            self.ema_price
        } else {
            self.price
        }
    }

    /// A price's mantissa as a number.
    pub open spec fn spec_mantissa(mantissa: i64) -> I80F48 {
        I80F48 { bits: (mantissa * scale()) as i128 }
    }

    /// A price's confidence value as a number.
    pub open spec fn spec_conf(conf: u64) -> I80F48 {
        I80F48 { bits: (conf * scale()) as i128 }
    }

    /// The moving-average price in dollars.
    pub open spec fn spec_ema_price(&self) -> Result<I80F48, MarginfiError> {
        spec_pyth_price_components_to_i80f48(
            PythPushOraclePriceFeed::spec_mantissa(self.ema_price.price),
            self.ema_price.exponent,
        )
    }

    /// The latest price in dollars.
    pub open spec fn spec_unweighted_price(&self) -> Result<I80F48, MarginfiError> {
        spec_pyth_price_components_to_i80f48(
            PythPushOraclePriceFeed::spec_mantissa(self.price.price),
            self.price.exponent,
        )
    }

    /// The confidence interval applied to the selected price: the
    /// confidence value in dollars times 2.12, bounded as
    /// `spec_bounded_confidence` says.
    pub open spec fn spec_confidence_interval(&self, use_ema: bool, oracle_max_confidence: u32) -> Result<
        I80F48,
        MarginfiError,
    > {
        let selected = self.spec_selected(use_ema);
        match spec_pyth_price_components_to_i80f48(
            PythPushOraclePriceFeed::spec_conf(selected.conf),
            selected.exponent,
        ) {
            Err(e) => Err(e),
            Ok(conf) => match conf.spec_checked_mul(I80F48 { bits: CONF_INTERVAL_MULTIPLE_BITS }) {
                None => Err(MarginfiError::MathError),
                Some(conf_interval) => match spec_pyth_price_components_to_i80f48(
                    PythPushOraclePriceFeed::spec_mantissa(selected.price),
                    selected.exponent,
                ) {
                    Err(e) => Err(e),
                    Ok(price) => spec_bounded_confidence(
                        conf_interval,
                        price,
                        oracle_max_confidence,
                    ),
                },
            },
        }
    }

    /// The confidence interval applied to the selected price.
    pub fn get_confidence_interval(&self, use_ema: bool, oracle_max_confidence: u32) -> (r: Result<
        I80F48,
        MarginfiError,
    >)
        ensures
            r == self.spec_confidence_interval(use_ema, oracle_max_confidence),
    {
        let selected = if use_ema {
            &self.ema_price
        } else {
            &self.price
        };
        let conf = match pyth_price_components_to_i80f48(
            I80F48::from_u64(selected.conf),
            selected.exponent,
        ) {
            Ok(v) => v,
            Err(e) => {
                return Err(e);
            },
        };
        let conf_interval = match conf.checked_mul(I80F48::from_bits(CONF_INTERVAL_MULTIPLE_BITS)) {
            Some(v) => v,
            None => {
                return Err(MarginfiError::MathError);
            },
        };
        let price = match pyth_price_components_to_i80f48(
            I80F48::from_i64(selected.price),
            selected.exponent,
        ) {
            Ok(v) => v,
            Err(e) => {
                return Err(e);
            },
        };
        bounded_confidence(conf_interval, price, oracle_max_confidence)
    }

    /// The moving-average price in dollars.
    pub fn get_ema_price(&self) -> (r: Result<I80F48, MarginfiError>)
        ensures
            r == self.spec_ema_price(),
    {
        pyth_price_components_to_i80f48(
            I80F48::from_i64(self.ema_price.price),
            self.ema_price.exponent,
        )
    }

    /// The latest price in dollars.
    pub fn get_unweighted_price(&self) -> (r: Result<I80F48, MarginfiError>)
        ensures
            r == self.spec_unweighted_price(),
    {
        pyth_price_components_to_i80f48(I80F48::from_i64(self.price.price), self.price.exponent)
    }
}

impl PriceAdapter for PythPushOraclePriceFeed {
    open spec fn spec_price_of_type(
        &self,
        oracle_price_type: OraclePriceType,
        bias: Option<PriceBias>,
        oracle_max_confidence: u32,
    ) -> Result<I80F48, MarginfiError> {
        let use_ema = oracle_price_type == OraclePriceType::TimeWeighted;
        let base = if use_ema {
            self.spec_ema_price()
        } else {
            self.spec_unweighted_price()
        };
        match base {
            Err(e) => Err(e),
            Ok(price) => match bias {
                None => Ok(price),
                Some(price_bias) => match self.spec_confidence_interval(
                    use_ema,
                    oracle_max_confidence,
                ) {
                    Err(e) => Err(e),
                    Ok(confidence) => spec_apply_bias(price, price_bias, confidence),
                },
            },
        }
    }

    fn get_price_of_type(
        &self,
        oracle_price_type: OraclePriceType,
        bias: Option<PriceBias>,
        oracle_max_confidence: u32,
    ) -> (r: Result<I80F48, MarginfiError>) {
        let base = match oracle_price_type {
            OraclePriceType::TimeWeighted => self.get_ema_price(),
            OraclePriceType::RealTime => self.get_unweighted_price(),
        };
        let price = match base {
            Ok(v) => v,
            Err(e) => {
                return Err(e);
            },
        };
        match bias {
            None => Ok(price),
            Some(price_bias) => {
                let use_ema = matches!(oracle_price_type, OraclePriceType::TimeWeighted);
                match self.get_confidence_interval(use_ema, oracle_max_confidence) {
                    Ok(confidence) => apply_bias(price, price_bias, confidence),
                    Err(e) => Err(e),
                }
            },
        }
    }
}

/// The aggregate that a Switchboard feed last settled on. Values are
/// integers in units of `10^-18`.
#[derive(Clone, Copy, Debug, PartialEq, Eq, Structural)]
pub struct CurrentResult {
    /// Median of the oracles' submissions.
    pub value: i128,
    /// Standard deviation of the submissions.
    pub std_dev: i128,
    /// Mean of the submissions.
    pub mean: i128,
    /// Slot at which the value was signed.
    pub slot: u64,
}

/// What a Switchboard pull feed holds, as far as pricing reads it.
#[derive(Clone, Copy, Debug)]
pub struct LitePullFeedAccountData {
    pub result: CurrentResult,
    pub feed_hash: [u8; 32],
    /// Unix time in seconds of the feed's last update.
    pub last_update_timestamp: i64,
}

/// What `switchboard_on_demand` reads as a pull feed from the bytes of one
/// record, or `None` where the bytes are not one record.
pub uninterp spec fn switchboard_pull_feed(body: Seq<u8>) -> Option<LitePullFeedAccountData>;

/// Trusted: `bytemuck::try_pod_read_unaligned` at the type
/// `switchboard_on_demand::PullFeedAccountData`, reduced to the fields kept
/// here. The read copies the bytes into the record and fails exactly when
/// their number is not the record's size, which is 3200 for this layout; the
/// record read depends on the bytes alone and gets its name.
#[verifier::external_body]
fn read_pull_feed(body: &[u8]) -> (r: Option<LitePullFeedAccountData>)
    ensures
        r == switchboard_pull_feed(body@),
        r is Some <==> body@.len() == SWITCHBOARD_PULL_FEED_SIZE,
{
    let feed = match bytemuck::try_pod_read_unaligned::<PullFeedAccountData>(body) {
        Ok(feed) => feed,
        Err(_) => return None,
    };
    let r = feed.result;
    let result = CurrentResult { value: r.value, std_dev: r.std_dev, mean: r.mean, slot: r.slot };
    let (feed_hash, last_update_timestamp) = (feed.feed_hash, feed.last_update_timestamp);
    Some(LitePullFeedAccountData { result, feed_hash, last_update_timestamp })
}

/// The pull feed in an account buffer: the buffer must start with the pull
/// feed's type tag and hold a whole record behind it; bytes after the record
/// are not looked at.
pub open spec fn spec_parse_swb(data: Seq<u8>) -> Result<LitePullFeedAccountData, MarginfiError> {
    if !spec_has_discriminator(data, SWITCHBOARD_PULL_FEED_DISCRIMINATOR@) || data.len() < 8
        + SWITCHBOARD_PULL_FEED_SIZE {
        Err(MarginfiError::SwitchboardInvalidAccount)
    } else {
        match switchboard_pull_feed(data.subrange(8, 8 + SWITCHBOARD_PULL_FEED_SIZE)) {
            Some(feed) => Ok(feed),
            None => Err(MarginfiError::SwitchboardInvalidAccount),
        }
    }
}

/// Reads a Switchboard pull feed out of a raw account buffer, wherever the
/// buffer lies in memory.
///
/// Succeeds exactly when the buffer starts with the pull feed's type tag and
/// is long enough for a record; every other buffer is
/// `SwitchboardInvalidAccount`.
pub fn parse_swb_ignore_alignment(data: &[u8]) -> (r: Result<
    LitePullFeedAccountData,
    MarginfiError,
>)
    ensures
        r == spec_parse_swb(data@),
        r is Ok <==> spec_has_discriminator(data@, SWITCHBOARD_PULL_FEED_DISCRIMINATOR@)
            && data@.len() >= 8 + SWITCHBOARD_PULL_FEED_SIZE,
{
    if !has_discriminator(data, &SWITCHBOARD_PULL_FEED_DISCRIMINATOR) {
        return Err(MarginfiError::SwitchboardInvalidAccount);
    }
    if data.len() < 8 + SWITCHBOARD_PULL_FEED_SIZE {
        return Err(MarginfiError::SwitchboardInvalidAccount);
    }
    match read_pull_feed(slice_subrange(data, 8, 8 + SWITCHBOARD_PULL_FEED_SIZE)) {
        Some(feed) => Ok(feed),
        None => Err(MarginfiError::SwitchboardInvalidAccount),
    }
}

/// A Switchboard feed that passed its checks.
#[derive(Clone, Copy, Debug)]
pub struct SwitchboardPullPriceFeed {
    pub feed: LitePullFeedAccountData,
}

impl SwitchboardPullPriceFeed {
    /// The feed at time `current_timestamp`: it must not have been updated
    /// more than `max_age` seconds before.
    pub open spec fn spec_from_feed(
        feed: LitePullFeedAccountData,
        current_timestamp: i64,
        max_age: u64,
    ) -> Result<SwitchboardPullPriceFeed, MarginfiError> {
        if current_timestamp - feed.last_update_timestamp > max_age {
            Err(MarginfiError::SwitchboardStalePrice)
        } else {
            Ok(SwitchboardPullPriceFeed { feed })
        }
    }

    /// Checks a feed's age and keeps it.
    pub fn from_feed(feed: LitePullFeedAccountData, current_timestamp: i64, max_age: u64) -> (r:
        Result<SwitchboardPullPriceFeed, MarginfiError>)
        ensures
            r == SwitchboardPullPriceFeed::spec_from_feed(feed, current_timestamp, max_age),
    {
        let age: i128 = current_timestamp as i128 - feed.last_update_timestamp as i128;
        if age > max_age as i128 {
            return Err(MarginfiError::SwitchboardStalePrice);
        }
        Ok(SwitchboardPullPriceFeed { feed })
    }

    /// The feed of a raw Switchboard account at time `current_timestamp`:
    /// the account is read as a pull feed, which must then be fresh.
    pub open spec fn spec_load_checked(data: Seq<u8>, current_timestamp: i64, max_age: u64) -> Result<
        SwitchboardPullPriceFeed,
        MarginfiError,
    > {
        match spec_parse_swb(data) {
            Ok(feed) => SwitchboardPullPriceFeed::spec_from_feed(feed, current_timestamp, max_age),
            Err(e) => Err(e),
        }
    }

    /// Reads a raw Switchboard account and checks its age.
    pub fn load_checked(data: &[u8], current_timestamp: i64, max_age: u64) -> (r: Result<
        SwitchboardPullPriceFeed,
        MarginfiError,
    >)
        ensures
            r == SwitchboardPullPriceFeed::spec_load_checked(data@, current_timestamp, max_age),
    {
        match parse_swb_ignore_alignment(data) {
            Ok(feed) => SwitchboardPullPriceFeed::from_feed(feed, current_timestamp, max_age),
            Err(e) => Err(e),
        }
    }

    /// Whether a raw account is a Switchboard pull feed.
    pub fn check_ais(data: &[u8]) -> (r: Result<(), MarginfiError>)
        ensures
            r is Ok <==> spec_parse_swb(data@) is Ok,
            r matches Err(e) ==> e == MarginfiError::SwitchboardInvalidAccount,
    {
        match parse_swb_ignore_alignment(data) {
            Ok(_) => Ok(()),
            Err(e) => Err(e),
        }
    }

    /// A Switchboard integer in dollars: the integer as a number, divided
    /// by `10^18`.
    pub open spec fn spec_scaled(raw: i128) -> Result<I80F48, MarginfiError> {
        match I80F48::spec_from_int(raw as int) {
            None => Err(MarginfiError::MathError),
            Some(wide) => match spec_exp10(SWITCHBOARD_PRECISION as nat) {
                None => Err(MarginfiError::MathError),
                Some(unit) => spec_or_math_error(wide.spec_checked_div(unit)),
            },
        }
    }

    /// The feed's price in dollars: its median value.
    pub open spec fn spec_price(&self) -> Result<I80F48, MarginfiError> {
        SwitchboardPullPriceFeed::spec_scaled(self.feed.result.value)
    }

    /// The confidence interval applied to the price: the standard deviation
    /// in dollars times 1.96, bounded as `spec_bounded_confidence` says.
    pub open spec fn spec_confidence_interval(&self, oracle_max_confidence: u32) -> Result<
        I80F48,
        MarginfiError,
    > {
        match SwitchboardPullPriceFeed::spec_scaled(self.feed.result.std_dev) {
            Err(e) => Err(e),
            Ok(deviation) => match deviation.spec_checked_mul(I80F48 { bits: STD_DEV_MULTIPLE_BITS }) {
                None => Err(MarginfiError::MathError),
                Some(conf_interval) => match self.spec_price() {
                    Err(e) => Err(e),
                    Ok(price) => spec_bounded_confidence(
                        conf_interval,
                        price,
                        oracle_max_confidence,
                    ),
                },
            },
        }
    }

    fn scaled(raw: i128) -> (r: Result<I80F48, MarginfiError>)
        ensures
            r == SwitchboardPullPriceFeed::spec_scaled(raw),
    {
        let wide = match I80F48::checked_from_i128(raw) {
            Some(v) => v,
            None => {
                return Err(MarginfiError::MathError);
            },
        };
        let unit = match I80F48::exp10(SWITCHBOARD_PRECISION) {
            Some(v) => v,
            None => {
                return Err(MarginfiError::MathError);
            },
        };
        match wide.checked_div(unit) {
            Some(v) => Ok(v),
            None => Err(MarginfiError::MathError),
        }
    }

    /// The feed's price in dollars.
    pub fn get_price(&self) -> (r: Result<I80F48, MarginfiError>)
        ensures
            r == self.spec_price(),
    {
        SwitchboardPullPriceFeed::scaled(self.feed.result.value)
    }

    /// The confidence interval applied to the price.
    pub fn get_confidence_interval(&self, oracle_max_confidence: u32) -> (r: Result<
        I80F48,
        MarginfiError,
    >)
        ensures
            r == self.spec_confidence_interval(oracle_max_confidence),
    {
        let deviation = match SwitchboardPullPriceFeed::scaled(self.feed.result.std_dev) {
            Ok(v) => v,
            Err(e) => {
                return Err(e);
            },
        };
        let conf_interval = match deviation.checked_mul(I80F48::from_bits(STD_DEV_MULTIPLE_BITS)) {
            Some(v) => v,
            None => {
                return Err(MarginfiError::MathError);
            },
        };
        let price = match self.get_price() {
            Ok(v) => v,
            Err(e) => {
                return Err(e);
            },
        };
        bounded_confidence(conf_interval, price, oracle_max_confidence)
    }
}

impl PriceAdapter for SwitchboardPullPriceFeed {
    /// The feed has one price; the query's price type is not looked at.
    open spec fn spec_price_of_type(
        &self,
        oracle_price_type: OraclePriceType,
        bias: Option<PriceBias>,
        oracle_max_confidence: u32,
    ) -> Result<I80F48, MarginfiError> {
        match self.spec_price() {
            Err(e) => Err(e),
            Ok(price) => match bias {
                None => Ok(price),
                Some(price_bias) => match self.spec_confidence_interval(oracle_max_confidence) {
                    Err(e) => Err(e),
                    Ok(confidence) => spec_apply_bias(price, price_bias, confidence),
                },
            },
        }
    }

    fn get_price_of_type(
        &self,
        _price_type: OraclePriceType,
        bias: Option<PriceBias>,
        oracle_max_confidence: u32,
    ) -> (r: Result<I80F48, MarginfiError>) {
        let price = match self.get_price() {
            Ok(v) => v,
            Err(e) => {
                return Err(e);
            },
        };
        match bias {
            None => Ok(price),
            Some(price_bias) => match self.get_confidence_interval(oracle_max_confidence) {
                Ok(confidence) => apply_bias(price, price_bias, confidence),
                Err(e) => Err(e),
            },
        }
    }
}

/// What a stake account says of its delegation.
#[derive(Clone, Copy, Debug, PartialEq, Eq, Structural)]
pub enum StakeAccount {
    /// The bytes are no stake account.
    Unreadable,
    /// The account is not a delegated stake.
    NotDelegated,
    /// The account delegates `stake` lamports.
    Delegated { stake: u64 },
}

/// What `solana_stake_interface` reads as a stake account from the front of
/// some bytes, reduced to the delegated amount.
pub uninterp spec fn stake_account(data: Seq<u8>) -> StakeAccount;

/// Trusted: the Borsh deserialisation of
/// `solana_stake_interface::state::StakeStateV2` from the front of `data`,
/// bytes left over being ignored. Of a state in the `Stake` variant the
/// delegation's amount is kept. The result depends on the bytes alone; the
/// contract gives it its name and claims nothing else.
#[verifier::external_body]
fn read_stake_account(data: &[u8]) -> (r: StakeAccount)
    ensures
        r == stake_account(data@),
{
    let mut rest = data;
    match StakeStateV2::deserialize(&mut rest) {
        Ok(StakeStateV2::Stake(_, stake, _)) => StakeAccount::Delegated { stake: stake.delegation.stake },
        Ok(StakeStateV2::Uninitialized) => StakeAccount::NotDelegated,
        Ok(StakeStateV2::Initialized(_)) => StakeAccount::NotDelegated,
        Ok(StakeStateV2::RewardsPool) => StakeAccount::NotDelegated,
        Err(_) => StakeAccount::Unreadable,
    }
}

/// The raw accounts that a bank's oracle kind needs.
#[derive(Debug)]
pub enum OracleAccounts {
    /// No account: the price is fixed in the bank's configuration.
    NoAccounts,
    PythPush { price: Vec<u8> },
    SwitchboardPull { oracle: Vec<u8> },
    /// A Pyth feed for the staked asset, the supply of the liquid staking
    /// token and the pool's stake account.
    StakedWithPythPush { price: Vec<u8>, lst_mint_supply: u64, stake_state: Vec<u8> },
    /// A Pyth feed for the reserve's token and the reserve's account.
    KaminoPythPush { price: Vec<u8>, reserve: Vec<u8> },
    /// A Switchboard feed for the reserve's token and the reserve's account.
    KaminoSwitchboardPull { oracle: Vec<u8>, reserve: Vec<u8> },
}

/// The number of accounts that an oracle kind reads, taken from the front of
/// the bank's oracle keys; or why the kind cannot be served.
pub open spec fn spec_required_key_count(setup: OracleSetup) -> Result<nat, MarginfiError> {
    match setup {
        OracleSetup::NoOracle => Err(MarginfiError::OracleNotSetup),
        OracleSetup::PythLegacy => Err(MarginfiError::Deprecated),
        OracleSetup::SwitchboardV2 => Err(MarginfiError::Deprecated),
        OracleSetup::Unknown(_) => Err(MarginfiError::Deprecated),
        OracleSetup::PythPushOracle => Ok(1),
        OracleSetup::SwitchboardPull => Ok(1),
        OracleSetup::StakedWithPythPush => Ok(3),
        OracleSetup::KaminoPythPush => Ok(2),
        OracleSetup::KaminoSwitchboardPull => Ok(2),
        OracleSetup::Fixed => Ok(0),
    }
}

/// Whether `accounts` are the accounts of the oracle kind `setup`; or why
/// the kind cannot be served.
pub open spec fn spec_accounts_match(setup: OracleSetup, accounts: OracleAccounts) -> Result<
    (),
    MarginfiError,
> {
    match spec_required_key_count(setup) {
        Err(e) => Err(e),
        Ok(_) => {
            let fit = match setup {
                OracleSetup::PythPushOracle => accounts is PythPush,
                OracleSetup::SwitchboardPull => accounts is SwitchboardPull,
                OracleSetup::StakedWithPythPush => accounts is StakedWithPythPush,
                OracleSetup::KaminoPythPush => accounts is KaminoPythPush,
                OracleSetup::KaminoSwitchboardPull => accounts is KaminoSwitchboardPull,
                _ => accounts is NoAccounts,
            };
            if fit {
                Ok(())
            } else {
                Err(MarginfiError::MissingOracleAccount)
            }
        },
    }
}

/// All that resolving one bank's price needs: the bank, its oracle's raw
/// accounts, the reference time and the age up to which a price counts.
#[derive(Debug)]
pub struct OraclePriceFeedAdapterConfig {
    pub bank: Bank,
    pub accounts: OracleAccounts,
    /// Unix time in seconds against which ages are measured.
    pub unix_timestamp: i64,
    pub max_age: u64,
}

impl OraclePriceFeedAdapterConfig {
    /// The keys of the accounts that must be fetched for a bank, in the
    /// order in which the oracle kind reads them.
    pub fn required_oracle_keys(config: &BankConfig) -> (r: Result<Vec<Pubkey>, MarginfiError>)
        ensures
            match r {
                Ok(keys) => spec_required_key_count(config.oracle_setup) == Ok::<
                    nat,
                    MarginfiError,
                >(keys@.len()) && forall|i: int|
                    0 <= i < keys@.len() ==> (#[trigger] keys@[i])@ == config.oracle_keys@[i]@,
                Err(e) => spec_required_key_count(config.oracle_setup) == Err::<
                    nat,
                    MarginfiError,
                >(e),
            },
    {
        let count: usize = match config.oracle_setup {
            OracleSetup::NoOracle => {
                return Err(MarginfiError::OracleNotSetup);
            },
            OracleSetup::PythLegacy => {
                return Err(MarginfiError::Deprecated);
            },
            OracleSetup::SwitchboardV2 => {
                return Err(MarginfiError::Deprecated);
            },
            OracleSetup::Unknown(_) => {
                return Err(MarginfiError::Deprecated);
            },
            OracleSetup::PythPushOracle => 1,
            OracleSetup::SwitchboardPull => 1,
            OracleSetup::StakedWithPythPush => 3,
            OracleSetup::KaminoPythPush => 2,
            OracleSetup::KaminoSwitchboardPull => 2,
            OracleSetup::Fixed => 0,
        };
        let mut keys: Vec<Pubkey> = Vec::new();
        let mut i: usize = 0;
        while i < count
            invariant
                i <= count <= 3,
                keys@.len() == i,
                forall|j: int| 0 <= j < i ==> (#[trigger] keys@[j])@ == config.oracle_keys@[j]@,
            decreases count - i,
        {
            keys.push(config.oracle_keys[i]);
            i += 1;
        }
        Ok(keys)
    }

    /// Puts a bank and its fetched oracle accounts together, with an
    /// explicit maximum age. Fails where the bank's oracle kind cannot be
    /// served or the accounts are not those of the kind.
    pub fn load_with_clock_and_max_age(
        bank: &Bank,
        accounts: OracleAccounts,
        unix_timestamp: i64,
        max_age: u64,
    ) -> (r: Result<OraclePriceFeedAdapterConfig, MarginfiError>)
        ensures
            match r {
                Ok(config) => spec_accounts_match(bank.config.oracle_setup, accounts) is Ok
                    && config == (OraclePriceFeedAdapterConfig {
                    bank: *bank,
                    accounts,
                    unix_timestamp,
                    max_age,
                }),
                Err(e) => spec_accounts_match(bank.config.oracle_setup, accounts) == Err::<
                    (),
                    MarginfiError,
                >(e),
            },
    {
        let fit = match bank.config.oracle_setup {
            OracleSetup::NoOracle => {
                return Err(MarginfiError::OracleNotSetup);
            },
            OracleSetup::PythLegacy => {
                return Err(MarginfiError::Deprecated);
            },
            OracleSetup::SwitchboardV2 => {
                return Err(MarginfiError::Deprecated);
            },
            OracleSetup::Unknown(_) => {
                return Err(MarginfiError::Deprecated);
            },
            OracleSetup::PythPushOracle => matches!(accounts, OracleAccounts::PythPush { .. }),
            OracleSetup::SwitchboardPull => matches!(accounts, OracleAccounts::SwitchboardPull { .. }),
            OracleSetup::StakedWithPythPush => matches!(
                accounts,
                OracleAccounts::StakedWithPythPush { .. }
            ),
            OracleSetup::KaminoPythPush => matches!(accounts, OracleAccounts::KaminoPythPush { .. }),
            OracleSetup::KaminoSwitchboardPull => matches!(
                accounts,
                OracleAccounts::KaminoSwitchboardPull { .. }
            ),
            OracleSetup::Fixed => matches!(accounts, OracleAccounts::NoAccounts),
        };
        if !fit {
            return Err(MarginfiError::MissingOracleAccount);
        }
        Ok(OraclePriceFeedAdapterConfig { bank: *bank, accounts, unix_timestamp, max_age })
    }

    /// As `load_with_clock_and_max_age`, with the maximum age that the
    /// bank's configuration gives.
    pub fn load_with_clock(bank: &Bank, accounts: OracleAccounts, unix_timestamp: i64) -> (r: Result<
        OraclePriceFeedAdapterConfig,
        MarginfiError,
    >)
        ensures
            match r {
                Ok(config) => spec_accounts_match(bank.config.oracle_setup, accounts) is Ok
                    && config == (OraclePriceFeedAdapterConfig {
                    bank: *bank,
                    accounts,
                    unix_timestamp,
                    max_age: bank.config.spec_oracle_max_age(),
                }),
                Err(e) => spec_accounts_match(bank.config.oracle_setup, accounts) == Err::<
                    (),
                    MarginfiError,
                >(e),
            },
    {
        OraclePriceFeedAdapterConfig::load_with_clock_and_max_age(
            bank,
            accounts,
            unix_timestamp,
            bank.config.get_oracle_max_age(),
        )
    }
}

/// A mantissa rescaled by a stake pool: `mantissa * pool_balance / supply`,
/// rounded toward zero, where that is still a 64-bit mantissa. `supply` is
/// not zero.
pub open spec fn spec_scale_by_pool(mantissa: i64, pool_balance: u64, supply: u64) -> Result<
    i64,
    MarginfiError,
> {
    let scaled = trunc_div(mantissa * pool_balance, supply as int);
    if i64::MIN <= scaled <= i64::MAX {
        Ok(scaled as i64)
    } else {
        Err(MarginfiError::MathError)
    }
}

/// Rescales a mantissa by a stake pool's balance over its token's supply.
pub fn scale_by_pool(mantissa: i64, pool_balance: u64, supply: u64) -> (r: Result<
    i64,
    MarginfiError,
>)
    requires
        supply != 0,
    ensures
        r == spec_scale_by_pool(mantissa, pool_balance, supply),
{
    assert(i128::MIN <= mantissa * pool_balance <= i128::MAX) by (nonlinear_arith)
        requires
            i64::MIN <= mantissa <= i64::MAX,
            0 <= pool_balance <= u64::MAX,
    ;
    let product: i128 = mantissa as i128 * pool_balance as i128;
    let scaled: i128 = match product.checked_div(supply as i128) {
        Some(v) => v,
        None => {
            return Err(MarginfiError::MathError);
        },
    };
    if scaled < i64::MIN as i128 || scaled > i64::MAX as i128 {
        return Err(MarginfiError::MathError);
    }
    Ok(scaled as i64)
}

impl PythPushOraclePriceFeed {
    /// The feed of a staked asset: both mantissas rescaled by the pool's
    /// balance over the token's supply; the confidence values stay.
    pub open spec fn spec_scaled_by_pool(self, pool_balance: u64, supply: u64) -> Result<
        PythPushOraclePriceFeed,
        MarginfiError,
    > {
        match spec_scale_by_pool(self.price.price, pool_balance, supply) {
            Err(e) => Err(e),
            Ok(price) => match spec_scale_by_pool(self.ema_price.price, pool_balance, supply) {
                Err(e) => Err(e),
                Ok(ema) => Ok(
                    PythPushOraclePriceFeed {
                        price: Price { price, ..self.price },
                        ema_price: Price { price: ema, ..self.ema_price },
                    },
                ),
            },
        }
    }

    /// The feed with both mantissas rescaled by the pool's balance over the
    /// token's supply.
    pub fn scaled_by_pool(self, pool_balance: u64, supply: u64) -> (r: Result<
        PythPushOraclePriceFeed,
        MarginfiError,
    >)
        requires
            supply != 0,
        ensures
            r == self.spec_scaled_by_pool(pool_balance, supply),
    {
        let price = match scale_by_pool(self.price.price, pool_balance, supply) {
            Ok(v) => v,
            Err(e) => {
                return Err(e);
            },
        };
        let ema = match scale_by_pool(self.ema_price.price, pool_balance, supply) {
            Ok(v) => v,
            Err(e) => {
                return Err(e);
            },
        };
        Ok(
            PythPushOraclePriceFeed {
                price: Price {
                    price,
                    conf: self.price.conf,
                    exponent: self.price.exponent,
                    publish_time: self.price.publish_time,
                },
                ema_price: Price {
                    price: ema,
                    conf: self.ema_price.conf,
                    exponent: self.ema_price.exponent,
                    publish_time: self.ema_price.publish_time,
                },
            },
        )
    }

    /// The feed with mantissas and confidence values rescaled by a ratio.
    pub open spec fn spec_scaled_by_ratio(self, ratio: I80F48) -> Result<
        PythPushOraclePriceFeed,
        MarginfiError,
    > {
        match spec_adjust_i64(self.price.price, ratio) {
            Err(e) => Err(e),
            Ok(price) => match spec_adjust_i64(self.ema_price.price, ratio) {
                Err(e) => Err(e),
                Ok(ema) => match spec_adjust_u64(self.price.conf, ratio) {
                    Err(e) => Err(e),
                    Ok(conf) => match spec_adjust_u64(self.ema_price.conf, ratio) {
                        Err(e) => Err(e),
                        Ok(ema_conf) => Ok(
                            PythPushOraclePriceFeed {
                                price: Price { price, conf, ..self.price },
                                ema_price: Price { price: ema, conf: ema_conf, ..self.ema_price },
                            },
                        ),
                    },
                },
            },
        }
    }

    /// The feed with mantissas and confidence values rescaled by a ratio.
    pub fn scaled_by_ratio(self, ratio: I80F48) -> (r: Result<
        PythPushOraclePriceFeed,
        MarginfiError,
    >)
        ensures
            r == self.spec_scaled_by_ratio(ratio),
    {
        let price = match adjust_i64(self.price.price, ratio) {
            Ok(v) => v,
            Err(e) => {
                return Err(e);
            },
        };
        let ema = match adjust_i64(self.ema_price.price, ratio) {
            Ok(v) => v,
            Err(e) => {
                return Err(e);
            },
        };
        let conf = match adjust_u64(self.price.conf, ratio) {
            Ok(v) => v,
            Err(e) => {
                return Err(e);
            },
        };
        let ema_conf = match adjust_u64(self.ema_price.conf, ratio) {
            Ok(v) => v,
            Err(e) => {
                return Err(e);
            },
        };
        Ok(
            PythPushOraclePriceFeed {
                price: Price {
                    price,
                    conf,
                    exponent: self.price.exponent,
                    publish_time: self.price.publish_time,
                },
                ema_price: Price {
                    price: ema,
                    conf: ema_conf,
                    exponent: self.ema_price.exponent,
                    publish_time: self.ema_price.publish_time,
                },
            },
        )
    }
}

impl SwitchboardPullPriceFeed {
    /// The feed with value and standard deviation rescaled by a ratio.
    pub open spec fn spec_scaled_by_ratio(self, ratio: I80F48) -> Result<
        SwitchboardPullPriceFeed,
        MarginfiError,
    > {
        match spec_adjust_i128(self.feed.result.value, ratio) {
            Err(e) => Err(e),
            Ok(value) => match spec_adjust_i128(self.feed.result.std_dev, ratio) {
                Err(e) => Err(e),
                Ok(std_dev) => Ok(
                    SwitchboardPullPriceFeed {
                        feed: LitePullFeedAccountData {
                            result: CurrentResult { value, std_dev, ..self.feed.result },
                            ..self.feed
                        },
                    },
                ),
            },
        }
    }

    /// The feed with value and standard deviation rescaled by a ratio.
    pub fn scaled_by_ratio(self, ratio: I80F48) -> (r: Result<
        SwitchboardPullPriceFeed,
        MarginfiError,
    >)
        ensures
            r == self.spec_scaled_by_ratio(ratio),
    {
        let value = match adjust_i128(self.feed.result.value, ratio) {
            Ok(v) => v,
            Err(e) => {
                return Err(e);
            },
        };
        let std_dev = match adjust_i128(self.feed.result.std_dev, ratio) {
            Ok(v) => v,
            Err(e) => {
                return Err(e);
            },
        };
        Ok(
            SwitchboardPullPriceFeed {
                feed: LitePullFeedAccountData {
                    result: CurrentResult {
                        value,
                        std_dev,
                        mean: self.feed.result.mean,
                        slot: self.feed.result.slot,
                    },
                    feed_hash: self.feed.feed_hash,
                    last_update_timestamp: self.feed.last_update_timestamp,
                },
            },
        )
    }
}

/// The price feed of one bank: one of the closed set of kinds.
#[derive(Clone, Copy, Debug)]
pub enum OraclePriceFeedAdapter {
    PythPushOracle(PythPushOraclePriceFeed),
    SwitchboardPull(SwitchboardPullPriceFeed),
    Fixed(FixedPriceFeed),
}

impl PriceAdapter for OraclePriceFeedAdapter {
    /// The answer of the feed inside.
    open spec fn spec_price_of_type(
        &self,
        oracle_price_type: OraclePriceType,
        bias: Option<PriceBias>,
        oracle_max_confidence: u32,
    ) -> Result<I80F48, MarginfiError> {
        match *self {
            OraclePriceFeedAdapter::PythPushOracle(feed) => feed.spec_price_of_type(
                oracle_price_type,
                bias,
                oracle_max_confidence,
            ),
            OraclePriceFeedAdapter::SwitchboardPull(feed) => feed.spec_price_of_type(
                oracle_price_type,
                bias,
                oracle_max_confidence,
            ),
            OraclePriceFeedAdapter::Fixed(feed) => feed.spec_price_of_type(
                oracle_price_type,
                bias,
                oracle_max_confidence,
            ),
        }
    }

    fn get_price_of_type(
        &self,
        oracle_price_type: OraclePriceType,
        bias: Option<PriceBias>,
        oracle_max_confidence: u32,
    ) -> (r: Result<I80F48, MarginfiError>) {
        match self {
            OraclePriceFeedAdapter::PythPushOracle(feed) => feed.get_price_of_type(
                oracle_price_type,
                bias,
                oracle_max_confidence,
            ),
            OraclePriceFeedAdapter::SwitchboardPull(feed) => feed.get_price_of_type(
                oracle_price_type,
                bias,
                oracle_max_confidence,
            ),
            OraclePriceFeedAdapter::Fixed(feed) => feed.get_price_of_type(
                oracle_price_type,
                bias,
                oracle_max_confidence,
            ),
        }
    }
}

impl OraclePriceFeedAdapter {
    /// The feed of a bank with a fixed price: the configured price, which
    /// must not be negative.
    pub open spec fn spec_fixed(price: I80F48) -> Result<OraclePriceFeedAdapter, MarginfiError> {
        if price.bits < 0 {
            Err(MarginfiError::FixedOraclePriceNegative)
        } else {
            Ok(OraclePriceFeedAdapter::Fixed(FixedPriceFeed { price }))
        }
    }

    /// A Pyth feed as a bank's feed.
    pub open spec fn spec_pyth(feed: Result<PythPushOraclePriceFeed, MarginfiError>) -> Result<
        OraclePriceFeedAdapter,
        MarginfiError,
    > {
        match feed {
            Ok(f) => Ok(OraclePriceFeedAdapter::PythPushOracle(f)),
            Err(e) => Err(e),
        }
    }

    /// A Switchboard feed as a bank's feed.
    pub open spec fn spec_switchboard(
        feed: Result<SwitchboardPullPriceFeed, MarginfiError>,
    ) -> Result<OraclePriceFeedAdapter, MarginfiError> {
        match feed {
            Ok(f) => Ok(OraclePriceFeedAdapter::SwitchboardPull(f)),
            Err(e) => Err(e),
        }
    }

    /// The feed of a staked asset, given what the pool's stake account says.
    ///
    /// The pool must be a delegated stake of at least one SOL; that one SOL
    /// is the pool's own and backs no token. The Pyth feed must pass its
    /// checks, the token must have a supply, and the feed's mantissas are
    /// rescaled by the remaining stake over the supply.
    pub open spec fn spec_staked(
        stake: StakeAccount,
        price: Seq<u8>,
        lst_mint_supply: u64,
        unix_timestamp: i64,
        max_age: u64,
    ) -> Result<OraclePriceFeedAdapter, MarginfiError> {
        match stake {
            StakeAccount::Unreadable => Err(MarginfiError::AccountDidNotDeserialize),
            StakeAccount::NotDelegated => Err(MarginfiError::Deprecated),
            StakeAccount::Delegated { stake } => if stake < LAMPORTS_PER_SOL {
                Err(MarginfiError::MathError)
            } else {
                match PythPushOraclePriceFeed::spec_load_checked(price, unix_timestamp, max_age) {
                    Err(e) => Err(e),
                    Ok(feed) => if lst_mint_supply == 0 {
                        Err(MarginfiError::ZeroSupplyInStakePool)
                    } else {
                        OraclePriceFeedAdapter::spec_pyth(
                            feed.spec_scaled_by_pool(
                                (stake - LAMPORTS_PER_SOL) as u64,
                                lst_mint_supply,
                            ),
                        )
                    },
                }
            },
        }
    }

    /// The Pyth feed of a reserve's collateral token: the feed of the
    /// reserve's token, rescaled by the reserve's ratio where it has one.
    pub open spec fn spec_kamino_pyth(
        price: Seq<u8>,
        reserve: Seq<u8>,
        unix_timestamp: i64,
        max_age: u64,
    ) -> Result<OraclePriceFeedAdapter, MarginfiError> {
        match PythPushOraclePriceFeed::spec_load_checked(price, unix_timestamp, max_age) {
            Err(e) => Err(e),
            Ok(feed) => match spec_ratio_of_reserve(reserve) {
                Err(e) => Err(e),
                Ok(None) => Ok(OraclePriceFeedAdapter::PythPushOracle(feed)),
                Ok(Some(ratio)) => OraclePriceFeedAdapter::spec_pyth(
                    feed.spec_scaled_by_ratio(ratio),
                ),
            },
        }
    }

    /// The Switchboard feed of a reserve's collateral token.
    pub open spec fn spec_kamino_switchboard(
        oracle: Seq<u8>,
        reserve: Seq<u8>,
        current_timestamp: i64,
        max_age: u64,
    ) -> Result<OraclePriceFeedAdapter, MarginfiError> {
        match SwitchboardPullPriceFeed::spec_load_checked(oracle, current_timestamp, max_age) {
            Err(e) => Err(e),
            Ok(feed) => match spec_ratio_of_reserve(reserve) {
                Err(e) => Err(e),
                Ok(None) => Ok(OraclePriceFeedAdapter::SwitchboardPull(feed)),
                Ok(Some(ratio)) => OraclePriceFeedAdapter::spec_switchboard(
                    feed.spec_scaled_by_ratio(ratio),
                ),
            },
        }
    }

    /// The feed that a bank's accounts resolve to at the configured time.
    pub open spec fn spec_try_from_config(config: OraclePriceFeedAdapterConfig) -> Result<
        OraclePriceFeedAdapter,
        MarginfiError,
    > {
        match config.accounts {
            OracleAccounts::NoAccounts => OraclePriceFeedAdapter::spec_fixed(
                spec_decode(config.bank.config.fixed_price@),
            ),
            OracleAccounts::PythPush { price } => OraclePriceFeedAdapter::spec_pyth(
                PythPushOraclePriceFeed::spec_load_checked(
                    price@,
                    config.unix_timestamp,
                    config.max_age,
                ),
            ),
            OracleAccounts::SwitchboardPull { oracle } => OraclePriceFeedAdapter::spec_switchboard(
                SwitchboardPullPriceFeed::spec_load_checked(
                    oracle@,
                    config.unix_timestamp,
                    config.max_age,
                ),
            ),
            OracleAccounts::StakedWithPythPush {
                price,
                lst_mint_supply,
                stake_state,
            } => OraclePriceFeedAdapter::spec_staked(
                stake_account(stake_state@),
                price@,
                lst_mint_supply,
                config.unix_timestamp,
                config.max_age,
            ),
            OracleAccounts::KaminoPythPush { price, reserve } => OraclePriceFeedAdapter::spec_kamino_pyth(
                price@,
                reserve@,
                config.unix_timestamp,
                config.max_age,
            ),
            OracleAccounts::KaminoSwitchboardPull {
                oracle,
                reserve,
            } => OraclePriceFeedAdapter::spec_kamino_switchboard(
                oracle@,
                reserve@,
                config.unix_timestamp,
                config.max_age,
            ),
        }
    }

    fn pyth(feed: Result<PythPushOraclePriceFeed, MarginfiError>) -> (r: Result<
        OraclePriceFeedAdapter,
        MarginfiError,
    >)
        ensures
            r == OraclePriceFeedAdapter::spec_pyth(feed),
    {
        match feed {
            Ok(f) => Ok(OraclePriceFeedAdapter::PythPushOracle(f)),
            Err(e) => Err(e),
        }
    }

    fn switchboard(feed: Result<SwitchboardPullPriceFeed, MarginfiError>) -> (r: Result<
        OraclePriceFeedAdapter,
        MarginfiError,
    >)
        ensures
            r == OraclePriceFeedAdapter::spec_switchboard(feed),
    {
        match feed {
            Ok(f) => Ok(OraclePriceFeedAdapter::SwitchboardPull(f)),
            Err(e) => Err(e),
        }
    }

    /// The feed of a staked asset from what was read of the pool's stake
    /// account, the raw Pyth account and the token's supply.
    pub fn staked(
        stake: StakeAccount,
        price: &[u8],
        lst_mint_supply: u64,
        unix_timestamp: i64,
        max_age: u64,
    ) -> (r: Result<OraclePriceFeedAdapter, MarginfiError>)
        ensures
            r == OraclePriceFeedAdapter::spec_staked(
                stake,
                price@,
                lst_mint_supply,
                unix_timestamp,
                max_age,
            ),
    {
        let sol_pool_balance = match stake {
            StakeAccount::Unreadable => {
                return Err(MarginfiError::AccountDidNotDeserialize);
            },
            StakeAccount::NotDelegated => {
                return Err(MarginfiError::Deprecated);
            },
            StakeAccount::Delegated { stake } => stake,
        };
        let sol_pool_adjusted_balance = match sol_pool_balance.checked_sub(LAMPORTS_PER_SOL) {
            Some(v) => v,
            None => {
                return Err(MarginfiError::MathError);
            },
        };
        let feed = match PythPushOraclePriceFeed::load_checked(price, unix_timestamp, max_age) {
            Ok(f) => f,
            Err(e) => {
                return Err(e);
            },
        };
        if lst_mint_supply == 0 {
            return Err(MarginfiError::ZeroSupplyInStakePool);
        }
        OraclePriceFeedAdapter::pyth(feed.scaled_by_pool(sol_pool_adjusted_balance, lst_mint_supply))
    }

    /// The feed of a bank at a reference time, from the bank and the raw
    /// accounts of its oracle: the accounts must be those of the bank's
    /// oracle kind, and they are resolved with the maximum age that the
    /// bank's configuration gives.
    pub open spec fn spec_resolve_oracle(
        bank: Bank,
        accounts: OracleAccounts,
        unix_timestamp: i64,
    ) -> Result<OraclePriceFeedAdapter, MarginfiError> {
        match spec_accounts_match(bank.config.oracle_setup, accounts) {
            Err(e) => Err(e),
            Ok(_) => OraclePriceFeedAdapter::spec_try_from_config(
                OraclePriceFeedAdapterConfig {
                    bank,
                    accounts,
                    unix_timestamp,
                    max_age: bank.config.spec_oracle_max_age(),
                },
            ),
        }
    }

    /// Resolves a bank's price feed from the bank, the raw accounts of its
    /// oracle and the reference time.
    pub fn resolve_oracle(bank: &Bank, accounts: OracleAccounts, unix_timestamp: i64) -> (r: Result<
        OraclePriceFeedAdapter,
        MarginfiError,
    >)
        ensures
            r == OraclePriceFeedAdapter::spec_resolve_oracle(*bank, accounts, unix_timestamp),
    {
        match OraclePriceFeedAdapterConfig::load_with_clock(bank, accounts, unix_timestamp) {
            Ok(config) => OraclePriceFeedAdapter::try_from_config(config),
            Err(e) => Err(e),
        }
    }

    /// Resolves a bank's price feed from its fetched accounts.
    ///
    /// Each kind reads its accounts as `spec_try_from_config` says: a fixed
    /// price is taken from the bank, a Pyth or Switchboard account is
    /// checked for type, verification and age, and the derived kinds rescale
    /// the checked feed by a pool's or a reserve's ratio.
    pub fn try_from_config(config: OraclePriceFeedAdapterConfig) -> (r: Result<
        OraclePriceFeedAdapter,
        MarginfiError,
    >)
        ensures
            r == OraclePriceFeedAdapter::spec_try_from_config(config),
    {
        let unix_timestamp = config.unix_timestamp;
        let max_age = config.max_age;
        match config.accounts {
            OracleAccounts::NoAccounts => {
                let price = config.bank.config.fixed_price.to_fixed();
                if price.is_negative() {
                    return Err(MarginfiError::FixedOraclePriceNegative);
                }
                Ok(OraclePriceFeedAdapter::Fixed(FixedPriceFeed { price }))
            },
            OracleAccounts::PythPush { price } => OraclePriceFeedAdapter::pyth(
                PythPushOraclePriceFeed::load_checked(price.as_slice(), unix_timestamp, max_age),
            ),
            OracleAccounts::SwitchboardPull { oracle } => OraclePriceFeedAdapter::switchboard(
                SwitchboardPullPriceFeed::load_checked(oracle.as_slice(), unix_timestamp, max_age),
            ),
            OracleAccounts::StakedWithPythPush { price, lst_mint_supply, stake_state } => {
                let stake = read_stake_account(stake_state.as_slice());
                OraclePriceFeedAdapter::staked(
                    stake,
                    price.as_slice(),
                    lst_mint_supply,
                    unix_timestamp,
                    max_age,
                )
            },
            OracleAccounts::KaminoPythPush { price, reserve } => {
                let feed = match PythPushOraclePriceFeed::load_checked(
                    price.as_slice(),
                    unix_timestamp,
                    max_age,
                ) {
                    Ok(f) => f,
                    Err(e) => {
                        return Err(e);
                    },
                };
                match ratio_of_reserve(reserve.as_slice()) {
                    Err(e) => Err(e),
                    Ok(None) => Ok(OraclePriceFeedAdapter::PythPushOracle(feed)),
                    Ok(Some(ratio)) => OraclePriceFeedAdapter::pyth(feed.scaled_by_ratio(ratio)),
                }
            },
            OracleAccounts::KaminoSwitchboardPull { oracle, reserve } => {
                let feed = match SwitchboardPullPriceFeed::load_checked(
                    oracle.as_slice(),
                    unix_timestamp,
                    max_age,
                ) {
                    Ok(f) => f,
                    Err(e) => {
                        return Err(e);
                    },
                };
                match ratio_of_reserve(reserve.as_slice()) {
                    Err(e) => Err(e),
                    Ok(None) => Ok(OraclePriceFeedAdapter::SwitchboardPull(feed)),
                    Ok(Some(ratio)) => OraclePriceFeedAdapter::switchboard(
                        feed.scaled_by_ratio(ratio),
                    ),
                }
            },
        }
    }
}

} // verus!
