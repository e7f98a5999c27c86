//! A bank's risk and oracle configuration, as it lies in the bank's record.

use crate::fixed_point::I80F48;
use crate::layout::{
    read_key, read_u16, read_u32, read_u64, read_u8, spec_key_at, spec_u16_at, spec_u32_at,
    spec_u64_at, spec_u8_at, Pubkey,
};
use crate::marginfi::consts::{
    ASSET_TAG_DEFAULT, BANK_STATE_PAUSED, MAX_ORACLE_KEYS, MAX_PYTH_ORACLE_AGE, RISK_TIER_ISOLATED,
    TOTAL_ASSET_VALUE_INIT_LIMIT_INACTIVE,
};
use crate::utils::parse_account::AccountRecord;
use crate::wrapped_i80f48::{read_wrapped, spec_decode, spec_encode, WrappedI80F48};
use vstd::prelude::*;

verus! {

/// Where a bank's price comes from.
#[derive(Clone, Copy, Debug, PartialEq, Eq, Structural)]
pub enum OracleSetup {
    /// No oracle was configured.
    NoOracle,
    PythLegacy,
    SwitchboardV2,
    PythPushOracle,
    SwitchboardPull,
    StakedWithPythPush,
    KaminoPythPush,
    KaminoSwitchboardPull,
    Fixed,
    /// A tag byte that names none of the kinds above.
    Unknown(u8),
}

impl OracleSetup {
    /// The kind that a tag byte names.
    pub open spec fn spec_from_tag(tag: u8) -> OracleSetup {
        if tag == 0 {
            OracleSetup::NoOracle
        } else if tag == 1 {
            OracleSetup::PythLegacy
        } else if tag == 2 {
            OracleSetup::SwitchboardV2
        } else if tag == 3 {
            OracleSetup::PythPushOracle
        } else if tag == 4 {
            OracleSetup::SwitchboardPull
        } else if tag == 5 {
            OracleSetup::StakedWithPythPush
        } else if tag == 6 {
            OracleSetup::KaminoPythPush
        } else if tag == 7 {
            OracleSetup::KaminoSwitchboardPull
        } else if tag == 8 {
            OracleSetup::Fixed
        } else {
            OracleSetup::Unknown(tag)
        }
    }

    /// The kind that a tag byte names.
    pub fn from_tag(tag: u8) -> (r: OracleSetup)
        ensures
            r == OracleSetup::spec_from_tag(tag),
    {
        match tag {
            0 => OracleSetup::NoOracle,
            1 => OracleSetup::PythLegacy,
            2 => OracleSetup::SwitchboardV2,
            3 => OracleSetup::PythPushOracle,
            4 => OracleSetup::SwitchboardPull,
            5 => OracleSetup::StakedWithPythPush,
            6 => OracleSetup::KaminoPythPush,
            7 => OracleSetup::KaminoSwitchboardPull,
            8 => OracleSetup::Fixed,
            _ => OracleSetup::Unknown(tag),
        }
    }
}

/// Size of a bank configuration in bytes.
pub const BANK_CONFIG_SIZE: usize = 544;

/// A bank's configuration. The fields stand at fixed offsets of a 544-byte
/// record; bytes 72 to 311 hold the interest-rate curve, which takes no part
/// in valuation and is not kept, and the rest is padding.
#[derive(Clone, Copy, Debug)]
pub struct BankConfig {
    pub asset_weight_init: WrappedI80F48,
    pub asset_weight_maint: WrappedI80F48,
    pub liability_weight_init: WrappedI80F48,
    pub liability_weight_maint: WrappedI80F48,
    pub deposit_limit: u64,
    pub operational_state: u8,
    pub oracle_setup: OracleSetup,
    pub oracle_keys: [Pubkey; MAX_ORACLE_KEYS],
    pub borrow_limit: u64,
    pub risk_tier: u8,
    /// Which assets may stand beside this one in an account.
    pub asset_tag: u8,
    pub config_flags: u8,
    /// Limit in whole dollars on the value counted for initial margin;
    /// zero means no limit.
    pub total_asset_value_init_limit: u64,
    /// Seconds for which an oracle price counts as live.
    pub oracle_max_age: u16,
    /// Widest confidence interval accepted, in units of `1 / u32::MAX` of
    /// the price; zero stands for the default of ten percent.
    pub oracle_max_confidence: u32,
    /// The price of a bank whose oracle kind is `Fixed`.
    pub fixed_price: WrappedI80F48,
}

impl BankConfig {
    /// The age in seconds up to which an oracle price is accepted: the
    /// configured age, or the protocol's default where a Pyth bank sets none.
    pub open spec fn spec_oracle_max_age(&self) -> u64 {
        if self.oracle_max_age == 0 && self.oracle_setup == OracleSetup::PythPushOracle {
            MAX_PYTH_ORACLE_AGE
        } else {
            self.oracle_max_age as u64
        }
    }

    /// The age in seconds up to which an oracle price is accepted.
    pub fn get_oracle_max_age(&self) -> (r: u64)
        ensures
            r == self.spec_oracle_max_age(),
    {
        match (self.oracle_max_age, self.oracle_setup) {
            (0, OracleSetup::PythPushOracle) => MAX_PYTH_ORACLE_AGE,
            (n, _) => n as u64,
        }
    }

    /// The maintenance weight of deposits as a number.
    pub open spec fn spec_asset_weight_maint(&self) -> I80F48 {
        spec_decode(self.asset_weight_maint@)
    }

    /// The maintenance weight of borrows as a number.
    pub open spec fn spec_liability_weight_maint(&self) -> I80F48 {
        spec_decode(self.liability_weight_maint@)
    }

    /// Whether every field holds what `body` holds at the field's offset.
    pub open spec fn spec_is_record_of(&self, body: Seq<u8>) -> bool {
        &&& self.asset_weight_init@ == body.subrange(0, 16)
        &&& self.asset_weight_maint@ == body.subrange(16, 32)
        &&& self.liability_weight_init@ == body.subrange(32, 48)
        &&& self.liability_weight_maint@ == body.subrange(48, 64)
        &&& self.deposit_limit == spec_u64_at(body, 64)
        &&& self.operational_state == spec_u8_at(body, 312)
        &&& self.oracle_setup == OracleSetup::spec_from_tag(spec_u8_at(body, 313))
        &&& forall|i: int| 0 <= i < 5 ==> (#[trigger] self.oracle_keys@[i])@ == spec_key_at(body, 314 + 32 * i)
        &&& self.borrow_limit == spec_u64_at(body, 480)
        &&& self.risk_tier == spec_u8_at(body, 488)
        &&& self.asset_tag == spec_u8_at(body, 489)
        &&& self.config_flags == spec_u8_at(body, 490)
        &&& self.total_asset_value_init_limit == spec_u64_at(body, 496)
        &&& self.oracle_max_age == spec_u16_at(body, 504)
        &&& self.oracle_max_confidence == spec_u32_at(body, 508)
        &&& self.fixed_price@ == body.subrange(512, 528)
    }
}

impl AccountRecord for BankConfig {
    open spec fn record_size() -> nat {
        544
    }

    open spec fn is_record_of(&self, body: Seq<u8>) -> bool {
        self.spec_is_record_of(body)
    }

    fn size() -> (r: usize) {
        BANK_CONFIG_SIZE
    }

    fn from_body(body: &[u8]) -> (r: BankConfig) {
        let oracle_keys: [Pubkey; 5] = [
            read_key(body, 314),
            read_key(body, 346),
            read_key(body, 378),
            read_key(body, 410),
            read_key(body, 442),
        ];
        BankConfig {
            asset_weight_init: read_wrapped(body, 0),
            asset_weight_maint: read_wrapped(body, 16),
            liability_weight_init: read_wrapped(body, 32),
            liability_weight_maint: read_wrapped(body, 48),
            deposit_limit: read_u64(body, 64),
            operational_state: read_u8(body, 312),
            oracle_setup: OracleSetup::from_tag(read_u8(body, 313)),
            oracle_keys,
            borrow_limit: read_u64(body, 480),
            risk_tier: read_u8(body, 488),
            asset_tag: read_u8(body, 489),
            config_flags: read_u8(body, 490),
            total_asset_value_init_limit: read_u64(body, 496),
            oracle_max_age: read_u16(body, 504),
            oracle_max_confidence: read_u32(body, 508),
            fixed_price: read_wrapped(body, 512),
        }
    }
}

impl Default for BankConfig {
    /// The configuration of a bank that was not set up: paused, isolated,
    /// without an oracle, deposits counted at nothing and borrows at par.
    fn default() -> (r: BankConfig)
        ensures
            r.asset_weight_init@ == spec_encode(I80F48::spec_zero()),
            r.asset_weight_maint@ == spec_encode(I80F48::spec_zero()),
            r.liability_weight_init@ == spec_encode(I80F48::spec_one()),
            r.liability_weight_maint@ == spec_encode(I80F48::spec_one()),
            r.deposit_limit == 0,
            r.borrow_limit == 0,
            r.operational_state == BANK_STATE_PAUSED,
            r.oracle_setup == OracleSetup::NoOracle,
            forall|i: int| 0 <= i < 5 ==> (#[trigger] r.oracle_keys@[i])@ == Seq::new(32, |j: int| 0u8),
            r.risk_tier == RISK_TIER_ISOLATED,
            r.asset_tag == ASSET_TAG_DEFAULT,
            r.config_flags == 0,
            r.total_asset_value_init_limit == TOTAL_ASSET_VALUE_INIT_LIMIT_INACTIVE,
            r.oracle_max_age == 0,
            r.oracle_max_confidence == 0,
            r.fixed_price@ == spec_encode(I80F48::spec_zero()),
    {
        let zero = WrappedI80F48::from_fixed(I80F48::zero());
        let one = WrappedI80F48::from_fixed(I80F48::one());
        let key = Pubkey::zeroed();
        BankConfig {
            asset_weight_init: zero,
            asset_weight_maint: zero,
            liability_weight_init: one,
            liability_weight_maint: one,
            deposit_limit: 0,
            borrow_limit: 0,
            operational_state: BANK_STATE_PAUSED,
            oracle_setup: OracleSetup::NoOracle,
            oracle_keys: [key, key, key, key, key],
            risk_tier: RISK_TIER_ISOLATED,
            asset_tag: ASSET_TAG_DEFAULT,
            config_flags: 0,
            total_asset_value_init_limit: TOTAL_ASSET_VALUE_INIT_LIMIT_INACTIVE,
            oracle_max_age: 0,
            oracle_max_confidence: 0,
            fixed_price: zero,
        }
    }
}

} // verus!
