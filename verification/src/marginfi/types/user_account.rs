//! A borrower's account: its positions and the health snapshot that the
//! protocol cached in it.

use crate::fixed_point::I80F48;
use crate::layout::{
    read_i64, read_key, read_u32, read_u64, read_u8, spec_i64_at, spec_key_at, spec_u32_at,
    spec_u64_at, spec_u8_at, Pubkey,
};
use crate::marginfi::consts::{HEALTH_CACHE_HEALTHY, MAX_LENDING_ACCOUNT_BALANCES};
use crate::marginfi::errors::BalanceSide;
use crate::utils::parse_account::AccountRecord;
use crate::wrapped_i80f48::{read_wrapped, spec_decode, WrappedI80F48};
use vstd::prelude::*;
use vstd::slice::slice_subrange;

verus! {

/// Size of one position slot in bytes.
pub const BALANCE_SIZE: usize = 104;

/// Size of the position table in bytes: sixteen slots and 64 bytes of padding.
pub const LENDING_ACCOUNT_SIZE: usize = 1728;

/// Size of the cached health snapshot in bytes.
pub const HEALTH_CACHE_SIZE: usize = 304;

/// Size of a borrower's account record in bytes.
pub const MARGINFI_ACCOUNT_SIZE: usize = 2304;

/// A borrower's position in one bank. A position is a deposit or a borrow;
/// the record can hold shares on both sides, and both are then valued.
#[derive(Clone, Copy, Debug)]
pub struct Balance {
    /// Non-zero when the slot is in use.
    pub active: u8,
    /// The bank that the position is in.
    pub bank_pk: Pubkey,
    pub bank_asset_tag: u8,
    pub asset_shares: WrappedI80F48,
    pub liability_shares: WrappedI80F48,
    pub emissions_outstanding: WrappedI80F48,
    pub last_update: u64,
}

impl Balance {
    /// Whether every field holds what `body` holds at the field's offset.
    pub open spec fn spec_is_record_of(&self, body: Seq<u8>) -> bool {
        &&& self.active == spec_u8_at(body, 0)
        &&& self.bank_pk@ == spec_key_at(body, 1)
        &&& self.bank_asset_tag == spec_u8_at(body, 33)
        &&& self.asset_shares@ == body.subrange(40, 56)
        &&& self.liability_shares@ == body.subrange(56, 72)
        &&& self.emissions_outstanding@ == body.subrange(72, 88)
        &&& self.last_update == spec_u64_at(body, 88)
    }

    /// Whether the slot is in use.
    pub open spec fn spec_is_active(&self) -> bool {
        self.active != 0
    }

    /// The shares held on one side, as a number.
    pub open spec fn spec_shares(&self, side: BalanceSide) -> I80F48 {
        match side {
            BalanceSide::Assets => spec_decode(self.asset_shares@),
            BalanceSide::Liabilities => spec_decode(self.liability_shares@),
        }
    }

    /// Whether the position holds no shares on `side`.
    pub open spec fn spec_is_empty(&self, side: BalanceSide) -> bool {
        self.spec_shares(side).bits == 0
    }

    /// Whether the position is in use and holds shares on some side: only
    /// such a position needs its bank and its price.
    pub open spec fn spec_is_referenced(&self) -> bool {
        self.spec_is_active() && !(self.spec_is_empty(BalanceSide::Assets) && self.spec_is_empty(
            BalanceSide::Liabilities,
        ))
    }

    /// The side that a position is first valued on: the deposit if it has
    /// deposit shares, the borrow else.
    pub open spec fn spec_first_side(&self) -> BalanceSide {
        if self.spec_is_empty(BalanceSide::Assets) {
            BalanceSide::Liabilities
        } else {
            BalanceSide::Assets
        }
    }

    /// Whether the position holds shares on both sides. A position is meant
    /// to be a deposit or a borrow; one that is both is still valued on
    /// both sides, and a caller may want to report it.
    pub open spec fn spec_is_mixed(&self) -> bool {
        !self.spec_is_empty(BalanceSide::Assets) && !self.spec_is_empty(BalanceSide::Liabilities)
    }

    /// Whether the position holds shares on both sides.
    pub fn is_mixed(&self) -> (r: bool)
        ensures
            r == self.spec_is_mixed(),
    {
        !self.is_empty(BalanceSide::Assets) && !self.is_empty(BalanceSide::Liabilities)
    }

    /// Whether the position is in use and holds shares on some side.
    pub fn is_referenced(&self) -> (r: bool)
        ensures
            r == self.spec_is_referenced(),
    {
        self.is_active() && !(self.is_empty(BalanceSide::Assets) && self.is_empty(
            BalanceSide::Liabilities,
        ))
    }

    /// The side that the position is first valued on.
    pub fn first_side(&self) -> (r: BalanceSide)
        ensures
            r == self.spec_first_side(),
    {
        if self.is_empty(BalanceSide::Assets) {
            BalanceSide::Liabilities
        } else {
            BalanceSide::Assets
        }
    }

    /// Whether the slot is in use.
    pub fn is_active(&self) -> (r: bool)
        ensures
            r == self.spec_is_active(),
    {
        self.active != 0
    }

    /// The shares held on one side, as a number.
    pub fn shares(&self, side: BalanceSide) -> (r: I80F48)
        ensures
            r == self.spec_shares(side),
    {
        match side {
            BalanceSide::Assets => self.asset_shares.to_fixed(),
            BalanceSide::Liabilities => self.liability_shares.to_fixed(),
        }
    }

    /// Whether the position holds no shares on `side`.
    pub fn is_empty(&self, side: BalanceSide) -> (r: bool)
        ensures
            r == self.spec_is_empty(side),
    {
        self.shares(side).is_zero()
    }

    /// Reads one slot from its 104 bytes.
    pub fn from_body(body: &[u8]) -> (r: Balance)
        requires
            body@.len() == 104,
        ensures
            r.spec_is_record_of(body@),
    {
        Balance {
            active: read_u8(body, 0),
            bank_pk: read_key(body, 1),
            bank_asset_tag: read_u8(body, 33),
            asset_shares: read_wrapped(body, 40),
            liability_shares: read_wrapped(body, 56),
            emissions_outstanding: read_wrapped(body, 72),
            last_update: read_u64(body, 88),
        }
    }
}

/// The slots among the first `n` of `slots` that are in use, in their order.
pub open spec fn spec_active_prefix(slots: Seq<Balance>, n: nat) -> Seq<Balance>
    decreases n,
{
    if n == 0 {
        Seq::empty()
    } else {
        let before = spec_active_prefix(slots, (n - 1) as nat);
        if slots[n - 1].spec_is_active() {
            before.push(slots[n - 1])
        } else {
            before
        }
    }
}

/// The table of a borrower's positions.
#[derive(Clone, Copy, Debug)]
pub struct LendingAccount {
    pub balances: [Balance; MAX_LENDING_ACCOUNT_BALANCES],
}

impl LendingAccount {
    /// Whether slot `i` holds what `body` holds in the `i`-th run of 104
    /// bytes, for each of the sixteen slots.
    pub open spec fn spec_is_record_of(&self, body: Seq<u8>) -> bool {
        forall|i: int|
            0 <= i < 16 ==> (#[trigger] self.balances@[i]).spec_is_record_of(
                body.subrange(104 * i, 104 * i + 104),
            )
    }

    /// The positions in use, in slot order.
    pub open spec fn spec_active_balances(&self) -> Seq<Balance> {
        spec_active_prefix(self.balances@, 16)
    }

    /// The positions in use, in slot order.
    pub fn get_active_balances(&self) -> (r: Vec<Balance>)
        ensures
            r@ == self.spec_active_balances(),
    {
        let mut out: Vec<Balance> = Vec::new();
        let mut i: usize = 0;
        while i < 16
            invariant
                i <= 16,
                out@ == spec_active_prefix(self.balances@, i as nat),
            decreases 16 - i,
        {
            let slot = self.balances[i];
            if slot.is_active() {
                out.push(slot);
            }
            i += 1;
        }
        out
    }

    /// Reads the table from its 1728 bytes.
    pub fn from_body(body: &[u8]) -> (r: LendingAccount)
        requires
            body@.len() == 1728,
        ensures
            r.spec_is_record_of(body@),
    {
        let first = Balance::from_body(slice_subrange(body, 0, 104));
        let mut balances: [Balance; 16] = [first;16];
        let mut i: usize = 1;
        while i < 16
            invariant
                1 <= i <= 16,
                body@.len() == 1728,
                forall|j: int|
                    0 <= j < i ==> (#[trigger] balances@[j]).spec_is_record_of(
                        body@.subrange(104 * j, 104 * j + 104),
                    ),
            decreases 16 - i,
        {
            balances[i] = Balance::from_body(slice_subrange(body, 104 * i, 104 * i + 104));
            i += 1;
        }
        LendingAccount { balances }
    }
}

/// The health snapshot that the protocol last wrote into the account. It is
/// read, never computed here.
#[derive(Clone, Copy, Debug)]
pub struct HealthCache {
    pub asset_value: WrappedI80F48,
    pub liability_value: WrappedI80F48,
    pub asset_value_maint: WrappedI80F48,
    pub liability_value_maint: WrappedI80F48,
    pub timestamp: i64,
    pub flags: u32,
}

impl HealthCache {
    /// Whether every field holds what `body` holds at the field's offset.
    pub open spec fn spec_is_record_of(&self, body: Seq<u8>) -> bool {
        &&& self.asset_value@ == body.subrange(0, 16)
        &&& self.liability_value@ == body.subrange(16, 32)
        &&& self.asset_value_maint@ == body.subrange(32, 48)
        &&& self.liability_value_maint@ == body.subrange(48, 64)
        &&& self.timestamp == spec_i64_at(body, 96)
        &&& self.flags == spec_u32_at(body, 104)
    }

    /// Whether the snapshot marks the account as healthy.
    pub open spec fn spec_is_healthy(&self) -> bool {
        self.flags & HEALTH_CACHE_HEALTHY != 0
    }

    /// Whether the snapshot marks the account as healthy.
    pub fn is_healthy(&self) -> (r: bool)
        ensures
            r == self.spec_is_healthy(),
    {
        self.flags & HEALTH_CACHE_HEALTHY != 0
    }

    /// Reads the snapshot from its 304 bytes.
    pub fn from_body(body: &[u8]) -> (r: HealthCache)
        requires
            body@.len() == 304,
        ensures
            r.spec_is_record_of(body@),
    {
        HealthCache {
            asset_value: read_wrapped(body, 0),
            liability_value: read_wrapped(body, 16),
            asset_value_maint: read_wrapped(body, 32),
            liability_value_maint: read_wrapped(body, 48),
            timestamp: read_i64(body, 96),
            flags: read_u32(body, 104),
        }
    }
}

/// A borrower's account, as far as valuation reads it. The fields stand at
/// fixed offsets of a 2304-byte record.
#[derive(Clone, Copy, Debug)]
pub struct MarginfiAccount {
    pub group: Pubkey,
    /// The owner who may act on the account.
    pub authority: Pubkey,
    pub lending_account: LendingAccount,
    pub account_flags: u64,
    pub health_cache: HealthCache,
}

impl MarginfiAccount {
    /// Whether every field holds what `body` holds at the field's offset.
    pub open spec fn spec_is_record_of(&self, body: Seq<u8>) -> bool {
        &&& self.group@ == spec_key_at(body, 0)
        &&& self.authority@ == spec_key_at(body, 32)
        &&& self.lending_account.spec_is_record_of(body.subrange(64, 1792))
        &&& self.account_flags == spec_u64_at(body, 1792)
        &&& self.health_cache.spec_is_record_of(body.subrange(1832, 2136))
    }
}

impl AccountRecord for MarginfiAccount {
    open spec fn record_size() -> nat {
        2304
    }

    open spec fn is_record_of(&self, body: Seq<u8>) -> bool {
        self.spec_is_record_of(body)
    }

    fn size() -> (r: usize) {
        MARGINFI_ACCOUNT_SIZE
    }

    fn from_body(body: &[u8]) -> (r: MarginfiAccount) {
        MarginfiAccount {
            group: read_key(body, 0),
            authority: read_key(body, 32),
            lending_account: LendingAccount::from_body(slice_subrange(body, 64, 1792)),
            account_flags: read_u64(body, 1792),
            health_cache: HealthCache::from_body(slice_subrange(body, 1832, 2136)),
        }
    }
}

} // verus!
