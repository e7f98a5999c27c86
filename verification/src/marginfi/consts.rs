//! Limits and defaults of the lending protocol.

use vstd::prelude::*;

verus! {

/// Number of oracle key slots in a bank's configuration.
pub const MAX_ORACLE_KEYS: usize = 5;

/// Number of position slots in a borrower's account.
pub const MAX_LENDING_ACCOUNT_BALANCES: usize = 16;

/// Seconds a Pyth price stays usable when the bank sets no age of its own.
pub const MAX_PYTH_ORACLE_AGE: u64 = 60;

/// Asset tag of an ordinary asset.
pub const ASSET_TAG_DEFAULT: u8 = 0;

/// Value of the initial-margin limit that switches the limit off.
pub const TOTAL_ASSET_VALUE_INIT_LIMIT_INACTIVE: u64 = 0;

/// Operational state of a bank that takes no deposits or borrows.
pub const BANK_STATE_PAUSED: u8 = 0;

/// Risk tier of a bank whose asset can only be borrowed in isolation.
pub const RISK_TIER_ISOLATED: u8 = 1;

/// Bit of the cached health flags that marks the account as healthy.
pub const HEALTH_CACHE_HEALTHY: u32 = 1;

} // verus!
