//! Decoding of lending-protocol accounts, oracle price resolution and the
//! computation of a borrower's collateral value, liabilities and maintenance
//! margin, in 48-bit fixed-point arithmetic.

pub mod fixed_point;
pub mod layout;
pub mod marginfi;
pub mod utils;
pub mod wrapped_i80f48;
