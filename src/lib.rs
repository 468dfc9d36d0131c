//! Accounting core of a liquidity pool: fee and reward policy, pool
//! operations decided over the outcomes of custody transfers, and an
//! oracle-driven impermanent-loss signal.

pub mod error;
pub mod policy;
pub mod accounts;
pub mod pool;
pub mod oracle;
