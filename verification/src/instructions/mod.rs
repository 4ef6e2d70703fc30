//! The operations of the market, one module each.

pub mod init_helio;
pub mod init_pool;
pub mod provide_liquidity;
pub mod remove_liquidity;
pub mod swap;

pub use init_helio::{InitializeHelio, InitializeHelioBumps};
pub use init_pool::InitializePool;
pub use provide_liquidity::{Deposit, DepositReceipt, ProvideLiquidity};
pub use remove_liquidity::{RemoveLiquidity, Withdrawal, WithdrawalReceipt};
pub use swap::{Swap, SwapReceipt};
