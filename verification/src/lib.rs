//! Migration of a locked bonding-curve pool into an external
//! constant-product AMM: account validation, amount computation, and the
//! one-time state transition, with the outbound token transfers and the
//! pool-initialization call left to the host runtime.

pub mod addr;
pub mod err;
pub mod migrate;
pub mod pda;
pub mod pool;
