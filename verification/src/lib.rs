//! The rules by which Sanctum's INF pool is presented to the Jupiter router.
//!
//! The pool itself (its accounts, its pricing program and its SOL value
//! calculators) lives elsewhere. This library decides what is asked of it, in
//! which order, and what the router is told: which accounts to fetch, how an
//! update runs, when a quote is refused, what a quote says, and which accounts
//! a swap instruction carries.

pub mod account_meta;
pub mod amm;
pub mod calc;
pub mod init;
pub mod pool_laws;
pub mod pubkey;
pub mod quote;
pub mod setup_laws;
pub mod spl_lsts;
pub mod trade;
pub mod update;
pub mod update_laws;

pub use account_meta::{keys_signer_writable_to_metas, AccountMeta};
pub use amm::{InfAmm, InfIds, InfPool, ProgramIds};
pub use calc::{SolValCalc, SvcKind};
pub use init::{InitErr, InitReply, InitRun, InitStep};
pub use pubkey::{pubkey_eq, Pubkey};
pub use quote::{
    answer_quote, check_mint_epoch, request_quote, svc_lookup, to_jup_quote, DecimalErr,
    FeeFraction, FeeQuote, PoolQuote, Quote, QuoteErr, QuoteParams, QuoteTradeArgs, StakePool,
    SvcLookup, TradeQuote,
};
pub use spl_lsts::{build_spl_lsts, PoolInfo, SanctumLst, SplLsts};
pub use trade::{
    swap_and_account_metas, swap_mode_to_trade_limit_ty, trade_ix_args, IxAccounts, LiquidityIx,
    Pair, Swap, SwapAndAccountMetas, SwapIx, SwapMode, SwapParams, TradeIx, TradeIxArgs,
    TradeLimitTy,
};
pub use update::{UpdateErr, UpdateReply, UpdateRun, UpdateStep};
