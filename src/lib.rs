//! Delegated, limit-checked swap authority for a per-owner trading bot.
mod address;
mod config;
mod key;
mod laws;
mod swap;

pub use address::{config_signer_seeds, find_config_address, is_config_address};
pub use config::{
    close_bot, initialize_bot, update_config, CloseBot, InitializeBot, TradeBotConfig,
    TradingBotError, UpdateConfig, MAX_SLIPPAGE_BPS,
};
pub use key::Key;
pub use swap::{
    authorize_swap, build_swap_instruction, check_swap, encode_swap_data, execute_swap,
    settle_swap, AccountMeta, AuthorizeSwap, ExecuteSwap, SignedSwap, SwapInstruction,
    SWAP_ACCOUNT_COUNT, SWAP_DISCRIMINATOR,
};
pub use laws::{
    lemma_amount_over_limit_rejected, lemma_deactivated_bot_rejects_swaps,
    lemma_excess_slippage_rejected, lemma_only_executor_passes, lemma_record_invariants_kept,
    lemma_recreated_record_is_fresh,
    lemma_swap_counted_once,
};
