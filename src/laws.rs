use vstd::prelude::*;

use crate::config::{
    initialize_outcome, owner_check, record_resolves, update_outcome, InitializeBot,
    TradeBotConfig, TradingBotError, UpdateConfig,
};
use crate::key::Key;
use crate::swap::{authorize_outcome, counted, settled, swap_gate, AuthorizeSwap};

verus! {

/// A record that its owner creates and then deactivates rejects every swap
/// request made against it with `BotNotActive`, whoever asks and for any
/// amount.
pub proof fn lemma_deactivated_bot_rejects_swaps(
    init: InitializeBot,
    program_id: Seq<u8>,
    backend_authority: Key,
    max_trade_amount: u64,
    max_slippage_bps: u16,
    bump: u8,
    created: TradeBotConfig,
    update: UpdateConfig,
    deactivated: TradeBotConfig,
    auth: AuthorizeSwap,
    amount_in: u64,
)
    requires
        initialize_outcome(init, program_id, backend_authority, max_trade_amount, max_slippage_bps, bump)
            == Ok::<TradeBotConfig, TradingBotError>(created),
        update_outcome(created, update, program_id, None, None, Some(false)) == Ok::<
            TradeBotConfig,
            TradingBotError,
        >(deactivated),
        auth.owner@ == init.owner@,
        auth.bot_config@ == init.bot_config@,
    ensures
        swap_gate(deactivated, auth, program_id, amount_in) == Err::<(), TradingBotError>(
            TradingBotError::BotNotActive,
        ),
        authorize_outcome(deactivated, auth, program_id, amount_in) == Err::<
            TradeBotConfig,
            TradingBotError,
        >(TradingBotError::BotNotActive),
{
}

/// On an active record, a request from its executor for more than the
/// record's limit fails with `AmountExceedsLimit`, and nothing is counted.
pub proof fn lemma_amount_over_limit_rejected(
    config: TradeBotConfig,
    auth: AuthorizeSwap,
    program_id: Seq<u8>,
    amount_in: u64,
)
    requires
        record_resolves(config, auth.owner, auth.bot_config, program_id),
        config.is_active,
        auth.backend_signer_is_signer,
        auth.backend_signer@ == config.backend_authority@,
        amount_in > config.max_trade_amount,
    ensures
        swap_gate(config, auth, program_id, amount_in) == Err::<(), TradingBotError>(
            TradingBotError::AmountExceedsLimit,
        ),
        authorize_outcome(config, auth, program_id, amount_in) == Err::<
            TradeBotConfig,
            TradingBotError,
        >(TradingBotError::AmountExceedsLimit),
{
}

/// An owner's change that sets a slippage tolerance above 100% fails with
/// `InvalidSlippage`, whatever else it supplies, so none of its fields apply.
pub proof fn lemma_excess_slippage_rejected(
    config: TradeBotConfig,
    ctx: UpdateConfig,
    program_id: Seq<u8>,
    max_trade_amount: Option<u64>,
    max_slippage_bps: u16,
    is_active: Option<bool>,
)
    requires
        owner_check(config, ctx.owner, ctx.owner_is_signer, ctx.bot_config, program_id) is Ok,
        max_slippage_bps > 10000,
    ensures
        update_outcome(config, ctx, program_id, max_trade_amount, Some(max_slippage_bps), is_active)
            == Err::<TradeBotConfig, TradingBotError>(TradingBotError::InvalidSlippage),
{
}

/// A swap that the capability check accepts is counted exactly once when the venue call
/// succeeds, and not at all when it fails; no other field of the record
/// changes either way. Validating and counting in one step counts once too.
pub proof fn lemma_swap_counted_once(
    config: TradeBotConfig,
    auth: AuthorizeSwap,
    program_id: Seq<u8>,
    amount_in: u64,
)
    requires
        swap_gate(config, auth, program_id, amount_in) is Ok,
    ensures
        settled(config, true) == Ok::<TradeBotConfig, TradingBotError>(counted(config)),
        counted(config).trades_executed == config.trades_executed + 1,
        counted(config) == (TradeBotConfig {
            trades_executed: counted(config).trades_executed,
            ..config
        }),
        settled(config, false) == Err::<TradeBotConfig, TradingBotError>(
            TradingBotError::DownstreamCallFailed,
        ),
        authorize_outcome(config, auth, program_id, amount_in) == Ok::<
            TradeBotConfig,
            TradingBotError,
        >(counted(config)),
{
}

/// Only the record's executor, having signed, is accepted by the capability
/// check; on an
/// active record any other caller fails with `UnauthorizedBackend`, however
/// well-formed the request.
pub proof fn lemma_only_executor_passes(
    config: TradeBotConfig,
    auth: AuthorizeSwap,
    program_id: Seq<u8>,
    amount_in: u64,
)
    ensures
        swap_gate(config, auth, program_id, amount_in) is Ok ==> auth.backend_signer_is_signer
            && auth.backend_signer@ == config.backend_authority@,
        record_resolves(config, auth.owner, auth.bot_config, program_id) && config.is_active && !(
        auth.backend_signer_is_signer && auth.backend_signer@ == config.backend_authority@) ==> swap_gate(
            config,
            auth,
            program_id,
            amount_in,
        ) == Err::<(), TradingBotError>(TradingBotError::UnauthorizedBackend),
{
}

/// Closing a record and creating one again for the same owner starts the new
/// record with no trade counted and active, whatever the old one held.
pub proof fn lemma_recreated_record_is_fresh(
    old_config: TradeBotConfig,
    owner: Key,
    owner_is_signer: bool,
    address: Key,
    program_id: Seq<u8>,
    init: InitializeBot,
    backend_authority: Key,
    max_trade_amount: u64,
    max_slippage_bps: u16,
    bump: u8,
    created: TradeBotConfig,
)
    requires
        owner_check(old_config, owner, owner_is_signer, address, program_id) is Ok,
        init.owner@ == owner@,
        init.bot_config@ == address@,
        initialize_outcome(init, program_id, backend_authority, max_trade_amount, max_slippage_bps, bump)
            == Ok::<TradeBotConfig, TradingBotError>(created),
    ensures
        created.trades_executed == 0,
        created.is_active,
        created.owner == init.owner,
{
}

/// Every operation keeps the record's invariants: the slippage tolerance stays
/// at most 100%, an owner's change leaves the trade counter alone, and the
/// counter grows by one exactly when a swap is counted.
pub proof fn lemma_record_invariants_kept(
    config: TradeBotConfig,
    update: UpdateConfig,
    auth: AuthorizeSwap,
    program_id: Seq<u8>,
    max_trade_amount: Option<u64>,
    max_slippage_bps: Option<u16>,
    is_active: Option<bool>,
    amount_in: u64,
    call_succeeded: bool,
)
    requires
        config.well_formed(),
    ensures
        update_outcome(config, update, program_id, max_trade_amount, max_slippage_bps, is_active) matches Ok(c)
            ==> c.well_formed() && c.trades_executed == config.trades_executed,
        authorize_outcome(config, auth, program_id, amount_in) matches Ok(c) ==> c.well_formed()
            && c.trades_executed == config.trades_executed + 1,
        settled(config, call_succeeded) matches Ok(c) ==> c.well_formed() && c.trades_executed
            == config.trades_executed + 1,
{
}

} // verus!
