use vstd::prelude::*;

use crate::address::{config_address, find_config_address, is_canonical_bump, is_config_address};
use crate::key::Key;

verus! {

/// The largest slippage tolerance a record may hold: 100%, in basis points.
pub const MAX_SLIPPAGE_BPS: u16 = 10000;

/// Errors of the bot's entry points. Every one of them rejects the whole
/// invocation, before any state changes.
#[derive(Clone, Copy, Debug, PartialEq, Eq, Structural)]
pub enum TradingBotError {
    BotNotActive,
    AmountExceedsLimit,
    InsufficientBalance,
    InvalidSlippage,
    UnauthorizedBackend,
    InvalidTokenAccount,
    SlippageExceeded,
    DownstreamCallFailed,
    CounterOverflow,
    NotFound,
    Unauthorized,
}

/// The configuration record of one owner's bot.
#[derive(Clone, Copy, Debug, PartialEq, Eq)]
pub struct TradeBotConfig {
    /// The account that created and administers the record.
    pub owner: Key,
    /// The executor allowed to trigger delegated swaps.
    pub backend_authority: Key,
    /// The ceiling on the input amount of a single swap.
    pub max_trade_amount: u64,
    /// The largest accepted output shortfall, in basis points.
    pub max_slippage_bps: u16,
    /// When false, every delegated swap is rejected.
    pub is_active: bool,
    /// The number of swaps that went through.
    pub trades_executed: u64,
    /// The bump that, with the owner, derives the record's address.
    pub bump: u8,
}

impl TradeBotConfig {
    /// The record's invariant: the slippage tolerance is at most 100%.
    pub open spec fn well_formed(&self) -> bool {
        self.max_slippage_bps <= MAX_SLIPPAGE_BPS
    }
}

/// The accounts of a record's creation: the record's address and the owner,
/// with whether the owner signed the invocation.
#[derive(Clone, Copy, Debug, PartialEq, Eq)]
pub struct InitializeBot {
    pub bot_config: Key,
    pub owner: Key,
    pub owner_is_signer: bool,
}

/// The accounts of an owner's change to a record.
#[derive(Clone, Copy, Debug, PartialEq, Eq)]
pub struct UpdateConfig {
    pub bot_config: Key,
    pub owner: Key,
    pub owner_is_signer: bool,
}

/// The accounts of an owner's closing of a record.
#[derive(Clone, Copy, Debug, PartialEq, Eq)]
pub struct CloseBot {
    pub bot_config: Key,
    pub owner: Key,
    pub owner_is_signer: bool,
}

/// `address` is where the record of `owner` lives, and `config` is that
/// owner's record.
pub open spec fn record_resolves(
    config: TradeBotConfig,
    owner: Key,
    address: Key,
    program_id: Seq<u8>,
) -> bool {
    &&& config.owner@ == owner@
    &&& config_address(owner@, config.bump, program_id) == Some(address@)
}

/// The outcome of a record's creation.
pub open spec fn initialize_outcome(
    ctx: InitializeBot,
    program_id: Seq<u8>,
    backend_authority: Key,
    max_trade_amount: u64,
    max_slippage_bps: u16,
    bump: u8,
) -> Result<TradeBotConfig, TradingBotError> {
    if !ctx.owner_is_signer {
        Err(TradingBotError::Unauthorized)
    } else if max_slippage_bps > MAX_SLIPPAGE_BPS {
        Err(TradingBotError::InvalidSlippage)
    } else if !(is_canonical_bump(ctx.owner@, bump, program_id) && config_address(
        ctx.owner@,
        bump,
        program_id,
    ) == Some(ctx.bot_config@)) {
        Err(TradingBotError::Unauthorized)
    } else {
        Ok(
            TradeBotConfig {
                owner: ctx.owner,
                backend_authority,
                max_trade_amount,
                max_slippage_bps,
                is_active: true,
                trades_executed: 0,
                bump,
            },
        )
    }
}

/// Creates the record of the signing owner at the owner's canonical record
/// address: active, with no trade counted. Fails with `Unauthorized` when the
/// owner did not sign or `bot_config` is not that address, and with
/// `InvalidSlippage` for a tolerance above 100%.
pub fn initialize_bot(
    ctx: &InitializeBot,
    program_id: &Key,
    backend_authority: Key,
    max_trade_amount: u64,
    max_slippage_bps: u16,
) -> (r: Result<TradeBotConfig, TradingBotError>)
    ensures
        match r {
            Ok(c) => {
                &&& initialize_outcome(
                    *ctx,
                    program_id@,
                    backend_authority,
                    max_trade_amount,
                    max_slippage_bps,
                    c.bump,
                ) == Ok::<TradeBotConfig, TradingBotError>(c)
                &&& c.well_formed()
            },
            Err(e) => forall|b: u8|
                #[trigger] initialize_outcome(
                    *ctx,
                    program_id@,
                    backend_authority,
                    max_trade_amount,
                    max_slippage_bps,
                    b,
                ) == Err::<TradeBotConfig, TradingBotError>(e),
        },
{
    if !ctx.owner_is_signer {
        return Err(TradingBotError::Unauthorized);
    }
    if max_slippage_bps > MAX_SLIPPAGE_BPS {
        return Err(TradingBotError::InvalidSlippage);
    }
    match find_config_address(&ctx.owner, program_id) {
        Some((address, bump)) => {
            if !address.same_as(&ctx.bot_config) {
                assert forall|b: u8|
                    is_canonical_bump(ctx.owner@, b, program_id@) implies b == bump by {
                    if b < bump {
                        assert(config_address(ctx.owner@, bump, program_id@) is Some);
                    } else if bump < b {
                        assert(config_address(ctx.owner@, b, program_id@) is None);
                    }
                }
                return Err(TradingBotError::Unauthorized);
            }
            Ok(
                TradeBotConfig {
                    owner: ctx.owner,
                    backend_authority,
                    max_trade_amount,
                    max_slippage_bps,
                    is_active: true,
                    trades_executed: 0,
                    bump,
                },
            )
        },
        None => Err(TradingBotError::Unauthorized),
    }
}

/// The owner-only checks of a change or a closing: the owner signed and owns
/// the record, and the record sits at the owner's address.
pub open spec fn owner_check(
    config: TradeBotConfig,
    owner: Key,
    owner_is_signer: bool,
    address: Key,
    program_id: Seq<u8>,
) -> Result<(), TradingBotError> {
    if !(owner_is_signer && config.owner@ == owner@) {
        Err(TradingBotError::Unauthorized)
    } else if config_address(owner@, config.bump, program_id) != Some(address@) {
        Err(TradingBotError::NotFound)
    } else {
        Ok(())
    }
}

fn check_owner(
    config: &TradeBotConfig,
    owner: &Key,
    owner_is_signer: bool,
    address: &Key,
    program_id: &Key,
) -> (r: Result<(), TradingBotError>)
    ensures
        r == owner_check(*config, *owner, owner_is_signer, *address, program_id@),
{
    if !(owner_is_signer && config.owner.same_as(owner)) {
        return Err(TradingBotError::Unauthorized);
    }
    if !is_config_address(owner, config.bump, program_id, address) {
        return Err(TradingBotError::NotFound);
    }
    Ok(())
}

/// A record after a partial change: each supplied field is set, each absent
/// one kept.
pub open spec fn updated(
    config: TradeBotConfig,
    max_trade_amount: Option<u64>,
    max_slippage_bps: Option<u16>,
    is_active: Option<bool>,
) -> TradeBotConfig {
    TradeBotConfig {
        max_trade_amount: match max_trade_amount {
            Some(m) => m,
            None => config.max_trade_amount,
        },
        max_slippage_bps: match max_slippage_bps {
            Some(s) => s,
            None => config.max_slippage_bps,
        },
        is_active: match is_active {
            Some(a) => a,
            None => config.is_active,
        },
        ..config
    }
}

/// The outcome of an owner's change to a record.
pub open spec fn update_outcome(
    config: TradeBotConfig,
    ctx: UpdateConfig,
    program_id: Seq<u8>,
    max_trade_amount: Option<u64>,
    max_slippage_bps: Option<u16>,
    is_active: Option<bool>,
) -> Result<TradeBotConfig, TradingBotError> {
    match owner_check(config, ctx.owner, ctx.owner_is_signer, ctx.bot_config, program_id) {
        Err(e) => Err(e),
        Ok(()) => if max_slippage_bps matches Some(s) && s > MAX_SLIPPAGE_BPS {
            Err(TradingBotError::InvalidSlippage)
        } else {
            Ok(updated(config, max_trade_amount, max_slippage_bps, is_active))
        },
    }
}

/// Applies the supplied fields of an owner's change, all or none: on any
/// error the record is left as it was.
pub fn update_config(
    config: &mut TradeBotConfig,
    ctx: &UpdateConfig,
    program_id: &Key,
    max_trade_amount: Option<u64>,
    max_slippage_bps: Option<u16>,
    is_active: Option<bool>,
) -> (r: Result<(), TradingBotError>)
    ensures
        match update_outcome(
            *old(config),
            *ctx,
            program_id@,
            max_trade_amount,
            max_slippage_bps,
            is_active,
        ) {
            Ok(c) => r is Ok && *final(config) == c,
            Err(e) => r == Err::<(), TradingBotError>(e) && *final(config) == *old(config),
        },
        old(config).well_formed() ==> final(config).well_formed(),
{
    check_owner(config, &ctx.owner, ctx.owner_is_signer, &ctx.bot_config, program_id)?;
    if let Some(slippage) = max_slippage_bps {
        if slippage > MAX_SLIPPAGE_BPS {
            return Err(TradingBotError::InvalidSlippage);
        }
    }
    if let Some(amount) = max_trade_amount {
        config.max_trade_amount = amount;
    }
    if let Some(slippage) = max_slippage_bps {
        config.max_slippage_bps = slippage;
    }
    if let Some(active) = is_active {
        config.is_active = active;
    }
    Ok(())
}

/// Closes a record on the owner's request. On success the record is gone and
/// its storage stake goes back to the returned identity, the owner's.
pub fn close_bot(config: &TradeBotConfig, ctx: &CloseBot, program_id: &Key) -> (r: Result<
    Key,
    TradingBotError,
>)
    ensures
        match owner_check(*config, ctx.owner, ctx.owner_is_signer, ctx.bot_config, program_id@) {
            Ok(()) => r == Ok::<Key, TradingBotError>(config.owner),
            Err(e) => r == Err::<Key, TradingBotError>(e),
        },
{
    check_owner(config, &ctx.owner, ctx.owner_is_signer, &ctx.bot_config, program_id)?;
    Ok(config.owner)
}

} // verus!
