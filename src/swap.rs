use vstd::prelude::*;

use crate::address::{config_seeds, config_signer_seeds, is_config_address, program_address, seeds_view};
use crate::config::{record_resolves, TradeBotConfig, TradingBotError};
use crate::key::Key;

verus! {

/// The venue's instruction tag that selects a swap.
pub const SWAP_DISCRIMINATOR: u8 = 9;

/// The number of accounts the venue's swap instruction takes.
pub const SWAP_ACCOUNT_COUNT: usize = 18;

/// The identities of an executor's swap request without the venue's accounts:
/// the record's address, the owner it claims to belong to, and the caller,
/// with whether the caller signed the invocation.
#[derive(Clone, Copy, Debug, PartialEq, Eq)]
pub struct AuthorizeSwap {
    pub bot_config: Key,
    pub owner: Key,
    pub backend_signer: Key,
    pub backend_signer_is_signer: bool,
}

/// The accounts of a delegated swap: the request's identities, the owner's
/// two token accounts, and the venue's pool and order-book accounts.
#[derive(Clone, Copy, Debug, PartialEq, Eq)]
pub struct ExecuteSwap {
    pub bot_config: Key,
    pub owner: Key,
    pub backend_signer: Key,
    pub backend_signer_is_signer: bool,
    pub user_token_in: Key,
    pub user_token_out: Key,
    pub token_program: Key,
    pub raydium_amm_program: Key,
    pub raydium_amm: Key,
    pub raydium_amm_authority: Key,
    pub raydium_amm_open_orders: Key,
    pub raydium_amm_target_orders: Key,
    pub raydium_pool_coin_token_account: Key,
    pub raydium_pool_pc_token_account: Key,
    pub serum_program: Key,
    pub serum_market: Key,
    pub serum_bids: Key,
    pub serum_asks: Key,
    pub serum_event_queue: Key,
    pub serum_coin_vault_account: Key,
    pub serum_pc_vault_account: Key,
    pub serum_vault_signer: Key,
}

impl ExecuteSwap {
    pub open spec fn spec_authority(&self) -> AuthorizeSwap {
        AuthorizeSwap {
            bot_config: self.bot_config,
            owner: self.owner,
            backend_signer: self.backend_signer,
            backend_signer_is_signer: self.backend_signer_is_signer,
        }
    }

    /// The identities of the request, as the capability gate reads them.
    pub fn authority(&self) -> (r: AuthorizeSwap)
        ensures
            r == self.spec_authority(),
    {
        AuthorizeSwap {
            bot_config: self.bot_config,
            owner: self.owner,
            backend_signer: self.backend_signer,
            backend_signer_is_signer: self.backend_signer_is_signer,
        }
    }
}

/// One account of an outgoing instruction, with its signer and writable flags.
#[derive(Clone, Copy, Debug, PartialEq, Eq)]
pub struct AccountMeta {
    pub pubkey: Key,
    pub is_signer: bool,
    pub is_writable: bool,
}

impl AccountMeta {
    /// A writable account.
    pub fn new(pubkey: Key, is_signer: bool) -> (r: AccountMeta)
        ensures
            r == (AccountMeta { pubkey, is_signer, is_writable: true }),
    {
        AccountMeta { pubkey, is_signer, is_writable: true }
    }

    /// A read-only account.
    pub fn new_readonly(pubkey: Key, is_signer: bool) -> (r: AccountMeta)
        ensures
            r == (AccountMeta { pubkey, is_signer, is_writable: false }),
    {
        AccountMeta { pubkey, is_signer, is_writable: false }
    }
}

/// A call into the venue: its program, its accounts in order, and its payload.
#[derive(Clone, Debug, PartialEq, Eq)]
pub struct SwapInstruction {
    pub program_id: Key,
    pub accounts: Vec<AccountMeta>,
    pub data: Vec<u8>,
}

/// A swap call ready to be issued, with the seeds its signer is derived from.
#[derive(Clone, Debug, PartialEq, Eq)]
pub struct SignedSwap {
    pub instruction: SwapInstruction,
    pub signer_seeds: Vec<Vec<u8>>,
}

/// The capability gate of a delegated swap, in order: the record resolves
/// from the claimed owner, it is active, the caller is its executor and
/// signed, the amount is within the limit, and the counter can still grow.
pub open spec fn swap_gate(
    config: TradeBotConfig,
    auth: AuthorizeSwap,
    program_id: Seq<u8>,
    amount_in: u64,
) -> Result<(), TradingBotError> {
    if !record_resolves(config, auth.owner, auth.bot_config, program_id) {
        Err(TradingBotError::NotFound)
    } else if !config.is_active {
        Err(TradingBotError::BotNotActive)
    } else if !(auth.backend_signer_is_signer && auth.backend_signer@
        == config.backend_authority@) {
        Err(TradingBotError::UnauthorizedBackend)
    } else if amount_in > config.max_trade_amount {
        Err(TradingBotError::AmountExceedsLimit)
    } else if config.trades_executed == u64::MAX {
        Err(TradingBotError::CounterOverflow)
    } else {
        Ok(())
    }
}

/// Runs the capability gate. It changes nothing.
pub fn check_swap(
    config: &TradeBotConfig,
    auth: &AuthorizeSwap,
    program_id: &Key,
    amount_in: u64,
) -> (r: Result<(), TradingBotError>)
    ensures
        r == swap_gate(*config, *auth, program_id@, amount_in),
{
    if !(config.owner.same_as(&auth.owner) && is_config_address(
        &auth.owner,
        config.bump,
        program_id,
        &auth.bot_config,
    )) {
        return Err(TradingBotError::NotFound);
    }
    if !config.is_active {
        return Err(TradingBotError::BotNotActive);
    }
    if !(auth.backend_signer_is_signer && auth.backend_signer.same_as(&config.backend_authority)) {
        return Err(TradingBotError::UnauthorizedBackend);
    }
    if amount_in > config.max_trade_amount {
        return Err(TradingBotError::AmountExceedsLimit);
    }
    if config.trades_executed == u64::MAX {
        return Err(TradingBotError::CounterOverflow);
    }
    Ok(())
}

/// The record after one more counted trade.
pub open spec fn counted(config: TradeBotConfig) -> TradeBotConfig {
    TradeBotConfig { trades_executed: (config.trades_executed + 1) as u64, ..config }
}

/// The outcome of a swap that is validated and counted in one step.
pub open spec fn authorize_outcome(
    config: TradeBotConfig,
    auth: AuthorizeSwap,
    program_id: Seq<u8>,
    amount_in: u64,
) -> Result<TradeBotConfig, TradingBotError> {
    match swap_gate(config, auth, program_id, amount_in) {
        Ok(()) => Ok(counted(config)),
        Err(e) => Err(e),
    }
}

/// Validates and counts a swap that is executed elsewhere, through the same
/// gate as a delegated swap. On error the record is unchanged.
pub fn authorize_swap(
    config: &mut TradeBotConfig,
    auth: &AuthorizeSwap,
    program_id: &Key,
    amount_in: u64,
) -> (r: Result<(), TradingBotError>)
    ensures
        match authorize_outcome(*old(config), *auth, program_id@, amount_in) {
            Ok(c) => r is Ok && *final(config) == c,
            Err(e) => r == Err::<(), TradingBotError>(e) && *final(config) == *old(config),
        },
{
    check_swap(config, auth, program_id, amount_in)?;
    config.trades_executed = config.trades_executed + 1;
    Ok(())
}

/// Byte `i` of the little-endian encoding of `x`.
pub open spec fn le_byte(x: u64, i: int) -> u8 {
    ((x >> ((8 * i) as u64)) & 0xffu64) as u8
}

/// The eight-byte little-endian encoding of `x`.
pub open spec fn le_bytes(x: u64) -> Seq<u8> {
    Seq::new(8, |i: int| le_byte(x, i))
}

/// The venue's swap payload: the tag, then the input amount and the minimum
/// output, each as eight little-endian bytes.
pub open spec fn swap_data(amount_in: u64, minimum_amount_out: u64) -> Seq<u8> {
    seq![SWAP_DISCRIMINATOR] + le_bytes(amount_in) + le_bytes(minimum_amount_out)
}

fn push_le_bytes(data: &mut Vec<u8>, x: u64)
    ensures
        final(data)@ == old(data)@ + le_bytes(x),
{
    let ghost start = data@;
    let mut i: u64 = 0;
    while i < 8
        invariant
            0 <= i <= 8,
            data@ =~= start + le_bytes(x).subrange(0, i as int),
        decreases 8 - i,
    {
        let shift: u64 = 8 * i;
        data.push(((x >> shift) & 0xffu64) as u8);
        i = i + 1;
    }
    assert(le_bytes(x).subrange(0, 8) =~= le_bytes(x));
}

/// Encodes the venue's swap payload.
pub fn encode_swap_data(amount_in: u64, minimum_amount_out: u64) -> (r: Vec<u8>)
    ensures
        r@ == swap_data(amount_in, minimum_amount_out),
{
    let mut data: Vec<u8> = Vec::new();
    data.push(SWAP_DISCRIMINATOR);
    push_le_bytes(&mut data, amount_in);
    push_le_bytes(&mut data, minimum_amount_out);
    assert(data@ =~= swap_data(amount_in, minimum_amount_out));
    data
}

pub open spec fn meta(pubkey: Key, is_signer: bool, is_writable: bool) -> AccountMeta {
    AccountMeta { pubkey, is_signer, is_writable }
}

/// The venue's account sequence for a swap, in its fixed order, ending with
/// the record's address as the only signer.
pub open spec fn swap_accounts(ctx: ExecuteSwap) -> Seq<AccountMeta> {
    seq![
        meta(ctx.token_program, false, false),
        meta(ctx.raydium_amm, false, true),
        meta(ctx.raydium_amm_authority, false, false),
        meta(ctx.raydium_amm_open_orders, false, true),
        meta(ctx.raydium_amm_target_orders, false, true),
        meta(ctx.raydium_pool_coin_token_account, false, true),
        meta(ctx.raydium_pool_pc_token_account, false, true),
        meta(ctx.serum_program, false, false),
        meta(ctx.serum_market, false, true),
        meta(ctx.serum_bids, false, true),
        meta(ctx.serum_asks, false, true),
        meta(ctx.serum_event_queue, false, true),
        meta(ctx.serum_coin_vault_account, false, true),
        meta(ctx.serum_pc_vault_account, false, true),
        meta(ctx.serum_vault_signer, false, false),
        meta(ctx.user_token_in, false, true),
        meta(ctx.user_token_out, false, true),
        meta(ctx.bot_config, true, false),
    ]
}

/// The venue's swap instruction for a request.
pub open spec fn swap_instruction(
    ctx: ExecuteSwap,
    amount_in: u64,
    minimum_amount_out: u64,
) -> (SwapInstructionView) {
    SwapInstructionView {
        program_id: ctx.raydium_amm_program,
        accounts: swap_accounts(ctx),
        data: swap_data(amount_in, minimum_amount_out),
    }
}

/// What an instruction holds, as plain sequences.
pub struct SwapInstructionView {
    pub program_id: Key,
    pub accounts: Seq<AccountMeta>,
    pub data: Seq<u8>,
}

impl View for SwapInstruction {
    type V = SwapInstructionView;

    open spec fn view(&self) -> SwapInstructionView {
        SwapInstructionView { program_id: self.program_id, accounts: self.accounts@, data: self.data@ }
    }
}

/// Builds the venue's swap instruction, accounts in the venue's order.
pub fn build_swap_instruction(ctx: &ExecuteSwap, amount_in: u64, minimum_amount_out: u64) -> (r:
    SwapInstruction)
    ensures
        r@ == swap_instruction(*ctx, amount_in, minimum_amount_out),
        r.accounts@.len() == SWAP_ACCOUNT_COUNT,
{
    let mut accounts: Vec<AccountMeta> = Vec::new();
    accounts.push(AccountMeta::new_readonly(ctx.token_program, false));
    accounts.push(AccountMeta::new(ctx.raydium_amm, false));
    accounts.push(AccountMeta::new_readonly(ctx.raydium_amm_authority, false));
    accounts.push(AccountMeta::new(ctx.raydium_amm_open_orders, false));
    accounts.push(AccountMeta::new(ctx.raydium_amm_target_orders, false));
    accounts.push(AccountMeta::new(ctx.raydium_pool_coin_token_account, false));
    accounts.push(AccountMeta::new(ctx.raydium_pool_pc_token_account, false));
    accounts.push(AccountMeta::new_readonly(ctx.serum_program, false));
    accounts.push(AccountMeta::new(ctx.serum_market, false));
    accounts.push(AccountMeta::new(ctx.serum_bids, false));
    accounts.push(AccountMeta::new(ctx.serum_asks, false));
    accounts.push(AccountMeta::new(ctx.serum_event_queue, false));
    accounts.push(AccountMeta::new(ctx.serum_coin_vault_account, false));
    accounts.push(AccountMeta::new(ctx.serum_pc_vault_account, false));
    accounts.push(AccountMeta::new_readonly(ctx.serum_vault_signer, false));
    accounts.push(AccountMeta::new(ctx.user_token_in, false));
    accounts.push(AccountMeta::new(ctx.user_token_out, false));
    accounts.push(AccountMeta::new_readonly(ctx.bot_config, true));
    assert(accounts@ =~= swap_accounts(*ctx));
    SwapInstruction {
        program_id: ctx.raydium_amm_program,
        accounts,
        data: encode_swap_data(amount_in, minimum_amount_out),
    }
}

/// Prepares a delegated swap. Once the capability check accepts it, returns
/// the venue call and the seeds of its signer, the record's own derived
/// address; it changes nothing. The caller issues the call and then settles
/// it with `settle_swap`.
pub fn execute_swap(
    config: &TradeBotConfig,
    ctx: &ExecuteSwap,
    program_id: &Key,
    amount_in: u64,
    minimum_amount_out: u64,
) -> (r: Result<SignedSwap, TradingBotError>)
    ensures
        match swap_gate(*config, ctx.spec_authority(), program_id@, amount_in) {
            Err(e) => r == Err::<SignedSwap, TradingBotError>(e),
            Ok(()) => r matches Ok(s) && {
                &&& s.instruction@ == swap_instruction(*ctx, amount_in, minimum_amount_out)
                &&& seeds_view(s.signer_seeds@) == config_seeds(ctx.owner@).push(
                    seq![config.bump],
                )
                &&& program_address(seeds_view(s.signer_seeds@), program_id@) == Some(
                    ctx.bot_config@,
                )
            },
        },
{
    let auth = ctx.authority();
    check_swap(config, &auth, program_id, amount_in)?;
    let instruction = build_swap_instruction(ctx, amount_in, minimum_amount_out);
    let signer_seeds = config_signer_seeds(&ctx.owner, config.bump);
    Ok(SignedSwap { instruction, signer_seeds })
}

/// The record after the venue's answer to a prepared swap: counted once when
/// the call went through, unchanged when it failed.
pub open spec fn settled(config: TradeBotConfig, call_succeeded: bool) -> Result<
    TradeBotConfig,
    TradingBotError,
> {
    if !call_succeeded {
        Err(TradingBotError::DownstreamCallFailed)
    } else if config.trades_executed == u64::MAX {
        Err(TradingBotError::CounterOverflow)
    } else {
        Ok(counted(config))
    }
}

/// Settles a prepared swap with the venue's answer. On error the record is
/// unchanged.
pub fn settle_swap(config: &mut TradeBotConfig, call_succeeded: bool) -> (r: Result<
    (),
    TradingBotError,
>)
    ensures
        match settled(*old(config), call_succeeded) {
            Ok(c) => r is Ok && *final(config) == c,
            Err(e) => r == Err::<(), TradingBotError>(e) && *final(config) == *old(config),
        },
{
    if !call_succeeded {
        return Err(TradingBotError::DownstreamCallFailed);
    }
    match config.trades_executed.checked_add(1) {
        Some(n) => {
            config.trades_executed = n;
            Ok(())
        },
        None => Err(TradingBotError::CounterOverflow),
    }
}

} // verus!
