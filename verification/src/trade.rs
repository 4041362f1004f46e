//! Trades: how a swap request becomes an instruction of the pool's program.

use crate::account_meta::{keys_signer_writable_to_metas, new_readonly, AccountMeta};
use crate::pubkey::Pubkey;
use vstd::prelude::*;

#[allow(unused_imports)]
use crate::account_meta::{law_accounts_are_paired_place_by_place, paired_len, paired_metas};

verus! {

/// Which of the two amounts of a swap the router fixes.
#[derive(Debug, Clone, Copy, PartialEq, Eq)]
pub enum SwapMode {
    ExactIn,
    ExactOut,
}

/// Which of the two amounts of a trade is exact; the other one is limited.
#[derive(Debug, Clone, Copy, PartialEq, Eq)]
pub enum TradeLimitTy {
    ExactIn,
    ExactOut,
}

/// The kind of limit that a swap mode asks for.
pub fn swap_mode_to_trade_limit_ty(sm: SwapMode) -> (limit_ty: TradeLimitTy)
    ensures
        limit_ty == limit_ty_of(sm),
        limit_ty is ExactIn <==> sm is ExactIn,
        limit_ty is ExactOut <==> sm is ExactOut,
{
    match sm {
        SwapMode::ExactIn => TradeLimitTy::ExactIn,
        SwapMode::ExactOut => TradeLimitTy::ExactOut,
    }
}

/// The kind of limit that fixes the same amount as the swap mode does.
pub open spec fn limit_ty_of(sm: SwapMode) -> TradeLimitTy {
    if sm == SwapMode::ExactIn {
        TradeLimitTy::ExactIn
    } else {
        TradeLimitTy::ExactOut
    }
}

/// What goes in and what comes out.
#[derive(Debug, Clone, Copy, PartialEq, Eq)]
pub struct Pair {
    pub inp: Pubkey,
    pub out: Pubkey,
}

/// A swap that the router wants an instruction for.
#[derive(Debug, Clone, Copy)]
pub struct SwapParams {
    pub swap_mode: SwapMode,
    pub in_amount: u64,
    pub out_amount: u64,
    pub source_mint: Pubkey,
    pub destination_mint: Pubkey,
    pub source_token_account: Pubkey,
    pub destination_token_account: Pubkey,
    /// The user, or the program authority over the source token account.
    pub token_transfer_authority: Pubkey,
    pub jupiter_program_id: Pubkey,
}

impl SwapParams {
    /// The meta that ends the accounts of a swap: the router's own program.
    pub fn placeholder_account_meta(&self) -> (meta: AccountMeta)
        ensures
            meta == AccountMeta::plain(self.jupiter_program_id),
            meta.pubkey == self.jupiter_program_id,
            !meta.is_signer,
            !meta.is_writable,
    {
        new_readonly(&self.jupiter_program_id, false)
    }
}

/// What the pool is given to build the instruction of a trade.
#[derive(Debug, Clone, Copy, PartialEq, Eq)]
pub struct TradeIxArgs {
    /// The exact amount.
    pub amt: u64,
    /// The least amount out, or the most amount in.
    pub limit: u64,
    pub mints: Pair,
    pub signer: Pubkey,
    pub token_accs: Pair,
}

/// What the instruction for `params` is built from.
pub open spec fn ix_args_of(params: SwapParams) -> TradeIxArgs {
    TradeIxArgs {
        amt: if params.swap_mode == SwapMode::ExactIn {
            params.in_amount
        } else {
            params.out_amount
        },
        limit: if params.swap_mode == SwapMode::ExactIn {
            params.out_amount
        } else {
            params.in_amount
        },
        mints: Pair { inp: params.source_mint, out: params.destination_mint },
        signer: params.token_transfer_authority,
        token_accs: Pair {
            inp: params.source_token_account,
            out: params.destination_token_account,
        },
    }
}

/// What to ask the pool for to serve `params`: the arguments of the instruction
/// and the kind of limit.
pub fn trade_ix_args(params: &SwapParams) -> (args: (TradeIxArgs, TradeLimitTy))
    ensures
        args.0 == ix_args_of(*params),
        args.1 == limit_ty_of(params.swap_mode),
        args.1 is ExactIn <==> params.swap_mode is ExactIn,
        args.0.mints.inp == params.source_mint,
        args.0.mints.out == params.destination_mint,
        args.0.signer == params.token_transfer_authority,
        args.0.token_accs.inp == params.source_token_account,
        args.0.token_accs.out == params.destination_token_account,
        args.1 is ExactIn ==> args.0.amt == params.in_amount && args.0.limit == params.out_amount,
        args.1 is ExactOut ==> args.0.amt == params.out_amount && args.0.limit == params.in_amount,
{
    let limit_ty = swap_mode_to_trade_limit_ty(params.swap_mode);
    let (amt, limit): (u64, u64) = match limit_ty {
        TradeLimitTy::ExactIn => (params.in_amount, params.out_amount),
        TradeLimitTy::ExactOut => (params.out_amount, params.in_amount),
    };
    let args = TradeIxArgs {
        amt,
        limit,
        mints: Pair { inp: params.source_mint, out: params.destination_mint },
        signer: params.token_transfer_authority,
        token_accs: Pair {
            inp: params.source_token_account,
            out: params.destination_token_account,
        },
    };
    (args, limit_ty)
}

/// The accounts of an instruction, as three lists that run in step.
#[derive(Debug)]
pub struct IxAccounts {
    pub keys: Vec<Pubkey>,
    pub signer: Vec<bool>,
    pub writable: Vec<bool>,
}

impl IxAccounts {
    /// The accounts as the router is told of them.
    pub open spec fn metas(self) -> Seq<AccountMeta> {
        paired_metas(self.keys@, self.signer@, self.writable@)
    }
}

/// An instruction that adds or removes liquidity in one LST.
#[derive(Debug)]
pub struct LiquidityIx {
    pub lst_value_calc_accs: u8,
    pub lst_index: u32,
    pub accs: IxAccounts,
}

/// An instruction that swaps one LST for another.
#[derive(Debug)]
pub struct SwapIx {
    pub inp_lst_value_calc_accs: u8,
    pub out_lst_value_calc_accs: u8,
    pub inp_lst_index: u32,
    pub out_lst_index: u32,
    pub accs: IxAccounts,
}

/// The instruction of a trade. Which one it is depends on the two mints: one of
/// them may be the pool's own LP token.
#[derive(Debug)]
pub enum TradeIx {
    AddLiquidity(LiquidityIx),
    RemoveLiquidity(LiquidityIx),
    SwapExactIn(SwapIx),
    SwapExactOut(SwapIx),
}

/// The swap that the router is to perform.
#[derive(Debug, Clone, Copy, PartialEq, Eq)]
pub enum Swap {
    SanctumS {
        src_lst_value_calc_accs: u8,
        dst_lst_value_calc_accs: u8,
        src_lst_index: u32,
        dst_lst_index: u32,
    },
    SanctumSAddLiquidity { lst_value_calc_accs: u8, lst_index: u32 },
    SanctumSRemoveLiquidity { lst_value_calc_accs: u8, lst_index: u32 },
}

impl TradeIx {
    /// The swap that performs the instruction.
    pub open spec fn swap(self) -> Swap {
        match self {
            TradeIx::AddLiquidity(ix) => Swap::SanctumSAddLiquidity {
                lst_value_calc_accs: ix.lst_value_calc_accs,
                lst_index: ix.lst_index,
            },
            TradeIx::RemoveLiquidity(ix) => Swap::SanctumSRemoveLiquidity {
                lst_value_calc_accs: ix.lst_value_calc_accs,
                lst_index: ix.lst_index,
            },
            TradeIx::SwapExactIn(ix) => ix.swap(),
            TradeIx::SwapExactOut(ix) => ix.swap(),
        }
    }

    /// The accounts of the instruction.
    pub open spec fn accs(self) -> IxAccounts {
        match self {
            TradeIx::AddLiquidity(ix) => ix.accs,
            TradeIx::RemoveLiquidity(ix) => ix.accs,
            TradeIx::SwapExactIn(ix) => ix.accs,
            TradeIx::SwapExactOut(ix) => ix.accs,
        }
    }
}

impl SwapIx {
    /// The swap that performs the instruction: the router makes no difference
    /// between an exact amount in and an exact amount out.
    pub open spec fn swap(self) -> Swap {
        Swap::SanctumS {
            src_lst_value_calc_accs: self.inp_lst_value_calc_accs,
            dst_lst_value_calc_accs: self.out_lst_value_calc_accs,
            src_lst_index: self.inp_lst_index,
            dst_lst_index: self.out_lst_index,
        }
    }
}

/// A swap, with the accounts that it needs.
#[derive(Debug)]
pub struct SwapAndAccountMetas {
    pub swap: Swap,
    pub account_metas: Vec<AccountMeta>,
}

/// The accounts of a swap: the pool's program, then those of the instruction, then
/// the placeholder.
pub open spec fn swap_metas(
    program_id: Pubkey,
    accs: IxAccounts,
    jupiter_program_id: Pubkey,
) -> Seq<AccountMeta> {
    seq![AccountMeta::plain(program_id)] + accs.metas() + seq![
        AccountMeta::plain(jupiter_program_id),
    ]
}

/// Turns an instruction of the pool into a swap of the router.
pub fn swap_and_account_metas(
    program_id: &Pubkey,
    params: &SwapParams,
    ix: &TradeIx,
) -> (res: SwapAndAccountMetas)
    ensures
        res.swap == ix.swap(),
        res.account_metas@ == swap_metas(*program_id, ix.accs(), params.jupiter_program_id),
        match *ix {
            TradeIx::AddLiquidity(ix) => res.swap matches Swap::SanctumSAddLiquidity {
                lst_value_calc_accs,
                lst_index,
            } && lst_value_calc_accs == ix.lst_value_calc_accs && lst_index == ix.lst_index,
            TradeIx::RemoveLiquidity(ix) => res.swap matches Swap::SanctumSRemoveLiquidity {
                lst_value_calc_accs,
                lst_index,
            } && lst_value_calc_accs == ix.lst_value_calc_accs && lst_index == ix.lst_index,
            TradeIx::SwapExactIn(ix) | TradeIx::SwapExactOut(ix) => res.swap
                matches Swap::SanctumS {
                src_lst_value_calc_accs,
                dst_lst_value_calc_accs,
                src_lst_index,
                dst_lst_index,
            } && src_lst_value_calc_accs == ix.inp_lst_value_calc_accs && dst_lst_value_calc_accs
                == ix.out_lst_value_calc_accs && src_lst_index == ix.inp_lst_index
                && dst_lst_index == ix.out_lst_index,
        },
{
    let mut account_metas: Vec<AccountMeta> = Vec::new();
    account_metas.push(new_readonly(program_id, false));
    let swap = match ix {
        TradeIx::AddLiquidity(ix) => {
            push_ix_metas(&mut account_metas, &ix.accs);
            Swap::SanctumSAddLiquidity {
                lst_value_calc_accs: ix.lst_value_calc_accs,
                lst_index: ix.lst_index,
            }
        },
        TradeIx::RemoveLiquidity(ix) => {
            push_ix_metas(&mut account_metas, &ix.accs);
            Swap::SanctumSRemoveLiquidity {
                lst_value_calc_accs: ix.lst_value_calc_accs,
                lst_index: ix.lst_index,
            }
        },
        TradeIx::SwapExactIn(ix) => {
            push_ix_metas(&mut account_metas, &ix.accs);
            Swap::SanctumS {
                src_lst_value_calc_accs: ix.inp_lst_value_calc_accs,
                dst_lst_value_calc_accs: ix.out_lst_value_calc_accs,
                src_lst_index: ix.inp_lst_index,
                dst_lst_index: ix.out_lst_index,
            }
        },
        TradeIx::SwapExactOut(ix) => {
            push_ix_metas(&mut account_metas, &ix.accs);
            Swap::SanctumS {
                src_lst_value_calc_accs: ix.inp_lst_value_calc_accs,
                dst_lst_value_calc_accs: ix.out_lst_value_calc_accs,
                src_lst_index: ix.inp_lst_index,
                dst_lst_index: ix.out_lst_index,
            }
        },
    };
    account_metas.push(params.placeholder_account_meta());
    SwapAndAccountMetas { swap, account_metas }
}

/// Adds the accounts of an instruction to `account_metas`.
fn push_ix_metas(account_metas: &mut Vec<AccountMeta>, accs: &IxAccounts)
    ensures
        final(account_metas)@ == old(account_metas)@ + accs.metas(),
{
    let mut metas = keys_signer_writable_to_metas(
        accs.keys.as_slice(),
        accs.signer.as_slice(),
        accs.writable.as_slice(),
    );
    account_metas.append(&mut metas);
}

/// To ask for the same two amounts in the other mode swaps what is exact with what
/// is limited, and changes nothing else.
pub proof fn law_swap_mode_exchanges_amount_and_limit(params: SwapParams, other: SwapParams)
    requires
        other == (SwapParams { swap_mode: other.swap_mode, ..params }),
        other.swap_mode != params.swap_mode,
    ensures
        ix_args_of(other) == (TradeIxArgs {
            amt: ix_args_of(params).limit,
            limit: ix_args_of(params).amt,
            ..ix_args_of(params)
        }),
        limit_ty_of(other.swap_mode) != limit_ty_of(params.swap_mode),
{
}

/// None of the accounts of a swap is a signer, whatever the instruction asks for.
pub proof fn law_swap_has_no_signer(
    program_id: Pubkey,
    accs: IxAccounts,
    jupiter_program_id: Pubkey,
    i: int,
)
    requires
        0 <= i < swap_metas(program_id, accs, jupiter_program_id).len(),
    ensures
        !swap_metas(program_id, accs, jupiter_program_id)[i].is_signer,
{
}

/// The accounts of a swap are two more than those of the instruction. The first
/// one is the pool's program and the last one the placeholder, and neither is
/// written. Between them stand the accounts of the instruction, in order, and each
/// is written exactly where the instruction writes it.
pub proof fn law_swap_metas_frame_the_instruction(
    program_id: Pubkey,
    accs: IxAccounts,
    jupiter_program_id: Pubkey,
)
    ensures
        ({
            let metas = swap_metas(program_id, accs, jupiter_program_id);
            let n = paired_len(accs.keys@, accs.signer@, accs.writable@);
            &&& metas.len() == n + 2
            &&& metas.first() == AccountMeta::plain(program_id)
            &&& metas.last() == AccountMeta::plain(jupiter_program_id)
            &&& forall|i: int|
                0 <= i < n ==> (#[trigger] metas[i + 1]).pubkey == accs.keys@[i]
                    && metas[i + 1].is_writable == accs.writable@[i]
        }),
{
}

/// An exact amount in and an exact amount out of the same two LSTs are the same
/// swap to the router.
pub proof fn law_exact_in_and_exact_out_are_one_swap(ix: SwapIx)
    ensures
        TradeIx::SwapExactIn(ix).swap() == TradeIx::SwapExactOut(ix).swap(),
        TradeIx::SwapExactIn(ix).accs() == TradeIx::SwapExactOut(ix).accs(),
{
}

/// The limit fixes the amount in exactly where the swap mode does, and likewise the amount
/// out.
pub proof fn law_limit_fixes_what_the_swap_mode_fixes(sm: SwapMode)
    ensures
        limit_ty_of(sm) is ExactIn <==> sm is ExactIn,
        limit_ty_of(sm) is ExactOut <==> sm is ExactOut,
{
}

/// The instruction is built from what was asked for: what goes in is the source and what
/// comes out the destination, with the mint as with the token account, and the signer is
/// the authority over the transfer. The exact amount is the one that the mode names, and
/// the other one is the limit.
pub proof fn law_instruction_is_built_from_what_was_asked_for(params: SwapParams)
    ensures
        ({
            let args = ix_args_of(params);
            &&& args.mints.inp == params.source_mint
            &&& args.mints.out == params.destination_mint
            &&& args.token_accs.inp == params.source_token_account
            &&& args.token_accs.out == params.destination_token_account
            &&& args.signer == params.token_transfer_authority
            &&& params.swap_mode is ExactIn ==> args.amt == params.in_amount && args.limit
                == params.out_amount
            &&& params.swap_mode is ExactOut ==> args.amt == params.out_amount && args.limit
                == params.in_amount
        }),
{
}

/// The way back: to exchange source and destination of a swap, and the swap mode and the
/// amounts with them, exchanges what goes in with what comes out, and keeps the exact
/// amount and the limit.
pub proof fn law_way_back_exchanges_in_and_out(params: SwapParams, back: SwapParams)
    requires
        back.swap_mode != params.swap_mode,
        back.in_amount == params.out_amount,
        back.out_amount == params.in_amount,
        back.source_mint == params.destination_mint,
        back.destination_mint == params.source_mint,
        back.source_token_account == params.destination_token_account,
        back.destination_token_account == params.source_token_account,
    ensures
        ix_args_of(back).amt == ix_args_of(params).amt,
        ix_args_of(back).limit == ix_args_of(params).limit,
        ix_args_of(back).mints.inp == ix_args_of(params).mints.out,
        ix_args_of(back).mints.out == ix_args_of(params).mints.inp,
        ix_args_of(back).token_accs.inp == ix_args_of(params).token_accs.out,
        ix_args_of(back).token_accs.out == ix_args_of(params).token_accs.inp,
{
}

/// The source of a swap is the LST that goes in and its destination the LST that comes
/// out, each with its place on the list and its number of calculator accounts, for an
/// exact amount in as for an exact amount out.
pub proof fn law_swap_goes_from_input_to_output(ix: SwapIx, trade: TradeIx)
    requires
        trade == TradeIx::SwapExactIn(ix) || trade == TradeIx::SwapExactOut(ix),
    ensures
        trade.swap() is SanctumS,
        trade.swap()->src_lst_index == ix.inp_lst_index,
        trade.swap()->dst_lst_index == ix.out_lst_index,
        trade.swap()->src_lst_value_calc_accs == ix.inp_lst_value_calc_accs,
        trade.swap()->dst_lst_value_calc_accs == ix.out_lst_value_calc_accs,
        trade.accs() == ix.accs,
{
}

/// To exchange input and output of the instruction exchanges source and destination of the
/// swap.
pub proof fn law_exchanged_instruction_is_the_exchanged_swap(ix: SwapIx, back: SwapIx)
    requires
        back.inp_lst_index == ix.out_lst_index,
        back.out_lst_index == ix.inp_lst_index,
        back.inp_lst_value_calc_accs == ix.out_lst_value_calc_accs,
        back.out_lst_value_calc_accs == ix.inp_lst_value_calc_accs,
    ensures
        back.swap()->src_lst_index == ix.swap()->dst_lst_index,
        back.swap()->dst_lst_index == ix.swap()->src_lst_index,
        back.swap()->src_lst_value_calc_accs == ix.swap()->dst_lst_value_calc_accs,
        back.swap()->dst_lst_value_calc_accs == ix.swap()->src_lst_value_calc_accs,
{
}

/// To add liquidity and to remove it are swaps of their own. Both name the LST of the
/// instruction by its place on the list and its number of calculator accounts, and carry
/// the accounts of the instruction.
pub proof fn law_liquidity_names_its_lst(ix: LiquidityIx)
    ensures
        TradeIx::AddLiquidity(ix).swap() matches Swap::SanctumSAddLiquidity {
            lst_value_calc_accs,
            lst_index,
        } && lst_value_calc_accs == ix.lst_value_calc_accs && lst_index == ix.lst_index,
        TradeIx::RemoveLiquidity(ix).swap() matches Swap::SanctumSRemoveLiquidity {
            lst_value_calc_accs,
            lst_index,
        } && lst_value_calc_accs == ix.lst_value_calc_accs && lst_index == ix.lst_index,
        TradeIx::AddLiquidity(ix).accs() == ix.accs,
        TradeIx::RemoveLiquidity(ix).accs() == ix.accs,
{
}

/// The accounts of a swap, place by place: the pool's program comes first and the router's
/// last, and neither signs nor is written. All the accounts of the instruction stand between
/// them, in order, none of them a signer and each written exactly where the instruction
/// writes it. `n` is the number of accounts of the instruction: the length of its
/// shortest list.
pub proof fn law_swap_carries_every_account_of_the_instruction(
    program_id: Pubkey,
    accs: IxAccounts,
    jupiter_program_id: Pubkey,
    n: nat,
)
    requires
        n <= accs.keys@.len(),
        n <= accs.signer@.len(),
        n <= accs.writable@.len(),
        n == accs.keys@.len() || n == accs.signer@.len() || n == accs.writable@.len(),
    ensures
        ({
            let metas = swap_metas(program_id, accs, jupiter_program_id);
            &&& metas.len() == n + 2
            &&& metas[0].pubkey == program_id
            &&& !metas[0].is_signer && !metas[0].is_writable
            &&& metas.last().pubkey == jupiter_program_id
            &&& !metas.last().is_signer && !metas.last().is_writable
            &&& forall|i: int|
                1 <= i <= n ==> (#[trigger] metas[i]).pubkey == accs.keys@[i - 1]
                    && metas[i].is_writable == accs.writable@[i - 1] && !metas[i].is_signer
        }),
{
    law_accounts_are_paired_place_by_place(accs.keys@, accs.signer@, accs.writable@, n);
}

} // verus!
