use inf1_jup_interface::{
    keys_signer_writable_to_metas, swap_and_account_metas, swap_mode_to_trade_limit_ty,
    trade_ix_args, AccountMeta, InfAmm, InfIds, InfPool, IxAccounts, LiquidityIx, Pair, Pubkey,
    Swap, SwapIx, SwapMode, SwapParams, TradeIx, TradeIxArgs, TradeLimitTy,
};
use std::sync::atomic::AtomicU64;
use std::sync::Arc;

fn pk(n: u8) -> Pubkey {
    let mut key = [n; 32];
    key[31] = 7;
    key
}

fn params(swap_mode: SwapMode) -> SwapParams {
    SwapParams {
        swap_mode,
        in_amount: 1_000,
        out_amount: 900,
        source_mint: pk(1),
        destination_mint: pk(2),
        source_token_account: pk(3),
        destination_token_account: pk(4),
        token_transfer_authority: pk(5),
        jupiter_program_id: pk(6),
    }
}

fn accs() -> IxAccounts {
    IxAccounts {
        keys: vec![pk(10), pk(11), pk(12)],
        signer: vec![true, false, false],
        writable: vec![false, true, false],
    }
}

fn meta(n: u8, is_writable: bool) -> AccountMeta {
    AccountMeta { pubkey: pk(n), is_signer: false, is_writable }
}

fn framed() -> Vec<AccountMeta> {
    vec![meta(20, false), meta(10, false), meta(11, true), meta(12, false), meta(6, false)]
}

fn swap_ix() -> SwapIx {
    SwapIx {
        inp_lst_value_calc_accs: 5,
        out_lst_value_calc_accs: 6,
        inp_lst_index: 70,
        out_lst_index: 80,
        accs: accs(),
    }
}

const SANCTUM_S: Swap = Swap::SanctumS {
    src_lst_value_calc_accs: 5,
    dst_lst_value_calc_accs: 6,
    src_lst_index: 70,
    dst_lst_index: 80,
};

#[test]
fn limit_ty_follows_the_swap_mode() {
    assert_eq!(swap_mode_to_trade_limit_ty(SwapMode::ExactIn), TradeLimitTy::ExactIn);
    assert_eq!(swap_mode_to_trade_limit_ty(SwapMode::ExactOut), TradeLimitTy::ExactOut);
}

#[test]
fn exact_in_limits_the_amount_out() {
    let (args, limit_ty) = trade_ix_args(&params(SwapMode::ExactIn));
    assert_eq!(limit_ty, TradeLimitTy::ExactIn);
    assert_eq!(
        args,
        TradeIxArgs {
            amt: 1_000,
            limit: 900,
            mints: Pair { inp: pk(1), out: pk(2) },
            signer: pk(5),
            token_accs: Pair { inp: pk(3), out: pk(4) },
        }
    );
}

#[test]
fn exact_out_limits_the_amount_in() {
    let (exact_in, _) = trade_ix_args(&params(SwapMode::ExactIn));
    let (args, limit_ty) = trade_ix_args(&params(SwapMode::ExactOut));
    assert_eq!(limit_ty, TradeLimitTy::ExactOut);
    assert_eq!(args, TradeIxArgs { amt: 900, limit: 1_000, ..exact_in });
}

#[test]
fn metas_never_sign_and_keep_the_writable_flag() {
    let metas = keys_signer_writable_to_metas(
        &[pk(1), pk(2)],
        &[true, true],
        &[true, false],
    );
    assert_eq!(metas, vec![meta(1, true), meta(2, false)]);
}

#[test]
fn shortest_list_counts() {
    let keys = [pk(1), pk(2), pk(3)];
    let short = [true];
    let long = [true, true, true];
    assert_eq!(keys_signer_writable_to_metas(&keys, &short, &long), vec![meta(1, true)]);
    assert_eq!(keys_signer_writable_to_metas(&keys, &long, &short), vec![meta(1, true)]);
    assert_eq!(keys_signer_writable_to_metas(&keys[..1], &long, &long), vec![meta(1, true)]);
    assert_eq!(keys_signer_writable_to_metas(&[], &long, &long), vec![]);
}

#[test]
fn placeholder_is_the_router() {
    let meta = params(SwapMode::ExactIn).placeholder_account_meta();
    assert_eq!(meta, AccountMeta { pubkey: pk(6), is_signer: false, is_writable: false });
}

#[test]
fn add_liquidity_is_framed() {
    let ix = TradeIx::AddLiquidity(LiquidityIx {
        lst_value_calc_accs: 3,
        lst_index: 9,
        accs: accs(),
    });
    let res = swap_and_account_metas(&pk(20), &params(SwapMode::ExactIn), &ix);
    assert_eq!(res.swap, Swap::SanctumSAddLiquidity { lst_value_calc_accs: 3, lst_index: 9 });
    assert_eq!(res.account_metas, framed());
}

#[test]
fn remove_liquidity_is_framed() {
    let ix = TradeIx::RemoveLiquidity(LiquidityIx {
        lst_value_calc_accs: 4,
        lst_index: 8,
        accs: accs(),
    });
    let res = swap_and_account_metas(&pk(20), &params(SwapMode::ExactIn), &ix);
    assert_eq!(res.swap, Swap::SanctumSRemoveLiquidity { lst_value_calc_accs: 4, lst_index: 8 });
    assert_eq!(res.account_metas, framed());
}

#[test]
fn exact_in_and_exact_out_are_one_swap() {
    for ix in [TradeIx::SwapExactIn(swap_ix()), TradeIx::SwapExactOut(swap_ix())] {
        let res = swap_and_account_metas(&pk(20), &params(SwapMode::ExactOut), &ix);
        assert_eq!(res.swap, SANCTUM_S);
        assert_eq!(res.account_metas, framed());
    }
}

#[test]
fn instruction_error_is_passed_on() {
    let amm = InfAmm {
        ids: InfIds {
            label: "INF".to_string(),
            program_id: pk(20),
            pool_state_id: pk(21),
            lst_state_list_id: pk(22),
            sysvar_clock: pk(23),
        },
        inner: InfPool { lp_token_mint: pk(24), lst_mints: None },
        current_epoch: Arc::new(AtomicU64::new(0)),
    };
    let params = params(SwapMode::ExactIn);
    assert_eq!(amm.get_swap_and_account_metas(&params, Err("no such LST")).err(), Some("no such LST"));
    let ix: Result<TradeIx, &str> = Ok(TradeIx::SwapExactIn(swap_ix()));
    let res = amm.get_swap_and_account_metas(&params, ix).unwrap();
    assert_eq!(res.swap, SANCTUM_S);
    assert_eq!(res.account_metas, framed());
}
