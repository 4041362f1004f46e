use inf1_jup_interface::{
    answer_quote, check_mint_epoch, request_quote, svc_lookup, to_jup_quote, DecimalErr, FeeFraction,
    FeeQuote, InfAmm, InfIds, InfPool, Pair, PoolQuote, Pubkey, Quote, QuoteErr, QuoteParams, QuoteTradeArgs,
    SolValCalc, StakePool, SvcLookup, SwapMode, TradeLimitTy, TradeQuote,
};
use rust_decimal::Decimal;
use std::sync::atomic::{AtomicU64, Ordering};
use std::sync::Arc;

fn pk(n: u8) -> Pubkey {
    [n; 32]
}

fn params(swap_mode: SwapMode) -> QuoteParams {
    QuoteParams { amount: 55, input_mint: pk(1), output_mint: pk(2), swap_mode }
}

fn args(limit_ty: TradeLimitTy) -> QuoteTradeArgs {
    QuoteTradeArgs { mints: Pair { inp: pk(1), out: pk(2) }, amount: 55, limit_ty }
}

fn found(calc: SolValCalc) -> SvcLookup<&'static str> {
    SvcLookup::Found(Some(calc))
}

fn lido(computed_in_epoch: u64) -> SvcLookup<&'static str> {
    found(SolValCalc::Lido { computed_in_epoch })
}

fn spl(last_update_epoch: u64) -> SvcLookup<&'static str> {
    found(SolValCalc::Spl { last_update_epoch })
}

const UNAFFECTED: SvcLookup<&str> = SvcLookup::NotEpochAffected;

fn pool_quote() -> PoolQuote {
    PoolQuote {
        inp: 1_000,
        out: 970,
        lp_fee: 20,
        protocol_fee: 10,
        inp_mint: pk(1),
        out_mint: pk(2),
    }
}

#[test]
fn lido_is_refused_before_its_update() {
    assert_eq!(
        check_mint_epoch(&pk(1), lido(99), 100),
        Err(QuoteErr::NotUpdated(StakePool::Lido))
    );
    assert_eq!(check_mint_epoch(&pk(1), lido(100), 100), Ok(()));
    assert_eq!(check_mint_epoch(&pk(1), lido(101), 100), Ok(()));
}

#[test]
fn all_spl_pools_are_refused_alike() {
    for calc in [
        SolValCalc::SanctumSpl { last_update_epoch: 99 },
        SolValCalc::SanctumSplMulti { last_update_epoch: 99 },
        SolValCalc::Spl { last_update_epoch: 99 },
    ] {
        assert_eq!(
            check_mint_epoch(&pk(1), found(calc), 100),
            Err(QuoteErr::NotUpdated(StakePool::Spl))
        );
        assert_eq!(
            check_mint_epoch(&pk(1), found(calc), 5_000),
            Err(QuoteErr::NotUpdated(StakePool::Spl))
        );
        assert_eq!(check_mint_epoch(&pk(1), found(calc), 99), Ok(()));
    }
}

#[test]
fn unaffected_mints_are_never_refused() {
    for lookup in [UNAFFECTED, found(SolValCalc::Marinade), found(SolValCalc::Wsol)] {
        assert_eq!(check_mint_epoch(&pk(1), lookup, u64::MAX), Ok(()));
    }
    assert_eq!(
        request_quote(
            &params(SwapMode::ExactIn),
            found(SolValCalc::Wsol),
            UNAFFECTED,
            u64::MAX,
            u64::MAX
        ),
        Ok(args(TradeLimitTy::ExactIn))
    );
}

#[test]
fn missing_data_and_failed_lookups_are_reported() {
    assert_eq!(
        check_mint_epoch::<&str>(&pk(9), SvcLookup::Found(None), 0),
        Err(QuoteErr::MissingSvcData { mint: pk(9) })
    );
    assert_eq!(
        check_mint_epoch(&pk(9), SvcLookup::Failed("unsupported mint"), 0),
        Err(QuoteErr::Inner("unsupported mint"))
    );
}

#[test]
fn lookup_counts_only_where_the_epoch_matters() {
    let calc = SolValCalc::Spl { last_update_epoch: 7 };
    assert!(matches!(svc_lookup(false, Ok::<_, &str>(Some(calc))), SvcLookup::NotEpochAffected));
    assert!(matches!(svc_lookup(false, Err("unsupported mint")), SvcLookup::NotEpochAffected));
    assert!(matches!(
        svc_lookup(true, Ok::<_, &str>(Some(calc))),
        SvcLookup::Found(Some(SolValCalc::Spl { last_update_epoch: 7 }))
    ));
    assert!(matches!(svc_lookup(true, Ok::<_, &str>(None)), SvcLookup::Found(None)));
    assert!(matches!(
        svc_lookup(true, Err("unsupported mint")),
        SvcLookup::Failed("unsupported mint")
    ));
}

#[test]
fn request_hands_on_what_was_asked_for() {
    assert_eq!(
        request_quote(&params(SwapMode::ExactIn), lido(100), spl(100), 100, 100),
        Ok(args(TradeLimitTy::ExactIn))
    );
    assert_eq!(
        request_quote(&params(SwapMode::ExactOut), UNAFFECTED, spl(100), 100, 100),
        Ok(args(TradeLimitTy::ExactOut))
    );
}

#[test]
fn input_mint_is_tested_first() {
    assert_eq!(
        request_quote(&params(SwapMode::ExactIn), lido(99), spl(99), 100, 100),
        Err(QuoteErr::NotUpdated(StakePool::Lido))
    );
    assert_eq!(
        request_quote(
            &params(SwapMode::ExactIn),
            SvcLookup::<&str>::Found(None),
            SvcLookup::Found(None),
            100,
            100
        ),
        Err(QuoteErr::MissingSvcData { mint: pk(1) })
    );
    assert_eq!(
        request_quote(
            &params(SwapMode::ExactIn),
            lido(100),
            SvcLookup::Found(None),
            100,
            100
        ),
        Err(QuoteErr::MissingSvcData { mint: pk(2) })
    );
}

#[test]
fn stale_pool_is_reported_alike_on_both_sides() {
    let as_input = request_quote(&params(SwapMode::ExactIn), spl(7), UNAFFECTED, 8, 8);
    let as_output = request_quote(&params(SwapMode::ExactIn), UNAFFECTED, spl(7), 8, 8);
    assert_eq!(as_input, Err(QuoteErr::NotUpdated(StakePool::Spl)));
    assert_eq!(as_input, as_output);
}

#[test]
fn quote_follows_the_routers_epoch() {
    let current_epoch = Arc::new(AtomicU64::new(100));
    let amm = InfAmm::with_epoch(
        InfIds {
            label: "INF".to_string(),
            program_id: pk(20),
            pool_state_id: pk(21),
            lst_state_list_id: pk(22),
            sysvar_clock: pk(23),
        },
        InfPool { lp_token_mint: pk(24), lst_mints: None },
        &current_epoch,
    );
    assert!(Arc::ptr_eq(&amm.current_epoch, &current_epoch));
    let params = params(SwapMode::ExactIn);
    assert_eq!(amm.quote(&params, lido(100), spl(100)), Ok(args(TradeLimitTy::ExactIn)));
    current_epoch.store(101, Ordering::Relaxed);
    assert_eq!(
        amm.quote(&params, lido(100), spl(100)),
        Err(QuoteErr::NotUpdated(StakePool::Lido))
    );
    assert_eq!(
        amm.clone().quote(&params, lido(101), spl(100)),
        Err(QuoteErr::NotUpdated(StakePool::Spl))
    );
}

#[test]
fn fee_in_the_input_mint_is_a_share_of_the_input() {
    assert_eq!(
        to_jup_quote(&pk(1), pool_quote()),
        Ok(Quote {
            in_amount: 1_000,
            out_amount: 970,
            fee_amount: 30,
            fee_mint: pk(1),
            fee_pct: FeeFraction { fee: 30, total: 1_000 },
        })
    );
}

#[test]
fn fee_in_the_output_mint_is_a_share_of_the_output_and_the_fee() {
    let quote = PoolQuote { out: 270, ..pool_quote() };
    assert_eq!(
        to_jup_quote(&pk(2), quote),
        Ok(Quote {
            in_amount: 1_000,
            out_amount: 270,
            fee_amount: 30,
            fee_mint: pk(2),
            fee_pct: FeeFraction { fee: 30, total: 300 },
        })
    );
}

#[test]
fn fee_sums_are_capped() {
    let quote = PoolQuote { lp_fee: u64::MAX, protocol_fee: 1, ..pool_quote() };
    let res = to_jup_quote(&pk(2), quote).unwrap();
    assert_eq!(res.fee_amount, u64::MAX);
    assert_eq!(res.fee_pct, FeeFraction { fee: u64::MAX, total: u64::MAX });
}

#[test]
fn fee_of_nothing_is_an_error() {
    let no_input = PoolQuote { inp: 0, ..pool_quote() };
    assert_eq!(to_jup_quote(&pk(1), no_input), Err(DecimalErr));
    let free_input = PoolQuote { inp: 0, lp_fee: 0, protocol_fee: 0, ..pool_quote() };
    assert_eq!(to_jup_quote(&pk(1), free_input), Err(DecimalErr));
    let no_output = PoolQuote { out: 0, lp_fee: 0, protocol_fee: 0, ..pool_quote() };
    assert_eq!(to_jup_quote(&pk(2), no_output), Err(DecimalErr));
    let all_fee = PoolQuote { out: 0, ..pool_quote() };
    assert_eq!(
        to_jup_quote(&pk(2), all_fee).unwrap().fee_pct,
        FeeFraction { fee: 30, total: 30 }
    );
}

#[test]
fn free_trade_has_a_quote() {
    let free = PoolQuote { lp_fee: 0, protocol_fee: 0, ..pool_quote() };
    assert_eq!(to_jup_quote(&pk(2), free).unwrap().fee_pct, FeeFraction { fee: 0, total: 970 });
}

#[test]
fn fractions_have_a_decimal_exactly_where_there_is_a_quote() {
    let decimal = |fee: u64, total: u64| Decimal::from_f64_retain((fee as f64) / (total as f64));
    assert_eq!(decimal(30, 300).unwrap().round_dp(15), Decimal::new(1, 1));
    assert_eq!(decimal(1, 4), Some(Decimal::new(25, 2)));
    for (fee, total) in [(0, 1), (1, u64::MAX), (u64::MAX, 1), (u64::MAX, u64::MAX), (0, u64::MAX)] {
        assert!(decimal(fee, total).is_some());
    }
    assert_eq!(decimal(0, 0), None);
    assert_eq!(decimal(30, 0), None);
}

#[test]
fn answer_does_not_depend_on_the_kind_of_trade() {
    let q = FeeQuote { fee_mint: pk(1), quote: pool_quote() };
    for trade in [
        TradeQuote::AddLiquidity(q),
        TradeQuote::RemoveLiquidity(q),
        TradeQuote::SwapExactIn(q),
        TradeQuote::SwapExactOut(q),
    ] {
        let res: Result<Quote, QuoteErr<&str>> = answer_quote(Ok(trade));
        assert_eq!(res.unwrap().fee_pct, FeeFraction { fee: 30, total: 1_000 });
    }
}

#[test]
fn answer_reports_errors() {
    assert_eq!(answer_quote(Err("pool is off")), Err(QuoteErr::Inner("pool is off")));
    let q = FeeQuote { fee_mint: pk(1), quote: PoolQuote { inp: 0, ..pool_quote() } };
    let res: Result<Quote, QuoteErr<&str>> = answer_quote(Ok(TradeQuote::SwapExactIn(q)));
    assert_eq!(res, Err(QuoteErr::Decimal));
}
