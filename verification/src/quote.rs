//! Quotes: when one is refused, and what one says.
//!
//! A stake pool whose price was last computed in an earlier epoch takes no trades
//! until it is updated. The clock is not among the accounts that are fetched, so
//! the calculators do not notice by themselves. It is when a quote is asked for that
//! the epoch of the stake pool's last update is held against the current one.

use crate::calc::SolValCalc;
use crate::pubkey::{pubkey_eq, Pubkey};
use crate::trade::{swap_mode_to_trade_limit_ty, Pair, SwapMode, TradeLimitTy};
use vstd::prelude::*;

#[allow(unused_imports)]
use crate::calc::SvcKind;
#[allow(unused_imports)]
use crate::trade::limit_ty_of;

verus! {

/// A quote that the router asks for.
#[derive(Debug, Clone, Copy)]
pub struct QuoteParams {
    pub amount: u64,
    pub input_mint: Pubkey,
    pub output_mint: Pubkey,
    pub swap_mode: SwapMode,
}

/// What is known of the calculator of a mint. `E` is an error of the pool.
#[derive(Debug)]
pub enum SvcLookup<E> {
    /// The mint does not depend on the epoch, so its calculator does not matter.
    NotEpochAffected,
    /// The calculator of the LST; `None` if its accounts were not fetched yet.
    Found(Option<SolValCalc>),
    /// The pool does not know the LST.
    Failed(E),
}

/// What is known of the calculator of a mint: nothing is asked of it unless the mint
/// depends on the epoch.
pub fn svc_lookup<E>(epoch_affected: bool, found: Result<Option<SolValCalc>, E>) -> (lookup:
    SvcLookup<E>)
    ensures
        lookup == (if !epoch_affected {
            SvcLookup::NotEpochAffected
        } else {
            match found {
                Ok(calc) => SvcLookup::Found(calc),
                Err(e) => SvcLookup::Failed(e),
            }
        }),
{
    if !epoch_affected {
        return SvcLookup::NotEpochAffected;
    }
    match found {
        Ok(calc) => SvcLookup::Found(calc),
        Err(e) => SvcLookup::Failed(e),
    }
}

/// The stake pools that can be behind the current epoch.
#[derive(Debug, Clone, Copy, PartialEq, Eq)]
pub enum StakePool {
    Lido,
    Spl,
}

/// Why there is no quote. `E` is an error of the pool.
#[derive(Debug, PartialEq, Eq)]
pub enum QuoteErr<E> {
    /// The pool failed.
    Inner(E),
    /// The calculator of `mint` has no data yet.
    MissingSvcData { mint: Pubkey },
    /// The stake pool was not updated in the current epoch. It is reported in the
    /// same way for the input and for the output mint.
    NotUpdated(StakePool),
    /// The fee cannot be expressed as a fraction.
    Decimal,
}

/// The stake pool of `calc`, if it was last updated before `current_epoch`.
pub open spec fn stale_pool(calc: SolValCalc, current_epoch: u64) -> Option<StakePool> {
    match calc {
        SolValCalc::Marinade => None,
        SolValCalc::Wsol => None,
        SolValCalc::Lido { computed_in_epoch } => if computed_in_epoch < current_epoch {
            Some(StakePool::Lido)
        } else {
            None
        },
        SolValCalc::SanctumSpl { last_update_epoch }
        | SolValCalc::SanctumSplMulti { last_update_epoch }
        | SolValCalc::Spl { last_update_epoch } => if last_update_epoch < current_epoch {
            Some(StakePool::Spl)
        } else {
            None
        },
    }
}

/// What keeps `mint` from being quoted in `current_epoch`.
pub open spec fn epoch_check<E>(
    mint: Pubkey,
    lookup: SvcLookup<E>,
    current_epoch: u64,
) -> Result<(), QuoteErr<E>> {
    match lookup {
        SvcLookup::NotEpochAffected => Ok(()),
        SvcLookup::Failed(e) => Err(QuoteErr::Inner(e)),
        SvcLookup::Found(None) => Err(QuoteErr::MissingSvcData { mint }),
        SvcLookup::Found(Some(calc)) => match stale_pool(calc, current_epoch) {
            Some(pool) => Err(QuoteErr::NotUpdated(pool)),
            None => Ok(()),
        },
    }
}

/// Tests whether `mint` can be quoted in `current_epoch`.
pub fn check_mint_epoch<E>(mint: &Pubkey, lookup: SvcLookup<E>, current_epoch: u64) -> (res: Result<
    (),
    QuoteErr<E>,
>)
    ensures
        res == epoch_check(*mint, lookup, current_epoch),
{
    let calc = match lookup {
        SvcLookup::NotEpochAffected => return Ok(()),
        SvcLookup::Failed(e) => return Err(QuoteErr::Inner(e)),
        SvcLookup::Found(Some(calc)) => calc,
        SvcLookup::Found(None) => return Err(QuoteErr::MissingSvcData { mint: *mint }),
    };
    match calc {
        SolValCalc::Marinade => Ok(()),
        SolValCalc::Wsol => Ok(()),
        SolValCalc::Lido { computed_in_epoch } => {
            if computed_in_epoch < current_epoch {
                Err(QuoteErr::NotUpdated(StakePool::Lido))
            } else {
                Ok(())
            }
        },
        SolValCalc::SanctumSpl { last_update_epoch }
        | SolValCalc::SanctumSplMulti { last_update_epoch }
        | SolValCalc::Spl { last_update_epoch } => {
            if last_update_epoch < current_epoch {
                Err(QuoteErr::NotUpdated(StakePool::Spl))
            } else {
                Ok(())
            }
        },
    }
}

/// What the pool is given to quote a trade.
#[derive(Debug, Clone, Copy, PartialEq, Eq)]
pub struct QuoteTradeArgs {
    pub mints: Pair,
    pub amount: u64,
    pub limit_ty: TradeLimitTy,
}

/// What the pool is to quote for `params`.
pub open spec fn quote_args_of(params: QuoteParams) -> QuoteTradeArgs {
    QuoteTradeArgs {
        mints: Pair { inp: params.input_mint, out: params.output_mint },
        amount: params.amount,
        limit_ty: limit_ty_of(params.swap_mode),
    }
}

/// What becomes of a request, given the lookups of the input and of the output mint
/// and the epochs that they are held against: the pool is asked for a quote if
/// nothing is wrong with either mint. The input mint is tested first.
pub open spec fn quote_request<E>(
    params: QuoteParams,
    input: SvcLookup<E>,
    output: SvcLookup<E>,
    input_epoch: u64,
    output_epoch: u64,
) -> Result<QuoteTradeArgs, QuoteErr<E>> {
    match epoch_check(params.input_mint, input, input_epoch) {
        Err(e) => Err(e),
        Ok(_) => match epoch_check(params.output_mint, output, output_epoch) {
            Err(e) => Err(e),
            Ok(_) => Ok(quote_args_of(params)),
        },
    }
}

/// Decides whether the pool is asked for a quote, and for which one.
pub fn request_quote<E>(
    params: &QuoteParams,
    input: SvcLookup<E>,
    output: SvcLookup<E>,
    input_epoch: u64,
    output_epoch: u64,
) -> (res: Result<QuoteTradeArgs, QuoteErr<E>>)
    ensures
        res == quote_request(*params, input, output, input_epoch, output_epoch),
        res matches Ok(args) ==> {
            &&& args.mints.inp == params.input_mint
            &&& args.mints.out == params.output_mint
            &&& args.amount == params.amount
            &&& args.limit_ty is ExactIn <==> params.swap_mode is ExactIn
        },
{
    if let Err(e) = check_mint_epoch(&params.input_mint, input, input_epoch) {
        return Err(e);
    }
    if let Err(e) = check_mint_epoch(&params.output_mint, output, output_epoch) {
        return Err(e);
    }
    Ok(
        QuoteTradeArgs {
            mints: Pair { inp: params.input_mint, out: params.output_mint },
            amount: params.amount,
            limit_ty: swap_mode_to_trade_limit_ty(params.swap_mode),
        },
    )
}

/// A quote of the pool.
#[derive(Debug, Clone, Copy)]
pub struct PoolQuote {
    pub inp: u64,
    pub out: u64,
    pub lp_fee: u64,
    pub protocol_fee: u64,
    pub inp_mint: Pubkey,
    pub out_mint: Pubkey,
}

/// The share that the fee takes: `fee` of every `total`.
#[derive(Debug, Clone, Copy, PartialEq, Eq)]
pub struct FeeFraction {
    pub fee: u64,
    pub total: u64,
}

/// A quote as the router reads it.
#[derive(Debug, Clone, Copy, PartialEq, Eq)]
pub struct Quote {
    pub in_amount: u64,
    pub out_amount: u64,
    pub fee_amount: u64,
    pub fee_mint: Pubkey,
    pub fee_pct: FeeFraction,
}

/// The fee cannot be expressed as a fraction: it is taken from nothing.
#[derive(Debug, Clone, Copy, PartialEq, Eq)]
pub struct DecimalErr;

/// The sum of two amounts, or the largest amount there is.
pub open spec fn capped_sum(a: u64, b: u64) -> u64 {
    if a + b <= u64::MAX {
        (a + b) as u64
    } else {
        u64::MAX
    }
}

impl PoolQuote {
    /// The whole fee: what the liquidity providers get and what the protocol gets.
    pub open spec fn fee_amount(self) -> u64 {
        capped_sum(self.lp_fee, self.protocol_fee)
    }

    /// The amount that the fee is taken from: all of what goes in where it is levied
    /// in the input mint, else what comes out and the fee itself.
    pub open spec fn fee_base(self, fee_mint: Pubkey) -> u64 {
        if fee_mint == self.inp_mint {
            self.inp
        } else {
            capped_sum(self.out, self.fee_amount())
        }
    }

    /// The quote that the router gets for a fee in `fee_mint`. There is none if the
    /// fee is taken from nothing.
    pub open spec fn jup_quote(self, fee_mint: Pubkey) -> Result<Quote, DecimalErr> {
        if self.fee_base(fee_mint) == 0 {
            Err(DecimalErr)
        } else {
            Ok(
                Quote {
                    in_amount: self.inp,
                    out_amount: self.out,
                    fee_amount: self.fee_amount(),
                    fee_mint,
                    fee_pct: FeeFraction {
                        fee: self.fee_amount(),
                        total: self.fee_base(fee_mint),
                    },
                },
            )
        }
    }
}

/// Turns a quote of the pool into one of the router.
pub fn to_jup_quote(fee_mint: &Pubkey, quote: PoolQuote) -> (res: Result<Quote, DecimalErr>)
    ensures
        res == quote.jup_quote(*fee_mint),
        res matches Ok(told) ==> {
            &&& told.in_amount == quote.inp
            &&& told.out_amount == quote.out
            &&& told.fee_mint == *fee_mint
            &&& quote.lp_fee + quote.protocol_fee <= u64::MAX ==> told.fee_amount == quote.lp_fee
                + quote.protocol_fee
            &&& quote.lp_fee + quote.protocol_fee > u64::MAX ==> told.fee_amount == u64::MAX
            &&& told.fee_pct.fee == told.fee_amount
            &&& *fee_mint == quote.inp_mint ==> told.fee_pct.total == quote.inp
            &&& *fee_mint != quote.inp_mint && quote.out + told.fee_amount <= u64::MAX
                ==> told.fee_pct.total == quote.out + told.fee_amount
            &&& *fee_mint != quote.inp_mint && quote.out + told.fee_amount > u64::MAX
                ==> told.fee_pct.total == u64::MAX
        },
        res is Err <==> (if *fee_mint == quote.inp_mint {
            quote.inp == 0
        } else {
            quote.out == 0 && quote.lp_fee == 0 && quote.protocol_fee == 0
        }),
{
    let fee_amount = quote.lp_fee.saturating_add(quote.protocol_fee);
    let denom = if pubkey_eq(fee_mint, &quote.inp_mint) {
        quote.inp
    } else {
        quote.out.saturating_add(fee_amount)
    };
    if denom == 0 {
        return Err(DecimalErr);
    }
    Ok(
        Quote {
            in_amount: quote.inp,
            out_amount: quote.out,
            fee_amount,
            fee_mint: *fee_mint,
            fee_pct: FeeFraction { fee: fee_amount, total: denom },
        },
    )
}

/// A quote of the pool, with the mint that its fee is levied in.
#[derive(Debug, Clone, Copy)]
pub struct FeeQuote {
    pub fee_mint: Pubkey,
    pub quote: PoolQuote,
}

/// The quote of a trade.
#[derive(Debug, Clone, Copy)]
pub enum TradeQuote {
    AddLiquidity(FeeQuote),
    RemoveLiquidity(FeeQuote),
    SwapExactIn(FeeQuote),
    SwapExactOut(FeeQuote),
}

impl TradeQuote {
    /// The quote itself, whatever the kind of trade.
    pub open spec fn fee_quote(self) -> FeeQuote {
        match self {
            TradeQuote::AddLiquidity(q) => q,
            TradeQuote::RemoveLiquidity(q) => q,
            TradeQuote::SwapExactIn(q) => q,
            TradeQuote::SwapExactOut(q) => q,
        }
    }
}

/// What the router gets for the pool's answer.
pub open spec fn quote_answer<E>(trade: Result<TradeQuote, E>) -> Result<Quote, QuoteErr<E>> {
    match trade {
        Err(e) => Err(QuoteErr::Inner(e)),
        Ok(trade) => match trade.fee_quote().quote.jup_quote(trade.fee_quote().fee_mint) {
            Ok(quote) => Ok(quote),
            Err(_) => Err(QuoteErr::Decimal),
        },
    }
}

/// Answers the router with what the pool quotes.
pub fn answer_quote<E>(trade: Result<TradeQuote, E>) -> (res: Result<Quote, QuoteErr<E>>)
    ensures
        res == quote_answer(trade),
        trade matches Err(e) ==> res == Err::<Quote, QuoteErr<E>>(QuoteErr::Inner(e)),
        match trade {
            Err(_) => true,
            Ok(TradeQuote::AddLiquidity(q))
            | Ok(TradeQuote::RemoveLiquidity(q))
            | Ok(TradeQuote::SwapExactIn(q))
            | Ok(TradeQuote::SwapExactOut(q)) => match res {
                Ok(told) => told.in_amount == q.quote.inp && told.out_amount == q.quote.out
                    && told.fee_mint == q.fee_mint,
                Err(e) => e is Decimal,
            },
        },
{
    let quote = match trade {
        Err(e) => return Err(QuoteErr::Inner(e)),
        Ok(TradeQuote::AddLiquidity(q)) => to_jup_quote(&q.fee_mint, q.quote),
        Ok(TradeQuote::RemoveLiquidity(q)) => to_jup_quote(&q.fee_mint, q.quote),
        Ok(TradeQuote::SwapExactIn(q)) => to_jup_quote(&q.fee_mint, q.quote),
        Ok(TradeQuote::SwapExactOut(q)) => to_jup_quote(&q.fee_mint, q.quote),
    };
    match quote {
        Ok(quote) => Ok(quote),
        Err(_) => Err(QuoteErr::Decimal),
    }
}

/// A mint that does not depend on the epoch is never a reason to refuse a quote, and
/// neither is one whose calculator is not affected by the clock.
pub proof fn law_unaffected_mints_are_quoted<E>(
    params: QuoteParams,
    input: SvcLookup<E>,
    output: SvcLookup<E>,
    input_epoch: u64,
    output_epoch: u64,
)
    requires
        input is NotEpochAffected || (input matches SvcLookup::Found(Some(calc))
            && !calc.kind().is_clock_affected()),
        output is NotEpochAffected || (output matches SvcLookup::Found(Some(calc))
            && !calc.kind().is_clock_affected()),
    ensures
        quote_request(params, input, output, input_epoch, output_epoch) == Ok::<
            QuoteTradeArgs,
            QuoteErr<E>,
        >(quote_args_of(params)),
{
}

/// A calculator is out of date exactly where it is one that is updated without the
/// clock, and its stake pool was last updated before the current epoch.
pub proof fn law_epoch_is_checked_where_the_clock_is_omitted(calc: SolValCalc, epoch: u64)
    ensures
        calc.last_epoch() is Some <==> calc.kind().is_clock_affected(),
        stale_pool(calc, epoch) is Some <==> (calc.last_epoch() matches Some(last) && last
            < epoch),
{
}

/// A stake pool that is behind in an epoch is behind in every later one, and is
/// reported in the same way.
pub proof fn law_stale_pool_stays_stale(calc: SolValCalc, epoch: u64, later: u64)
    requires
        epoch <= later,
        stale_pool(calc, epoch) is Some,
    ensures
        stale_pool(calc, later) == stale_pool(calc, epoch),
{
}

/// Where both mints are at fault, it is the input mint that is reported.
pub proof fn law_input_mint_is_reported_first<E>(
    params: QuoteParams,
    input: SvcLookup<E>,
    output: SvcLookup<E>,
    input_epoch: u64,
    output_epoch: u64,
    err: QuoteErr<E>,
)
    requires
        epoch_check(params.input_mint, input, input_epoch) == Err::<(), QuoteErr<E>>(err),
    ensures
        quote_request(params, input, output, input_epoch, output_epoch) == Err::<
            QuoteTradeArgs,
            QuoteErr<E>,
        >(err),
{
}

/// A stake pool that is behind is reported in the same way whichever side of the
/// trade its LST is on, if nothing is wrong with the other side.
pub proof fn law_stale_pool_is_reported_alike_on_both_sides<E>(
    params: QuoteParams,
    calc: SolValCalc,
    other: SvcLookup<E>,
    epoch: u64,
)
    requires
        stale_pool(calc, epoch) is Some,
        epoch_check(params.input_mint, other, epoch) is Ok,
    ensures
        quote_request(params, SvcLookup::Found(Some(calc)), other, epoch, epoch) == quote_request(
            params,
            other,
            SvcLookup::Found(Some(calc)),
            epoch,
            epoch,
        ),
{
}

/// A fee that is levied in the output mint is never more than what it is taken from.
pub proof fn law_output_fee_is_at_most_the_whole(quote: PoolQuote, fee_mint: Pubkey)
    requires
        fee_mint != quote.inp_mint,
    ensures
        quote.fee_amount() <= quote.fee_base(fee_mint),
{
}

/// A quote in which something comes out and something goes in never fails.
pub proof fn law_trade_of_something_has_a_quote(quote: PoolQuote, fee_mint: Pubkey)
    requires
        quote.inp > 0,
        quote.out > 0,
    ensures
        quote.jup_quote(fee_mint) is Ok,
{
}

/// The kind of trade makes no difference to the quote.
pub proof fn law_quote_does_not_depend_on_the_kind_of_trade<E>(a: TradeQuote, b: TradeQuote)
    requires
        a.fee_quote() == b.fee_quote(),
    ensures
        quote_answer::<E>(Ok(a)) == quote_answer::<E>(Ok(b)),
{
}

/// A stake pool is behind exactly where its calculator says that it was last updated before
/// the epoch, whichever of the stake pool programs it belongs to. Marinade's and wrapped
/// SOL never are.
pub proof fn law_stake_pool_is_behind_before_its_update(last: u64, epoch: u64)
    ensures
        stale_pool(SolValCalc::Lido { computed_in_epoch: last }, epoch) == Some(StakePool::Lido)
            <==> last < epoch,
        stale_pool(SolValCalc::Spl { last_update_epoch: last }, epoch) == Some(StakePool::Spl)
            <==> last < epoch,
        stale_pool(SolValCalc::SanctumSpl { last_update_epoch: last }, epoch) == Some(
            StakePool::Spl,
        ) <==> last < epoch,
        stale_pool(SolValCalc::SanctumSplMulti { last_update_epoch: last }, epoch) == Some(
            StakePool::Spl,
        ) <==> last < epoch,
        last >= epoch ==> {
            &&& stale_pool(SolValCalc::Lido { computed_in_epoch: last }, epoch) is None
            &&& stale_pool(SolValCalc::Spl { last_update_epoch: last }, epoch) is None
            &&& stale_pool(SolValCalc::SanctumSpl { last_update_epoch: last }, epoch) is None
            &&& stale_pool(SolValCalc::SanctumSplMulti { last_update_epoch: last }, epoch) is None
        },
        stale_pool(SolValCalc::Marinade, epoch) is None,
        stale_pool(SolValCalc::Wsol, epoch) is None,
{
}

/// What keeps a mint from being quoted: that the pool does not know it, that its calculator
/// has no data yet, or that its stake pool is behind. Each is reported as what it is, with
/// the mint that lacks data, and nothing else keeps a mint from being quoted.
pub proof fn law_what_keeps_a_mint_from_being_quoted<E>(
    mint: Pubkey,
    calc: SolValCalc,
    e: E,
    epoch: u64,
)
    ensures
        epoch_check::<E>(mint, SvcLookup::NotEpochAffected, epoch) is Ok,
        epoch_check(mint, SvcLookup::Failed(e), epoch) == Err::<(), QuoteErr<E>>(
            QuoteErr::Inner(e),
        ),
        epoch_check::<E>(mint, SvcLookup::Found(None), epoch) == Err::<(), QuoteErr<E>>(
            QuoteErr::MissingSvcData { mint },
        ),
        match stale_pool(calc, epoch) {
            Some(pool) => epoch_check::<E>(mint, SvcLookup::Found(Some(calc)), epoch) == Err::<
                (),
                QuoteErr<E>,
            >(QuoteErr::NotUpdated(pool)),
            None => epoch_check::<E>(mint, SvcLookup::Found(Some(calc)), epoch) is Ok,
        },
{
}

/// An LST whose stake pool was last updated before the epoch that it is held against is
/// refused on either side of the trade, whatever the other mint is and whatever else was
/// asked for.
pub proof fn law_lst_behind_the_epoch_is_never_quoted<E>(
    params: QuoteParams,
    input: SvcLookup<E>,
    output: SvcLookup<E>,
    input_epoch: u64,
    output_epoch: u64,
    last: u64,
    behind: SolValCalc,
)
    requires
        behind == (SolValCalc::Lido { computed_in_epoch: last }) || behind == (SolValCalc::Spl {
            last_update_epoch: last,
        }) || behind == (SolValCalc::SanctumSpl { last_update_epoch: last }) || behind == (
        SolValCalc::SanctumSplMulti { last_update_epoch: last }),
        (input == SvcLookup::<E>::Found(Some(behind)) && last < input_epoch) || (output
            == SvcLookup::<E>::Found(Some(behind)) && last < output_epoch),
    ensures
        quote_request(params, input, output, input_epoch, output_epoch) is Err,
{
}

/// LSTs whose stake pools were updated in the epoch that they are held against, or later,
/// are quoted, and so are mints that no epoch matters to.
pub proof fn law_lsts_up_to_date_are_quoted<E>(
    params: QuoteParams,
    input: SvcLookup<E>,
    output: SvcLookup<E>,
    input_epoch: u64,
    output_epoch: u64,
)
    requires
        match input {
            SvcLookup::NotEpochAffected => true,
            SvcLookup::Failed(_) => false,
            SvcLookup::Found(None) => false,
            SvcLookup::Found(Some(SolValCalc::Lido { computed_in_epoch })) => computed_in_epoch
                >= input_epoch,
            SvcLookup::Found(Some(SolValCalc::Spl { last_update_epoch }))
            | SvcLookup::Found(Some(SolValCalc::SanctumSpl { last_update_epoch }))
            | SvcLookup::Found(Some(SolValCalc::SanctumSplMulti { last_update_epoch })) =>
            last_update_epoch >= input_epoch,
            SvcLookup::Found(Some(SolValCalc::Marinade)) => true,
            SvcLookup::Found(Some(SolValCalc::Wsol)) => true,
        },
        match output {
            SvcLookup::NotEpochAffected => true,
            SvcLookup::Failed(_) => false,
            SvcLookup::Found(None) => false,
            SvcLookup::Found(Some(SolValCalc::Lido { computed_in_epoch })) => computed_in_epoch
                >= output_epoch,
            SvcLookup::Found(Some(SolValCalc::Spl { last_update_epoch }))
            | SvcLookup::Found(Some(SolValCalc::SanctumSpl { last_update_epoch }))
            | SvcLookup::Found(Some(SolValCalc::SanctumSplMulti { last_update_epoch })) =>
            last_update_epoch >= output_epoch,
            SvcLookup::Found(Some(SolValCalc::Marinade)) => true,
            SvcLookup::Found(Some(SolValCalc::Wsol)) => true,
        },
    ensures
        quote_request(params, input, output, input_epoch, output_epoch) matches Ok(args) && {
            &&& args.mints.inp == params.input_mint
            &&& args.mints.out == params.output_mint
            &&& args.amount == params.amount
            &&& args.limit_ty is ExactIn <==> params.swap_mode is ExactIn
        },
{
}

/// What a request comes to is what comes of its input mint if that one is at fault, else
/// what comes of its output mint. The two are tested on their own: neither the mint, nor the
/// lookup, nor the epoch of the one side has a say in the other.
pub proof fn law_each_mint_is_tested_on_its_own<E>(
    params: QuoteParams,
    input: SvcLookup<E>,
    output: SvcLookup<E>,
    input_epoch: u64,
    output_epoch: u64,
)
    ensures
        ({
            let res = quote_request(params, input, output, input_epoch, output_epoch);
            &&& epoch_check(params.input_mint, input, input_epoch) matches Err(e) ==> res == Err::<
                QuoteTradeArgs,
                QuoteErr<E>,
            >(e)
            &&& epoch_check(params.input_mint, input, input_epoch) is Ok ==> (epoch_check(
                params.output_mint,
                output,
                output_epoch,
            ) matches Err(e) ==> res == Err::<QuoteTradeArgs, QuoteErr<E>>(e))
            &&& res is Ok <==> epoch_check(params.input_mint, input, input_epoch) is Ok
                && epoch_check(params.output_mint, output, output_epoch) is Ok
        }),
{
}

/// The pool is asked for the trade that the router asks for.
pub proof fn law_pool_is_asked_for_the_same_trade(params: QuoteParams)
    ensures
        quote_args_of(params).mints.inp == params.input_mint,
        quote_args_of(params).mints.out == params.output_mint,
        quote_args_of(params).amount == params.amount,
        quote_args_of(params).limit_ty is ExactIn <==> params.swap_mode is ExactIn,
{
}

/// A trade is quoted exactly where the trade the other way round is.
pub proof fn law_way_back_is_quoted_alike<E>(
    params: QuoteParams,
    back: QuoteParams,
    input: SvcLookup<E>,
    output: SvcLookup<E>,
    input_epoch: u64,
    output_epoch: u64,
)
    requires
        back.input_mint == params.output_mint,
        back.output_mint == params.input_mint,
    ensures
        quote_request(back, output, input, output_epoch, input_epoch) is Ok <==> quote_request(
            params,
            input,
            output,
            input_epoch,
            output_epoch,
        ) is Ok,
{
}

/// Wherever there is a quote, the router is told the amounts of the pool and the mint of the
/// fee as they are.
pub proof fn law_router_is_told_the_amounts_of_the_pool(quote: PoolQuote, fee_mint: Pubkey)
    ensures
        quote.jup_quote(fee_mint) matches Ok(told) ==> {
            &&& told.in_amount == quote.inp
            &&& told.out_amount == quote.out
            &&& told.fee_mint == fee_mint
        },
{
}

/// Wherever there is a quote, its fee is the sum of the two fees, as far as an amount goes.
/// The share that it takes is that of all that goes in where it is levied in the input mint,
/// else that of what would come out without it.
pub proof fn law_fee_is_the_sum_of_both_fees(quote: PoolQuote, fee_mint: Pubkey)
    ensures
        quote.jup_quote(fee_mint) matches Ok(told) ==> {
            let fees = quote.lp_fee + quote.protocol_fee;
            &&& fees <= u64::MAX ==> told.fee_amount == fees
            &&& fees > u64::MAX ==> told.fee_amount == u64::MAX
            &&& told.fee_pct.fee == told.fee_amount
            &&& fee_mint == quote.inp_mint ==> told.fee_pct.total == quote.inp
            &&& fee_mint != quote.inp_mint && quote.out + fees <= u64::MAX ==> told.fee_pct.total
                == quote.out + fees
            &&& fee_mint != quote.inp_mint && quote.out + fees > u64::MAX ==> told.fee_pct.total
                == u64::MAX
        },
{
}

/// The fee, and what it is taken from, as far as an amount goes.
pub proof fn law_fee_and_its_base(quote: PoolQuote, fee_mint: Pubkey)
    ensures
        ({
            let fees = quote.lp_fee + quote.protocol_fee;
            &&& fees <= u64::MAX ==> quote.fee_amount() == fees
            &&& fees > u64::MAX ==> quote.fee_amount() == u64::MAX
            &&& fee_mint == quote.inp_mint ==> quote.fee_base(fee_mint) == quote.inp
            &&& fee_mint != quote.inp_mint && quote.out + fees <= u64::MAX ==> quote.fee_base(
                fee_mint,
            ) == quote.out + fees
            &&& fee_mint != quote.inp_mint && quote.out + fees > u64::MAX ==> quote.fee_base(
                fee_mint,
            ) == u64::MAX
        }),
{
}

/// There is no quote exactly where the fee would be taken from nothing.
pub proof fn law_no_quote_where_the_fee_is_taken_from_nothing(quote: PoolQuote, fee_mint: Pubkey)
    ensures
        fee_mint == quote.inp_mint ==> (quote.jup_quote(fee_mint) is Err <==> quote.inp == 0),
        fee_mint != quote.inp_mint ==> (quote.jup_quote(fee_mint) is Err <==> quote.out == 0
            && quote.lp_fee == 0 && quote.protocol_fee == 0),
{
}

/// Which of the two fees is which makes no difference to the router.
pub proof fn law_fees_can_be_exchanged(quote: PoolQuote, fee_mint: Pubkey)
    ensures
        quote.jup_quote(fee_mint) == (PoolQuote {
            lp_fee: quote.protocol_fee,
            protocol_fee: quote.lp_fee,
            ..quote
        }).jup_quote(fee_mint),
{
}

/// The answer to the router is what the quote of the pool says with its own fee mint, for
/// each kind of trade. An error of the pool is handed on.
pub proof fn law_answer_is_what_the_pool_quotes<E>(trade: TradeQuote, q: FeeQuote, e: E)
    requires
        trade == TradeQuote::AddLiquidity(q) || trade == TradeQuote::RemoveLiquidity(q) || trade
            == TradeQuote::SwapExactIn(q) || trade == TradeQuote::SwapExactOut(q),
    ensures
        trade.fee_quote() == q,
        match quote_answer::<E>(Ok(trade)) {
            Ok(told) => q.quote.jup_quote(q.fee_mint) == Ok::<Quote, DecimalErr>(told)
                && told.in_amount == q.quote.inp && told.out_amount == q.quote.out
                && told.fee_mint == q.fee_mint,
            Err(err) => err is Decimal && q.quote.jup_quote(q.fee_mint) is Err,
        },
        quote_answer::<E>(Err(e)) == Err::<Quote, QuoteErr<E>>(QuoteErr::Inner(e)),
{
}

} // verus!
