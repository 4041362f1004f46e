//! The pool, as the router sees it.

use crate::init::{InitErr, InitRun};
use crate::pubkey::{pubkey_eq, Pubkey};
use crate::quote::{request_quote, QuoteErr, QuoteParams, QuoteTradeArgs, SvcLookup};
use crate::spl_lsts::SanctumLst;
use crate::trade::{swap_and_account_metas, SwapAndAccountMetas, SwapParams, TradeIx};
use crate::update::UpdateRun;
use std::sync::atomic::{AtomicU64, Ordering};
use std::sync::Arc;
use vstd::prelude::*;

#[allow(unused_imports)]
use crate::quote::quote_request;
#[allow(unused_imports)]
use crate::spl_lsts::spl_pools;
#[allow(unused_imports)]
use crate::trade::swap_metas;
#[allow(unused_imports)]
use crate::update::UpdateState;

verus! {

/// The addresses of the pool's deployment, and the name that it goes by.
#[derive(Debug, Clone)]
pub struct InfIds {
    pub label: String,
    pub program_id: Pubkey,
    pub pool_state_id: Pubkey,
    pub lst_state_list_id: Pubkey,
    pub sysvar_clock: Pubkey,
}

impl InfIds {
    /// None of the pool's own accounts is the clock.
    pub open spec fn wf(self) -> bool {
        self.pool_state_id != self.sysvar_clock && self.lst_state_list_id != self.sysvar_clock
    }
}

/// What the router interface reads of the pool.
#[derive(Debug, Clone)]
pub struct InfPool {
    /// The mint of the pool's LP token.
    pub lp_token_mint: Pubkey,
    /// The mints of the LST state list, in order; `None` if it does not decode.
    pub lst_mints: Option<Vec<Pubkey>>,
}

/// The pool, as the router sees it.
#[derive(Debug, Clone)]
pub struct InfAmm {
    pub ids: InfIds,
    pub inner: InfPool,
    /// The current epoch. The router keeps it up to date.
    pub current_epoch: Arc<AtomicU64>,
}

/// The programs that the pool's program calls.
#[derive(Debug, Clone, Copy)]
pub struct ProgramIds {
    pub spl_stake_pool: Pubkey,
    pub spl_calculator: Pubkey,
    pub sanctum_spl_stake_pool: Pubkey,
    pub sanctum_spl_calculator: Pubkey,
    pub sanctum_spl_multi_stake_pool: Pubkey,
    pub sanctum_spl_multi_calculator: Pubkey,
    pub marinade: Pubkey,
    pub marinade_calculator: Pubkey,
    pub lido: Pubkey,
    pub lido_calculator: Pubkey,
    pub wsol_calculator: Pubkey,
    pub flat_fee_pricing_program: Pubkey,
}

impl ProgramIds {
    /// The programs, each with its name.
    pub open spec fn labelled(self) -> Seq<(Pubkey, Seq<char>)> {
        seq![
            (self.spl_stake_pool, "spl_stake_pool"@),
            (self.spl_calculator, "spl_calculator"@),
            (self.sanctum_spl_stake_pool, "sanctum_spl_stake_pool"@),
            (self.sanctum_spl_calculator, "sanctum_spl_calculator"@),
            (self.sanctum_spl_multi_stake_pool, "sanctum_spl_multi_stake_pool"@),
            (self.sanctum_spl_multi_calculator, "sanctum_spl_multi_calculator"@),
            (self.marinade, "marinade"@),
            (self.marinade_calculator, "marinade_calculator"@),
            (self.lido, "lido"@),
            (self.lido_calculator, "lido_calculator"@),
            (self.wsol_calculator, "wsol_calculator"@),
            (self.flat_fee_pricing_program, "flat_fee_pricing_program"@),
        ]
    }
}

impl InfPool {
    /// The mints of the LST state list; none if it does not decode.
    pub open spec fn mints(self) -> Seq<Pubkey> {
        match self.lst_mints {
            Some(mints) => mints@,
            None => Seq::empty(),
        }
    }

    /// The mints of the LST state list; none if it does not decode.
    pub fn mints_or_default(&self) -> (mints: Vec<Pubkey>)
        ensures
            mints@ == self.mints(),
            self.lst_mints matches Some(lst_mints) ==> mints@ == lst_mints@,
            self.lst_mints is None ==> mints@.len() == 0,
    {
        let mut mints: Vec<Pubkey> = Vec::new();
        if let Some(lst_mints) = &self.lst_mints {
            push_all(&mut mints, lst_mints);
        }
        mints
    }
}

/// Adds `more` to the end of `keys`.
fn push_all(keys: &mut Vec<Pubkey>, more: &Vec<Pubkey>)
    ensures
        final(keys)@ == old(keys)@ + more@,
{
    let ghost before = keys@;
    let mut i: usize = 0;
    while i < more.len()
        invariant
            i <= more@.len(),
            keys@ == before + more@.take(i as int),
        decreases more@.len() - i,
    {
        keys.push(more[i]);
        assert(more@.take(i + 1) =~= more@.take(i as int).push(more@[i as int]));
        i += 1;
    }
    assert(more@.take(more@.len() as int) =~= more@);
}

/// `keys` without `unwanted`.
pub open spec fn without(keys: Seq<Pubkey>, unwanted: Pubkey) -> Seq<Pubkey> {
    keys.filter(|key: Pubkey| key != unwanted)
}

/// Adds `more` to the end of `keys`, but not `unwanted`.
fn push_all_without(keys: &mut Vec<Pubkey>, more: &Vec<Pubkey>, unwanted: &Pubkey)
    ensures
        final(keys)@ == old(keys)@ + without(more@, *unwanted),
{
    reveal(Seq::filter);
    let ghost before = keys@;
    let mut i: usize = 0;
    while i < more.len()
        invariant
            i <= more@.len(),
            keys@ == before + without(more@.take(i as int), *unwanted),
        decreases more@.len() - i,
    {
        reveal(Seq::filter);
        if !pubkey_eq(&more[i], unwanted) {
            keys.push(more[i]);
        }
        assert(more@.take(i + 1).drop_last() =~= more@.take(i as int));
        i += 1;
    }
    assert(more@.take(more@.len() as int) =~= more@);
}

/// The accounts of the LSTs' calculators, LST by LST, without the clock. The LSTs
/// whose accounts are not known are left out.
pub open spec fn lst_accounts<E>(
    lsts: Seq<Result<Vec<Pubkey>, E>>,
    sysvar_clock: Pubkey,
) -> Seq<Pubkey>
    decreases lsts.len(),
{
    if lsts.len() == 0 {
        Seq::empty()
    } else {
        lst_accounts(lsts.drop_last(), sysvar_clock) + match lsts.last() {
            Ok(accounts) => without(accounts@, sysvar_clock),
            Err(_) => Seq::empty(),
        }
    }
}

/// The accounts to fetch: those of the pool as a whole, those of the pricing program,
/// and those of the LSTs.
pub open spec fn accounts_to_update<E>(
    ids: InfIds,
    lp_token_mint: Pubkey,
    pricing: Seq<Pubkey>,
    lsts: Seq<Result<Vec<Pubkey>, E>>,
) -> Seq<Pubkey> {
    seq![ids.pool_state_id, ids.lst_state_list_id, lp_token_mint] + pricing + lst_accounts(
        lsts,
        ids.sysvar_clock,
    )
}

/// Reads the epoch that `cell` holds.
fn read_epoch<F: Fn(&AtomicU64, Ordering) -> u64>(load: F, cell: &AtomicU64) -> (epoch: u64)
    requires
        call_requires(load, (cell, Ordering::Relaxed)),
    ensures
        call_ensures(load, (cell, Ordering::Relaxed), epoch),
{
    load(cell, Ordering::Relaxed)
}

impl InfAmm {
    /// Begins to set up the pool out of account `key` with data `data`, which has to be
    /// the LST state list, **not** the pool state.
    pub fn from_keyed_account<E>(
        lst_state_list_id: &Pubkey,
        key: &Pubkey,
        data: Vec<u8>,
        sanctum_lsts: &Vec<SanctumLst>,
    ) -> (res: Result<InitRun<E>, InitErr<E>>)
        ensures
            match res {
                Ok(run) => *key == *lst_state_list_id && run@.starts_with(
                    data@,
                    spl_pools(sanctum_lsts@),
                ),
                Err(e) => *key != *lst_state_list_id && e is IncorrectKeyedAccount,
            },
    {
        InitRun::start(lst_state_list_id, key, data, sanctum_lsts)
    }

    /// The AMM of a pool that is set up. It shares the current epoch with the router: it
    /// keeps the router's own cell, not the epoch that the cell holds now.
    pub fn with_epoch(ids: InfIds, inner: InfPool, current_epoch: &Arc<AtomicU64>) -> (amm: InfAmm)
        ensures
            amm.ids == ids,
            amm.inner == inner,
            amm.current_epoch == *current_epoch,
    {
        InfAmm { ids, inner, current_epoch: current_epoch.clone() }
    }

    /// The name of the pool.
    pub fn label(&self) -> (label: String)
        ensures
            label@ == self.ids.label@,
    {
        self.ids.label.clone()
    }

    /// The address of the pool's program.
    pub fn program_id(&self) -> (id: Pubkey)
        ensures
            id == self.ids.program_id,
    {
        self.ids.program_id
    }

    /// The key of the pool. There is one pool to a program, so it is the address of the
    /// program.
    pub fn key(&self) -> (key: Pubkey)
        ensures
            key == self.ids.program_id,
    {
        self.ids.program_id
    }

    /// The mints that can be traded: those on the LST state list, then the LP token's.
    pub fn get_reserve_mints(&self) -> (mints: Vec<Pubkey>)
        ensures
            mints@ == self.inner.mints().push(self.inner.lp_token_mint),
            mints@.last() == self.inner.lp_token_mint,
            self.inner.lst_mints matches Some(lst_mints) ==> mints@.drop_last() == lst_mints@,
            self.inner.lst_mints is None ==> mints@.len() == 1,
    {
        let mut mints = self.inner.mints_or_default();
        mints.push(self.inner.lp_token_mint);
        mints
    }

    /// The accounts to fetch for an update, not deduplicated.
    ///
    /// `pricing` holds the accounts of the pricing program for the mints of the LST
    /// state list, and `lsts` those of the calculator of each LST on the list. To
    /// have none yet is no error: the next update sets the calculator up.
    pub fn get_accounts_to_update<E>(
        &self,
        pricing: &Vec<Pubkey>,
        lsts: &Vec<Result<Vec<Pubkey>, E>>,
    ) -> (accounts: Vec<Pubkey>)
        ensures
            accounts@ == accounts_to_update(
                self.ids,
                self.inner.lp_token_mint,
                pricing@,
                lsts@,
            ),
            accounts@.len() >= 3 + pricing@.len(),
            accounts@[0] == self.ids.pool_state_id,
            accounts@[1] == self.ids.lst_state_list_id,
            accounts@[2] == self.inner.lp_token_mint,
            forall|i: int|
                0 <= i < pricing@.len() ==> accounts@[3 + i] == #[trigger] pricing@[i],
            self.ids.wf() && self.inner.lp_token_mint != self.ids.sysvar_clock
                && !pricing@.contains(self.ids.sysvar_clock) ==> !accounts@.contains(
                self.ids.sysvar_clock,
            ),
    {
        let mut accounts: Vec<Pubkey> = Vec::new();
        accounts.push(self.ids.pool_state_id);
        accounts.push(self.ids.lst_state_list_id);
        accounts.push(self.inner.lp_token_mint);
        push_all(&mut accounts, pricing);
        let ghost head = accounts@;
        let mut i: usize = 0;
        while i < lsts.len()
            invariant
                i <= lsts@.len(),
                accounts@ == head + lst_accounts(lsts@.take(i as int), self.ids.sysvar_clock),
            decreases lsts@.len() - i,
        {
            if let Ok(lst) = &lsts[i] {
                push_all_without(&mut accounts, lst, &self.ids.sysvar_clock);
            }
            assert(lsts@.take(i + 1).drop_last() =~= lsts@.take(i as int));
            i += 1;
        }
        assert(lsts@.take(lsts@.len() as int) =~= lsts@);
        proof {
            if self.ids.wf() && self.inner.lp_token_mint != self.ids.sysvar_clock
                && !pricing@.contains(self.ids.sysvar_clock) {
                law_clock_is_not_fetched(
                    self.ids,
                    self.inner.lp_token_mint,
                    pricing@,
                    lsts@,
                );
            }
        }
        accounts
    }

    /// Begins an update.
    pub fn update<E>(&self) -> (run: UpdateRun<E>)
        ensures
            run@ == UpdateState::<E>::start(self.ids.lst_state_list_id),
            run@.step is UpdatePool,
            run@.mints.len() == 0,
            run@.lst_state_list_id == self.ids.lst_state_list_id,
    {
        UpdateRun::start(self.ids.lst_state_list_id)
    }

    /// Decides whether the pool is asked for a quote, and for which one. `input` and
    /// `output` are the lookups of the two mints.
    ///
    /// The router may change the current epoch at any time, also between the tests of
    /// the two mints. Each mint is held against an epoch that was read from the router's
    /// own cell, and if the cell holds one epoch all the while, both are held against it.
    pub fn quote<E>(
        &self,
        params: &QuoteParams,
        input: SvcLookup<E>,
        output: SvcLookup<E>,
    ) -> (res: Result<QuoteTradeArgs, QuoteErr<E>>)
        ensures
            exists|input_epoch: u64, output_epoch: u64|
                call_ensures(
                    AtomicU64::load,
                    (&*self.current_epoch, Ordering::Relaxed),
                    input_epoch,
                ) && call_ensures(
                    AtomicU64::load,
                    (&*self.current_epoch, Ordering::Relaxed),
                    output_epoch,
                ) && res == #[trigger] quote_request(
                    *params,
                    input,
                    output,
                    input_epoch,
                    output_epoch,
                ),
            forall|epoch: u64|
                (forall|read: u64| #[trigger]
                    call_ensures(
                        AtomicU64::load,
                        (&*self.current_epoch, Ordering::Relaxed),
                        read,
                    ) ==> read == epoch) ==> res == #[trigger] quote_request(
                    *params,
                    input,
                    output,
                    epoch,
                    epoch,
                ),
            input matches SvcLookup::Found(Some(calc)) ==> calc.last_epoch() matches Some(last)
                ==> (forall|read: u64| #[trigger]
                call_ensures(AtomicU64::load, (&*self.current_epoch, Ordering::Relaxed), read)
                    ==> last < read) ==> res is Err,
            output matches SvcLookup::Found(Some(calc)) ==> calc.last_epoch() matches Some(last)
                ==> (forall|read: u64| #[trigger]
                call_ensures(AtomicU64::load, (&*self.current_epoch, Ordering::Relaxed), read)
                    ==> last < read) ==> res is Err,
    {
        let input_epoch: u64 = read_epoch(AtomicU64::load, &self.current_epoch);
        let output_epoch: u64 = read_epoch(AtomicU64::load, &self.current_epoch);
        request_quote(params, input, output, input_epoch, output_epoch)
    }

    /// The swap that performs an instruction of the pool, with its accounts.
    pub fn get_swap_and_account_metas<E>(
        &self,
        params: &SwapParams,
        ix: Result<TradeIx, E>,
    ) -> (res: Result<SwapAndAccountMetas, E>)
        ensures
            match ix {
                Ok(ix) => res matches Ok(swap) && swap.swap == ix.swap()
                    && swap.account_metas@ == swap_metas(
                    self.ids.program_id,
                    ix.accs(),
                    params.jupiter_program_id,
                ),
                Err(e) => res == Err::<SwapAndAccountMetas, E>(e),
            },
    {
        match ix {
            Ok(ix) => Ok(swap_and_account_metas(&self.ids.program_id, params, &ix)),
            Err(e) => Err(e),
        }
    }

    /// Whether the accounts to fetch can change.
    pub fn has_dynamic_accounts(&self) -> (dynamic: bool)
        ensures
            dynamic,
    {
        true
    }

    /// Whether the router may fix the amount that comes out.
    pub fn supports_exact_out(&self) -> (supports: bool)
        ensures
            !supports,
    {
        false
    }

    /// The programs that the pool's program calls, each with its name.
    pub fn program_dependencies(&self, ids: &ProgramIds) -> (programs: Vec<(Pubkey, String)>)
        ensures
            programs@.map_values(|program: (Pubkey, String)| (program.0, program.1@))
                == ids.labelled(),
            programs@.len() == 12,
            programs@[0].0 == ids.spl_stake_pool && programs@[0].1@ == "spl_stake_pool"@,
            programs@[1].0 == ids.spl_calculator && programs@[1].1@ == "spl_calculator"@,
            programs@[2].0 == ids.sanctum_spl_stake_pool && programs@[2].1@
                == "sanctum_spl_stake_pool"@,
            programs@[3].0 == ids.sanctum_spl_calculator && programs@[3].1@
                == "sanctum_spl_calculator"@,
            programs@[4].0 == ids.sanctum_spl_multi_stake_pool && programs@[4].1@
                == "sanctum_spl_multi_stake_pool"@,
            programs@[5].0 == ids.sanctum_spl_multi_calculator && programs@[5].1@
                == "sanctum_spl_multi_calculator"@,
            programs@[6].0 == ids.marinade && programs@[6].1@ == "marinade"@,
            programs@[7].0 == ids.marinade_calculator && programs@[7].1@
                == "marinade_calculator"@,
            programs@[8].0 == ids.lido && programs@[8].1@ == "lido"@,
            programs@[9].0 == ids.lido_calculator && programs@[9].1@ == "lido_calculator"@,
            programs@[10].0 == ids.wsol_calculator && programs@[10].1@ == "wsol_calculator"@,
            programs@[11].0 == ids.flat_fee_pricing_program && programs@[11].1@
                == "flat_fee_pricing_program"@,
    {
        let mut programs: Vec<(Pubkey, String)> = Vec::new();
        programs.push((ids.spl_stake_pool, "spl_stake_pool".to_owned()));
        programs.push((ids.spl_calculator, "spl_calculator".to_owned()));
        programs.push((ids.sanctum_spl_stake_pool, "sanctum_spl_stake_pool".to_owned()));
        programs.push((ids.sanctum_spl_calculator, "sanctum_spl_calculator".to_owned()));
        programs.push(
            (ids.sanctum_spl_multi_stake_pool, "sanctum_spl_multi_stake_pool".to_owned()),
        );
        programs.push(
            (ids.sanctum_spl_multi_calculator, "sanctum_spl_multi_calculator".to_owned()),
        );
        programs.push((ids.marinade, "marinade".to_owned()));
        programs.push((ids.marinade_calculator, "marinade_calculator".to_owned()));
        programs.push((ids.lido, "lido".to_owned()));
        programs.push((ids.lido_calculator, "lido_calculator".to_owned()));
        programs.push((ids.wsol_calculator, "wsol_calculator".to_owned()));
        programs.push((ids.flat_fee_pricing_program, "flat_fee_pricing_program".to_owned()));
        programs
    }

    /// How many accounts a swap is taken to have.
    pub fn get_accounts_len(&self) -> (len: usize)
        ensures
            len == 32,
    {
        32
    }
}

/// What is left without an address does not hold it, and holds everything else.
proof fn lemma_without(keys: Seq<Pubkey>, unwanted: Pubkey, key: Pubkey)
    ensures
        without(keys, unwanted).contains(key) <==> keys.contains(key) && key != unwanted,
    decreases keys.len(),
{
    reveal(Seq::filter);
    if keys.len() > 0 {
        let rest = keys.drop_last();
        lemma_without(rest, unwanted, key);
        assert(keys =~= rest.push(keys.last()));
        assert(keys.contains(key) <==> rest.contains(key) || key == keys.last()) by {
            if rest.contains(key) {
                assert(keys[rest.index_of(key)] == key);
            }
            assert(keys[keys.len() - 1] == keys.last());
        }
        let kept = without(rest, unwanted);
        if keys.last() != unwanted {
            assert(kept.push(keys.last()).contains(key) <==> kept.contains(key) || key
                == keys.last()) by {
                if kept.contains(key) {
                    assert(kept.push(keys.last())[kept.index_of(key)] == key);
                }
                assert(kept.push(keys.last())[kept.len() as int] == keys.last());
            }
        }
    }
}

/// An account is fetched for the LSTs exactly where it is one of an LST whose accounts
/// are known, and not the clock.
pub proof fn law_lst_accounts_leave_out_the_clock_only<E>(
    lsts: Seq<Result<Vec<Pubkey>, E>>,
    sysvar_clock: Pubkey,
    key: Pubkey,
)
    ensures
        lst_accounts(lsts, sysvar_clock).contains(key) <==> (key != sysvar_clock && exists|i: int|
            0 <= i < lsts.len() && ((#[trigger] lsts[i]) matches Ok(accounts)
                && accounts@.contains(key))),
    decreases lsts.len(),
{
    if lsts.len() > 0 {
        let rest = lsts.drop_last();
        let head = lst_accounts(rest, sysvar_clock);
        law_lst_accounts_leave_out_the_clock_only(rest, sysvar_clock, key);
        let tail: Seq<Pubkey> = match lsts.last() {
            Ok(accounts) => without(accounts@, sysvar_clock),
            Err(_) => Seq::empty(),
        };
        if let Ok(accounts) = lsts.last() {
            lemma_without(accounts@, sysvar_clock, key);
        }
        assert((head + tail).contains(key) <==> head.contains(key) || tail.contains(key)) by {
            if head.contains(key) {
                assert((head + tail)[head.index_of(key)] == key);
            }
            if tail.contains(key) {
                assert((head + tail)[head.len() + tail.index_of(key)] == key);
            }
            if (head + tail).contains(key) {
                let i = (head + tail).index_of(key);
                if i < head.len() {
                    assert(head[i] == key);
                } else {
                    assert(tail[i - head.len()] == key);
                }
            }
        }
        if exists|i: int|
            0 <= i < rest.len() && ((#[trigger] rest[i]) matches Ok(accounts)
                && accounts@.contains(key)) {
            let i = choose|i: int|
                0 <= i < rest.len() && ((#[trigger] rest[i]) matches Ok(accounts)
                    && accounts@.contains(key));
            assert(lsts[i] == rest[i]);
        }
        assert(lsts[lsts.len() - 1] == lsts.last());
        if exists|i: int|
            0 <= i < lsts.len() && ((#[trigger] lsts[i]) matches Ok(accounts)
                && accounts@.contains(key)) {
            let i = choose|i: int|
                0 <= i < lsts.len() && ((#[trigger] lsts[i]) matches Ok(accounts)
                    && accounts@.contains(key));
            if i < rest.len() {
                assert(lsts[i] == rest[i]);
            }
        }
    }
}

/// The clock is not fetched, whichever calculators the LSTs use, unless it is the LP
/// token's mint or the pricing program asks for it.
pub proof fn law_clock_is_not_fetched<E>(
    ids: InfIds,
    lp_token_mint: Pubkey,
    pricing: Seq<Pubkey>,
    lsts: Seq<Result<Vec<Pubkey>, E>>,
)
    requires
        ids.wf(),
        lp_token_mint != ids.sysvar_clock,
        !pricing.contains(ids.sysvar_clock),
    ensures
        !accounts_to_update(ids, lp_token_mint, pricing, lsts).contains(ids.sysvar_clock),
{
    let clock = ids.sysvar_clock;
    let tail = lst_accounts(lsts, clock);
    law_lst_accounts_leave_out_the_clock_only(lsts, clock, clock);
    let all = accounts_to_update(ids, lp_token_mint, pricing, lsts);
    if all.contains(clock) {
        let i = all.index_of(clock);
        if 3 <= i < 3 + pricing.len() {
            assert(pricing[i - 3] == clock);
        } else if i >= 3 + pricing.len() {
            assert(tail[i - 3 - pricing.len()] == clock);
        }
    }
}

/// Once the accounts of an LST are known, all of them but the clock are fetched.
pub proof fn law_known_lst_accounts_are_fetched<E>(
    ids: InfIds,
    lp_token_mint: Pubkey,
    pricing: Seq<Pubkey>,
    lsts: Seq<Result<Vec<Pubkey>, E>>,
    lst: int,
    key: Pubkey,
)
    requires
        0 <= lst < lsts.len(),
        lsts[lst] matches Ok(accounts) && accounts@.contains(key),
        key != ids.sysvar_clock,
    ensures
        accounts_to_update(ids, lp_token_mint, pricing, lsts).contains(key),
{
    let tail = lst_accounts(lsts, ids.sysvar_clock);
    law_lst_accounts_leave_out_the_clock_only(lsts, ids.sysvar_clock, key);
    let i = tail.index_of(key);
    assert(accounts_to_update(ids, lp_token_mint, pricing, lsts)[3 + pricing.len() + i] == key);
}

/// The LSTs of two lists in a row have the accounts of the one list, then those of the
/// other: nothing is deduplicated, and the order is kept.
pub proof fn law_lst_accounts_are_not_deduplicated<E>(
    first: Seq<Result<Vec<Pubkey>, E>>,
    second: Seq<Result<Vec<Pubkey>, E>>,
    sysvar_clock: Pubkey,
)
    ensures
        lst_accounts(first + second, sysvar_clock) == lst_accounts(first, sysvar_clock)
            + lst_accounts(second, sysvar_clock),
    decreases second.len(),
{
    if second.len() == 0 {
        assert(first + second =~= first);
    } else {
        law_lst_accounts_are_not_deduplicated(first, second.drop_last(), sysvar_clock);
        assert((first + second).drop_last() =~= first + second.drop_last());
    }
}

/// An LST whose accounts are not known makes no difference to those of the others.
pub proof fn law_unknown_lst_accounts_are_passed_over<E>(
    before: Seq<Result<Vec<Pubkey>, E>>,
    e: E,
    after: Seq<Result<Vec<Pubkey>, E>>,
    sysvar_clock: Pubkey,
)
    ensures
        lst_accounts(before + seq![Err(e)] + after, sysvar_clock) == lst_accounts(
            before + after,
            sysvar_clock,
        ),
{
    let unknown: Seq<Result<Vec<Pubkey>, E>> = seq![Err(e)];
    law_lst_accounts_are_not_deduplicated(before + unknown, after, sysvar_clock);
    law_lst_accounts_are_not_deduplicated(before, unknown, sysvar_clock);
    law_lst_accounts_are_not_deduplicated(before, after, sysvar_clock);
    reveal_with_fuel(lst_accounts, 2);
    assert(lst_accounts(unknown, sysvar_clock) =~= Seq::empty());
    assert(lst_accounts(before, sysvar_clock) + Seq::empty() =~= lst_accounts(
        before,
        sysvar_clock,
    ));
}

/// The pool's own accounts are told apart from the clock where neither of them is it.
pub proof fn law_own_accounts_are_not_the_clock(ids: InfIds)
    ensures
        ids.wf() <==> ids.pool_state_id != ids.sysvar_clock && ids.lst_state_list_id
            != ids.sysvar_clock,
{
}

/// The mints of the pool are all those of its list, in order; none without a list.
pub proof fn law_mints_are_those_of_the_list(pool: InfPool)
    ensures
        pool.lst_mints matches Some(lst_mints) ==> pool.mints() == lst_mints@,
        pool.lst_mints is None ==> pool.mints().len() == 0,
{
}

/// The accounts to fetch begin with the pool state, the LST state list and the LP token's
/// mint. All the accounts of the pricing program follow, in order, however many LSTs there
/// are, and then those of the LSTs, which end the list.
pub proof fn law_pool_and_pricing_accounts_are_fetched<E>(
    ids: InfIds,
    lp_token_mint: Pubkey,
    pricing: Seq<Pubkey>,
    lsts: Seq<Result<Vec<Pubkey>, E>>,
)
    ensures
        ({
            let accounts = accounts_to_update(ids, lp_token_mint, pricing, lsts);
            let of_lsts = lst_accounts(lsts, ids.sysvar_clock);
            &&& accounts[0] == ids.pool_state_id
            &&& accounts[1] == ids.lst_state_list_id
            &&& accounts[2] == lp_token_mint
            &&& forall|i: int| 0 <= i < pricing.len() ==> accounts[3 + i] == #[trigger] pricing[i]
            &&& forall|i: int|
                0 <= i < of_lsts.len() ==> accounts[3 + pricing.len() + i] == #[trigger] of_lsts[i]
            &&& accounts.len() == 3 + pricing.len() + of_lsts.len()
        }),
{
}

/// The LSTs and the pricing program have no say in each other's accounts: the accounts to
/// fetch are those without any LST, and then what the LSTs add on their own.
pub proof fn law_lsts_add_to_the_accounts_of_the_pool<E>(
    ids: InfIds,
    lp_token_mint: Pubkey,
    pricing: Seq<Pubkey>,
    lsts: Seq<Result<Vec<Pubkey>, E>>,
)
    ensures
        accounts_to_update(ids, lp_token_mint, pricing, lsts) == accounts_to_update(
            ids,
            lp_token_mint,
            pricing,
            Seq::<Result<Vec<Pubkey>, E>>::empty(),
        ) + lst_accounts(lsts, ids.sysvar_clock),
{
    let none = Seq::<Result<Vec<Pubkey>, E>>::empty();
    assert(lst_accounts(none, ids.sysvar_clock) =~= Seq::empty());
    assert(accounts_to_update(ids, lp_token_mint, pricing, lsts) =~= accounts_to_update(
        ids,
        lp_token_mint,
        pricing,
        none,
    ) + lst_accounts(lsts, ids.sysvar_clock));
}

/// Keys without an address, of which none is that address, are kept as they are.
proof fn lemma_without_nothing(keys: Seq<Pubkey>, unwanted: Pubkey)
    requires
        !keys.contains(unwanted),
    ensures
        without(keys, unwanted) == keys,
    decreases keys.len(),
{
    reveal(Seq::filter);
    if keys.len() > 0 {
        let rest = keys.drop_last();
        assert(!rest.contains(unwanted)) by {
            if rest.contains(unwanted) {
                assert(keys[rest.index_of(unwanted)] == unwanted);
            }
        }
        assert(keys[keys.len() - 1] != unwanted);
        lemma_without_nothing(rest, unwanted);
        assert(rest.push(keys.last()) =~= keys);
    }
}

/// To leave an address out of two lists in a row is to leave it out of each.
proof fn lemma_without_adds_up(first: Seq<Pubkey>, second: Seq<Pubkey>, unwanted: Pubkey)
    ensures
        without(first + second, unwanted) == without(first, unwanted) + without(second, unwanted),
    decreases second.len(),
{
    reveal(Seq::filter);
    if second.len() == 0 {
        assert(first + second =~= first);
    } else {
        lemma_without_adds_up(first, second.drop_last(), unwanted);
        assert((first + second).drop_last() =~= first + second.drop_last());
    }
}

/// The accounts of one LST are all fetched as they are, in order and as often as they are
/// named, if the clock is not among them.
pub proof fn law_accounts_of_an_lst_are_fetched_as_they_are<E>(
    accounts: Vec<Pubkey>,
    sysvar_clock: Pubkey,
)
    requires
        !accounts@.contains(sysvar_clock),
    ensures
        lst_accounts::<E>(seq![Ok(accounts)], sysvar_clock) == accounts@,
{
    reveal_with_fuel(lst_accounts, 2);
    let lsts: Seq<Result<Vec<Pubkey>, E>> = seq![Ok(accounts)];
    assert(lsts.drop_last() =~= Seq::empty());
    lemma_without_nothing(accounts@, sysvar_clock);
    assert(lst_accounts(lsts, sysvar_clock) =~= accounts@);
}

/// Where the clock stands among the accounts of an LST, it makes no difference to the rest
/// that it is there.
pub proof fn law_clock_among_the_accounts_of_an_lst_makes_no_difference<E>(
    accounts: Vec<Pubkey>,
    rest: Vec<Pubkey>,
    at: int,
    sysvar_clock: Pubkey,
)
    requires
        0 <= at < accounts@.len(),
        accounts@[at] == sysvar_clock,
        rest@ == accounts@.remove(at),
    ensures
        lst_accounts::<E>(seq![Ok(accounts)], sysvar_clock) == lst_accounts::<E>(
            seq![Ok(rest)],
            sysvar_clock,
        ),
{
    reveal_with_fuel(lst_accounts, 2);
    reveal_with_fuel(Seq::filter, 2);
    let with_clock: Seq<Result<Vec<Pubkey>, E>> = seq![Ok(accounts)];
    let without_clock: Seq<Result<Vec<Pubkey>, E>> = seq![Ok(rest)];
    assert(with_clock.drop_last() =~= without_clock.drop_last());
    let before = accounts@.take(at);
    let clock = seq![sysvar_clock];
    let after = accounts@.skip(at + 1);
    assert(accounts@ =~= before + clock + after);
    assert(rest@ =~= before + after);
    lemma_without_adds_up(before + clock, after, sysvar_clock);
    lemma_without_adds_up(before, clock, sysvar_clock);
    lemma_without_adds_up(before, after, sysvar_clock);
    assert(clock.drop_last() =~= Seq::empty());
    assert(without(clock, sysvar_clock) =~= Seq::empty());
    assert(without(before + clock, sysvar_clock) =~= without(before, sysvar_clock));
}

/// The programs are twelve, each under its own name.
pub proof fn law_programs_go_by_their_names(ids: ProgramIds)
    ensures
        ({
            let programs = ids.labelled();
            &&& programs.len() == 12
            &&& programs.contains((ids.spl_stake_pool, "spl_stake_pool"@))
            &&& programs.contains((ids.spl_calculator, "spl_calculator"@))
            &&& programs.contains((ids.sanctum_spl_stake_pool, "sanctum_spl_stake_pool"@))
            &&& programs.contains((ids.sanctum_spl_calculator, "sanctum_spl_calculator"@))
            &&& programs.contains(
                (ids.sanctum_spl_multi_stake_pool, "sanctum_spl_multi_stake_pool"@),
            )
            &&& programs.contains(
                (ids.sanctum_spl_multi_calculator, "sanctum_spl_multi_calculator"@),
            )
            &&& programs.contains((ids.marinade, "marinade"@))
            &&& programs.contains((ids.marinade_calculator, "marinade_calculator"@))
            &&& programs.contains((ids.lido, "lido"@))
            &&& programs.contains((ids.lido_calculator, "lido_calculator"@))
            &&& programs.contains((ids.wsol_calculator, "wsol_calculator"@))
            &&& programs.contains((ids.flat_fee_pricing_program, "flat_fee_pricing_program"@))
        }),
{
    let programs = ids.labelled();
    assert(programs[0] == (ids.spl_stake_pool, "spl_stake_pool"@));
    assert(programs[1] == (ids.spl_calculator, "spl_calculator"@));
    assert(programs[2] == (ids.sanctum_spl_stake_pool, "sanctum_spl_stake_pool"@));
    assert(programs[3] == (ids.sanctum_spl_calculator, "sanctum_spl_calculator"@));
    assert(programs[4] == (ids.sanctum_spl_multi_stake_pool, "sanctum_spl_multi_stake_pool"@));
    assert(programs[5] == (ids.sanctum_spl_multi_calculator, "sanctum_spl_multi_calculator"@));
    assert(programs[6] == (ids.marinade, "marinade"@));
    assert(programs[7] == (ids.marinade_calculator, "marinade_calculator"@));
    assert(programs[8] == (ids.lido, "lido"@));
    assert(programs[9] == (ids.lido_calculator, "lido_calculator"@));
    assert(programs[10] == (ids.wsol_calculator, "wsol_calculator"@));
    assert(programs[11] == (ids.flat_fee_pricing_program, "flat_fee_pricing_program"@));
}

} // verus!
