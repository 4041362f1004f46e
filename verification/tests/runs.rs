use inf1_jup_interface::{
    InfAmm, InfIds, InfPool, InitErr, InitReply, InitRun, InitStep, PoolInfo, ProgramIds, Pubkey,
    SanctumLst, SvcKind, UpdateErr, UpdateReply, UpdateRun, UpdateStep,
};
use std::collections::BTreeMap;
use std::sync::atomic::AtomicU64;
use std::sync::Arc;

fn pk(n: u8) -> Pubkey {
    [n; 32]
}

fn amm(lst_mints: Option<Vec<Pubkey>>) -> InfAmm {
    InfAmm {
        ids: InfIds {
            label: "INF".to_string(),
            program_id: pk(20),
            pool_state_id: pk(21),
            lst_state_list_id: pk(22),
            sysvar_clock: pk(23),
        },
        inner: InfPool { lp_token_mint: pk(24), lst_mints },
        current_epoch: Arc::new(AtomicU64::new(0)),
    }
}

/// Replies `Done` until the list is to be decoded.
fn update_up_to_decoding() -> UpdateRun<&'static str> {
    let mut run = amm(None).update();
    assert!(matches!(run.step(), UpdateStep::UpdatePool));
    run.reply(UpdateReply::Done);
    assert!(matches!(run.step(), UpdateStep::UpdateLstStateList));
    run.reply(UpdateReply::Done);
    assert!(matches!(run.step(), UpdateStep::UpdateLpTokenSupply));
    run.reply(UpdateReply::Done);
    assert!(matches!(run.step(), UpdateStep::DecodeLstStateList));
    run
}

#[test]
fn update_deals_with_every_lst_in_order() {
    let kinds = [
        (SvcKind::Lido, true),
        (SvcKind::SanctumSpl, true),
        (SvcKind::SanctumSplMulti, true),
        (SvcKind::Spl, true),
        (SvcKind::Marinade, false),
        (SvcKind::Wsol, false),
    ];
    let mints: Vec<Pubkey> = (1..=6).map(pk).collect();
    let mut run = update_up_to_decoding();
    run.reply(UpdateReply::LstStates(Some(mints.clone())));
    assert_eq!(run.mints(), &mints);
    assert!(matches!(run.step(), UpdateStep::UpdatePricing));
    run.reply(UpdateReply::Done);
    let mut replies = 5;
    for (i, (kind, omits)) in kinds.into_iter().enumerate() {
        assert!(matches!(run.step(), UpdateStep::UpdateReserves { lst } if *lst == i));
        run.reply(UpdateReply::Done);
        assert!(matches!(run.step(), UpdateStep::GetOrInitCalc { lst } if *lst == i));
        run.reply(UpdateReply::Calc(kind));
        assert!(matches!(
            run.step(),
            UpdateStep::UpdateCalc { lst, omit_clock } if *lst == i && *omit_clock == omits
        ));
        run.reply(UpdateReply::Done);
        replies += 3;
    }
    assert!(matches!(run.step(), UpdateStep::Finished(Ok(()))));
    assert_eq!(replies, 5 + 3 * 6);
}

#[test]
fn update_of_an_empty_list_ends_after_pricing() {
    let mut run = update_up_to_decoding();
    run.reply(UpdateReply::LstStates(Some(vec![])));
    run.reply(UpdateReply::Done);
    assert!(matches!(run.into_result(), Some(Ok(()))));
}

#[test]
fn update_passes_over_missing_spl_data() {
    let mut run = update_up_to_decoding();
    run.reply(UpdateReply::LstStates(Some(vec![pk(1), pk(2)])));
    run.reply(UpdateReply::Done);
    run.reply(UpdateReply::Done);
    run.reply(UpdateReply::MissingSplData);
    assert!(matches!(run.step(), UpdateStep::RemoveCalc { lst: 0 }));
    run.reply(UpdateReply::Done);
    assert!(matches!(run.step(), UpdateStep::UpdateReserves { lst: 1 }));
    run.reply(UpdateReply::Done);
    run.reply(UpdateReply::MissingSplData);
    run.reply(UpdateReply::Done);
    assert!(matches!(run.into_result(), Some(Ok(()))));
}

#[test]
fn update_ends_at_the_first_failure() {
    let mut run: UpdateRun<&str> = amm(None).update();
    run.reply(UpdateReply::Failed("no pool state"));
    assert!(matches!(run.step(), UpdateStep::Finished(Err(UpdateErr::Inner("no pool state")))));
    run.reply(UpdateReply::Done);
    assert!(matches!(run.into_result(), Some(Err(UpdateErr::Inner("no pool state")))));

    for fail_at in 0..3 {
        let mut run = update_up_to_decoding();
        run.reply(UpdateReply::LstStates(Some(vec![pk(1)])));
        run.reply(UpdateReply::Done);
        for reply in [UpdateReply::Done, UpdateReply::Calc(SvcKind::Lido)].into_iter().take(fail_at) {
            run.reply(reply);
        }
        run.reply(UpdateReply::Failed("no account"));
        assert!(matches!(run.into_result(), Some(Err(UpdateErr::Inner("no account")))));
    }
}

#[test]
fn update_fails_on_a_list_that_does_not_decode() {
    let mut run = update_up_to_decoding();
    run.reply(UpdateReply::LstStates(None));
    match run.into_result() {
        Some(Err(UpdateErr::AccDeser { pk: at })) => assert_eq!(at, pk(22)),
        other => panic!("{:?}", other),
    }
}

#[test]
fn update_ignores_what_answers_another_step() {
    let mut run: UpdateRun<&str> = amm(None).update();
    run.reply(UpdateReply::LstStates(None));
    run.reply(UpdateReply::MissingSplData);
    run.reply(UpdateReply::Calc(SvcKind::Wsol));
    assert!(matches!(run.step(), UpdateStep::UpdatePool));
    assert!(run.into_result().is_none());
    let mut run = update_up_to_decoding();
    run.reply(UpdateReply::Done);
    run.reply(UpdateReply::Failed("not now"));
    assert!(matches!(run.step(), UpdateStep::DecodeLstStateList));
}

/// A pool whose calculators hold the epoch that they read off the clock, if they did, and
/// the price of their mint's account.
#[derive(Debug, Clone, Default, PartialEq)]
struct FakePool {
    calcs: BTreeMap<Pubkey, (Option<u64>, u64)>,
}

impl FakePool {
    fn kind(mint: &Pubkey) -> SvcKind {
        if mint[0] % 2 == 0 {
            SvcKind::Wsol
        } else {
            SvcKind::Spl
        }
    }

    fn set_up(mints: &[Pubkey]) -> FakePool {
        let mut pool = FakePool::default();
        let mut run = init();
        loop {
            let reply = match run.step() {
                InitStep::Finished(_) => break,
                InitStep::NewPool { .. } => InitReply::Done,
                InitStep::DecodeLstStateList { .. } => InitReply::LstStates(Some(mints.len())),
                InitStep::GetOrInitCalc { lst } => {
                    if mints[*lst] == pk(9) {
                        InitReply::MissingSplData
                    } else {
                        pool.calcs.entry(mints[*lst]).or_default();
                        InitReply::Done
                    }
                }
            };
            run.reply(reply);
        }
        assert!(matches!(run.into_result(), Some(Ok(()))));
        pool
    }

    fn update(&mut self, mints: &[Pubkey], fetched: &BTreeMap<Pubkey, u64>) -> Result<(), String> {
        let mut run = amm(None).update();
        loop {
            let reply = match run.step() {
                UpdateStep::Finished(_) => break,
                UpdateStep::DecodeLstStateList => UpdateReply::LstStates(Some(mints.to_vec())),
                UpdateStep::GetOrInitCalc { lst } => {
                    let mint = run.mints()[*lst];
                    if mint == pk(9) {
                        UpdateReply::MissingSplData
                    } else {
                        self.calcs.entry(mint).or_default();
                        UpdateReply::Calc(FakePool::kind(&mint))
                    }
                }
                UpdateStep::RemoveCalc { lst } => {
                    self.calcs.remove(&run.mints()[*lst]);
                    UpdateReply::Done
                }
                UpdateStep::UpdateCalc { lst, omit_clock } => {
                    let mint = run.mints()[*lst];
                    let affected = FakePool::kind(&mint) == SvcKind::Spl;
                    let epoch = if affected && !omit_clock { Some(fetched[&pk(23)]) } else { None };
                    match fetched.get(&mint) {
                        Some(price) => {
                            self.calcs.insert(mint, (epoch, *price));
                            UpdateReply::Done
                        }
                        None => UpdateReply::Failed("account not fetched".to_string()),
                    }
                }
                _ => UpdateReply::Done,
            };
            run.reply(reply);
        }
        match run.into_result() {
            Some(Ok(())) => Ok(()),
            Some(Err(UpdateErr::Inner(e))) => Err(e),
            other => panic!("{:?}", other),
        }
    }

    fn lst_accounts(&self, mint: &Pubkey) -> Result<Vec<Pubkey>, &'static str> {
        match self.calcs.get(mint) {
            Some(_) => Ok(vec![*mint, pk(23)]),
            None => Err("no calculator"),
        }
    }
}

#[test]
fn update_does_not_depend_on_the_clock() {
    let mints = [pk(1), pk(2), pk(9), pk(3)];
    let prices = BTreeMap::from([(pk(1), 10), (pk(2), 20), (pk(3), 30)]);
    let mut with_clock = prices.clone();
    with_clock.insert(pk(23), 777);
    let (mut a, mut b) = (FakePool::default(), FakePool::default());
    assert_eq!(a.update(&mints, &prices), Ok(()));
    assert_eq!(b.update(&mints, &with_clock), Ok(()));
    assert_eq!(a, b);
    assert_eq!(a.calcs[&pk(3)], (None, 30));

    let mut without_account = prices.clone();
    without_account.remove(&pk(2));
    with_clock.remove(&pk(2));
    assert_eq!(a.update(&mints, &without_account), Err("account not fetched".to_string()));
    assert_eq!(b.update(&mints, &with_clock), Err("account not fetched".to_string()));
    assert_eq!(a, b);
}

#[test]
fn accounts_of_new_lsts_are_fetched_after_an_update() {
    let mints = vec![pk(1), pk(9)];
    let mut pool = FakePool::default();
    pool.calcs.insert(pk(9), (None, 90));
    let accounts = |pool: &FakePool| {
        let lsts = mints.iter().map(|mint| pool.lst_accounts(mint)).collect();
        amm(Some(mints.clone())).get_accounts_to_update(&vec![], &lsts)
    };
    assert_eq!(accounts(&pool), vec![pk(21), pk(22), pk(24), pk(9)]);
    assert_eq!(pool.update(&mints, &BTreeMap::from([(pk(1), 10)])), Ok(()));
    assert_eq!(accounts(&pool), vec![pk(21), pk(22), pk(24), pk(1)]);
}

#[test]
fn accounts_of_all_lsts_are_fetched_after_the_setup() {
    let mints = vec![pk(1), pk(9), pk(3)];
    let mut pool = FakePool::set_up(&mints);
    let lsts = mints.iter().map(|mint| pool.lst_accounts(mint)).collect();
    let accounts = amm(Some(mints.clone())).get_accounts_to_update(&vec![], &lsts);
    assert_eq!(accounts, vec![pk(21), pk(22), pk(24), pk(1), pk(3)]);

    let fetched: BTreeMap<Pubkey, u64> = accounts.into_iter().map(|key| (key, 5)).collect();
    assert_eq!(pool.update(&mints, &fetched), Ok(()));
    assert_eq!(pool.calcs, BTreeMap::from([(pk(1), (None, 5)), (pk(3), (None, 5))]));
}

#[test]
fn second_update_changes_nothing() {
    let mints = [pk(1), pk(9), pk(2), pk(1)];
    let fetched = BTreeMap::from([(pk(1), 10), (pk(2), 20)]);
    let mut pool = FakePool::set_up(&mints);
    pool.calcs.insert(pk(9), (None, 90));
    assert_eq!(pool.update(&mints, &fetched), Ok(()));
    let first = pool.clone();
    assert_eq!(first.calcs, BTreeMap::from([(pk(1), (None, 10)), (pk(2), (None, 20))]));
    assert_eq!(pool.update(&mints, &fetched), Ok(()));
    assert_eq!(pool, first);
}

#[test]
fn calculators_never_take_up_an_epoch() {
    let mints = [pk(1), pk(3), pk(2)];
    let mut pool = FakePool::set_up(&mints);
    for clock in [700, 701, 702] {
        let fetched = BTreeMap::from([(pk(1), clock), (pk(2), 20), (pk(3), 30), (pk(23), clock)]);
        assert_eq!(pool.update(&mints, &fetched), Ok(()));
        assert_eq!(pool.calcs[&pk(1)], (None, clock));
        assert!(pool.calcs.values().all(|(epoch, _)| epoch.is_none()));
    }
}

fn sanctum_lsts() -> Vec<SanctumLst> {
    vec![
        SanctumLst { mint: pk(1), pool: PoolInfo::Spl { pool: pk(101) } },
        SanctumLst { mint: pk(2), pool: PoolInfo::Lido },
    ]
}

fn init() -> InitRun<&'static str> {
    InfAmm::from_keyed_account(&pk(22), &pk(22), vec![1, 2, 3], &sanctum_lsts()).unwrap()
}

#[test]
fn setup_refuses_other_accounts() {
    let res: Result<InitRun<&str>, InitErr<&str>> =
        InfAmm::from_keyed_account(&pk(22), &pk(21), vec![1, 2, 3], &sanctum_lsts());
    assert!(matches!(res, Err(InitErr::IncorrectKeyedAccount)));
}

#[test]
fn setup_hands_over_the_data_and_the_stake_pools() {
    let mut run = init();
    match run.step() {
        InitStep::NewPool { lst_state_list_data, spl_lsts } => {
            assert_eq!(lst_state_list_data, &vec![1, 2, 3]);
            assert_eq!(spl_lsts.entries(), &vec![(pk(1), pk(101))]);
        }
        other => panic!("{:?}", other),
    }
    run.reply(InitReply::MissingSplData);
    assert!(matches!(run.step(), InitStep::NewPool { .. }));
    run.reply(InitReply::Done);
    match run.step() {
        InitStep::DecodeLstStateList { lst_state_list_data } => {
            assert_eq!(lst_state_list_data, &vec![1, 2, 3]);
        }
        other => panic!("{:?}", other),
    }
    run.reply(InitReply::Done);
    assert!(matches!(run.step(), InitStep::DecodeLstStateList { .. }));
}

#[test]
fn setup_asks_for_every_calculator() {
    let mut run = init();
    assert!(matches!(run.step(), InitStep::NewPool { .. }));
    run.reply(InitReply::Done);
    assert!(matches!(run.step(), InitStep::DecodeLstStateList { .. }));
    run.reply(InitReply::LstStates(Some(3)));
    assert!(matches!(run.step(), InitStep::GetOrInitCalc { lst: 0 }));
    run.reply(InitReply::Done);
    assert!(matches!(run.step(), InitStep::GetOrInitCalc { lst: 1 }));
    run.reply(InitReply::MissingSplData);
    assert!(matches!(run.step(), InitStep::GetOrInitCalc { lst: 2 }));
    run.reply(InitReply::Done);
    assert!(matches!(run.into_result(), Some(Ok(()))));
}

#[test]
fn setup_ends_at_the_first_failure() {
    let mut run = init();
    run.reply(InitReply::Failed("bad data"));
    assert!(matches!(run.into_result(), Some(Err(InitErr::Inner("bad data")))));

    let mut run = init();
    run.reply(InitReply::Done);
    run.reply(InitReply::LstStates(None));
    assert!(matches!(run.into_result(), Some(Err(InitErr::LstStateList))));

    let mut run = init();
    run.reply(InitReply::Done);
    run.reply(InitReply::LstStates(Some(2)));
    run.reply(InitReply::Done);
    run.reply(InitReply::Failed("unknown calculator"));
    run.reply(InitReply::Done);
    assert!(matches!(run.into_result(), Some(Err(InitErr::Inner("unknown calculator")))));
}

#[test]
fn setup_of_an_empty_list_ends_at_once() {
    let mut run = init();
    run.reply(InitReply::Done);
    run.reply(InitReply::LstStates(Some(0)));
    assert!(matches!(run.into_result(), Some(Ok(()))));
}

#[test]
fn reserve_mints_end_with_the_lp_token() {
    assert_eq!(amm(Some(vec![pk(1), pk(2)])).get_reserve_mints(), vec![pk(1), pk(2), pk(24)]);
    assert_eq!(amm(Some(vec![])).get_reserve_mints(), vec![pk(24)]);
    assert_eq!(amm(None).get_reserve_mints(), vec![pk(24)]);
}

#[test]
fn accounts_to_update_leave_out_the_clock_of_the_lsts() {
    let lsts = vec![
        Ok(vec![pk(3), pk(23), pk(4)]),
        Err("not fetched yet"),
        Ok(vec![]),
        Ok(vec![pk(3), pk(23)]),
    ];
    assert_eq!(
        amm(Some(vec![pk(1)])).get_accounts_to_update(&vec![pk(5), pk(23)], &lsts),
        vec![pk(21), pk(22), pk(24), pk(5), pk(23), pk(3), pk(4), pk(3)]
    );
    let none: Vec<Result<Vec<Pubkey>, &str>> = vec![];
    assert_eq!(
        amm(None).get_accounts_to_update(&vec![], &none),
        vec![pk(21), pk(22), pk(24)]
    );
}

#[test]
fn mints_default_to_none() {
    assert_eq!(amm(None).inner.mints_or_default(), Vec::<Pubkey>::new());
    assert_eq!(amm(Some(vec![pk(9)])).inner.mints_or_default(), vec![pk(9)]);
}

#[test]
fn amm_describes_itself() {
    let amm = amm(None);
    assert_eq!(amm.label(), "INF");
    assert_eq!(amm.program_id(), pk(20));
    assert_eq!(amm.key(), pk(20));
    assert!(amm.has_dynamic_accounts());
    assert!(!amm.supports_exact_out());
    assert_eq!(amm.get_accounts_len(), 32);
}

#[test]
fn program_dependencies_are_labelled() {
    let ids = ProgramIds {
        spl_stake_pool: pk(1),
        spl_calculator: pk(2),
        sanctum_spl_stake_pool: pk(3),
        sanctum_spl_calculator: pk(4),
        sanctum_spl_multi_stake_pool: pk(5),
        sanctum_spl_multi_calculator: pk(6),
        marinade: pk(7),
        marinade_calculator: pk(8),
        lido: pk(9),
        lido_calculator: pk(10),
        wsol_calculator: pk(11),
        flat_fee_pricing_program: pk(12),
    };
    let labels = [
        "spl_stake_pool",
        "spl_calculator",
        "sanctum_spl_stake_pool",
        "sanctum_spl_calculator",
        "sanctum_spl_multi_stake_pool",
        "sanctum_spl_multi_calculator",
        "marinade",
        "marinade_calculator",
        "lido",
        "lido_calculator",
        "wsol_calculator",
        "flat_fee_pricing_program",
    ];
    let expected: Vec<(Pubkey, String)> =
        (1..=12).map(pk).zip(labels.into_iter().map(String::from)).collect();
    assert_eq!(amm(None).program_dependencies(&ids), expected);
}
