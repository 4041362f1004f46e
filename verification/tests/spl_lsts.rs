use inf1_jup_interface::{build_spl_lsts, pubkey_eq, PoolInfo, Pubkey, SanctumLst, SplLsts};

fn pk(n: u8) -> Pubkey {
    [n; 32]
}

fn lst(mint: u8, pool: PoolInfo) -> SanctumLst {
    SanctumLst { mint: pk(mint), pool }
}

#[test]
fn keys_differ_in_any_byte() {
    assert!(pubkey_eq(&pk(1), &pk(1)));
    for i in 0..32 {
        let mut other = pk(1);
        other[i] = 2;
        assert!(!pubkey_eq(&pk(1), &other));
        assert!(!pubkey_eq(&other, &pk(1)));
    }
}

#[test]
fn only_spl_pools_are_kept() {
    let spl_lsts = build_spl_lsts(&vec![
        lst(1, PoolInfo::Lido),
        lst(2, PoolInfo::Marinade),
        lst(3, PoolInfo::ReservePool),
        lst(4, PoolInfo::SanctumSpl { pool: pk(104) }),
        lst(5, PoolInfo::Spl { pool: pk(105) }),
        lst(6, PoolInfo::SPool),
        lst(7, PoolInfo::SanctumSplMulti { pool: pk(107) }),
    ]);
    assert_eq!(spl_lsts.len(), 3);
    for mint in [1, 2, 3, 6, 8] {
        assert_eq!(spl_lsts.get(&pk(mint)), None);
    }
    for mint in [4, 5, 7] {
        assert_eq!(spl_lsts.get(&pk(mint)), Some(pk(100 + mint)));
    }
}

#[test]
fn last_spl_listing_wins() {
    let spl_lsts = build_spl_lsts(&vec![
        lst(1, PoolInfo::Spl { pool: pk(10) }),
        lst(2, PoolInfo::Spl { pool: pk(20) }),
        lst(1, PoolInfo::SanctumSpl { pool: pk(11) }),
        lst(1, PoolInfo::Lido),
    ]);
    assert_eq!(spl_lsts.len(), 2);
    assert_eq!(spl_lsts.get(&pk(1)), Some(pk(11)));
    assert_eq!(spl_lsts.get(&pk(2)), Some(pk(20)));
    let mut entries = spl_lsts.entries().clone();
    entries.sort();
    assert_eq!(entries, vec![(pk(1), pk(11)), (pk(2), pk(20))]);
}

#[test]
fn empty_list_has_no_pools() {
    assert_eq!(build_spl_lsts(&vec![]).len(), 0);
    assert_eq!(SplLsts::new().get(&pk(1)), None);
}
