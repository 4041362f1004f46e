//! The stake pools behind the SPL liquid staking tokens.

use crate::pubkey::{pubkey_eq, Pubkey};
use vstd::prelude::*;

verus! {

/// How the pool behind a liquid staking token is run.
#[derive(Debug, Clone, Copy)]
pub enum PoolInfo {
    Lido,
    Marinade,
    ReservePool,
    /// A pool of Sanctum's deployment of the SPL stake pool program.
    SanctumSpl { pool: Pubkey },
    /// A pool of the SPL stake pool program.
    Spl { pool: Pubkey },
    SPool,
    /// A pool of Sanctum's multi-validator deployment of the SPL stake pool program.
    SanctumSplMulti { pool: Pubkey },
}

/// A liquid staking token of the Sanctum LST list.
#[derive(Debug, Clone, Copy)]
pub struct SanctumLst {
    pub mint: Pubkey,
    pub pool: PoolInfo,
}

impl PoolInfo {
    /// The address of the stake pool account, for the pools of one of the three
    /// SPL stake pool programs.
    pub open spec fn spl_pool(self) -> Option<Pubkey> {
        match self {
            PoolInfo::SanctumSpl { pool } => Some(pool),
            PoolInfo::Spl { pool } => Some(pool),
            PoolInfo::SanctumSplMulti { pool } => Some(pool),
            _ => None,
        }
    }

    fn stake_pool_address(&self) -> (address: Option<Pubkey>)
        ensures
            address == self.spl_pool(),
            *self matches PoolInfo::Spl { pool } ==> address == Some(pool),
            *self matches PoolInfo::SanctumSpl { pool } ==> address == Some(pool),
            *self matches PoolInfo::SanctumSplMulti { pool } ==> address == Some(pool),
            address is Some ==> *self is Spl || *self is SanctumSpl || *self is SanctumSplMulti,
    {
        match self {
            PoolInfo::Lido => None,
            PoolInfo::Marinade => None,
            PoolInfo::ReservePool => None,
            PoolInfo::SanctumSpl { pool } => Some(*pool),
            PoolInfo::Spl { pool } => Some(*pool),
            PoolInfo::SPool => None,
            PoolInfo::SanctumSplMulti { pool } => Some(*pool),
        }
    }
}

/// The mints of SPL liquid staking tokens, each with its stake pool.
#[derive(Debug)]
pub struct SplLsts {
    entries: Vec<(Pubkey, Pubkey)>,
}

/// The map that a list of entries stands for.
pub open spec fn entries_map(entries: Seq<(Pubkey, Pubkey)>) -> Map<Pubkey, Pubkey>
    decreases entries.len(),
{
    if entries.len() == 0 {
        Map::empty()
    } else {
        entries_map(entries.drop_last()).insert(entries.last().0, entries.last().1)
    }
}

/// No mint occurs twice.
pub open spec fn distinct_mints(entries: Seq<(Pubkey, Pubkey)>) -> bool {
    forall|i: int, j: int|
        0 <= i < j < entries.len() ==> (#[trigger] entries[i]).0 != (#[trigger] entries[j]).0
}

impl View for SplLsts {
    type V = Map<Pubkey, Pubkey>;

    closed spec fn view(&self) -> Map<Pubkey, Pubkey> {
        entries_map(self.entries@)
    }
}

/// What a map of entries without a repeated mint holds, entry by entry.
proof fn lemma_entries_map(entries: Seq<(Pubkey, Pubkey)>)
    requires
        distinct_mints(entries),
    ensures
        forall|i: int|
            0 <= i < entries.len() ==> entries_map(entries).contains_pair(
                (#[trigger] entries[i]).0,
                entries[i].1,
            ),
        forall|mint: Pubkey| #[trigger]
            entries_map(entries).contains_key(mint) ==> exists|i: int|
                0 <= i < entries.len() && (#[trigger] entries[i]).0 == mint,
        entries_map(entries).dom().finite(),
        entries_map(entries).len() == entries.len(),
    decreases entries.len(),
{
    if entries.len() > 0 {
        let rest = entries.drop_last();
        lemma_entries_map(rest);
        assert forall|i: int| 0 <= i < entries.len() implies entries_map(entries).contains_pair(
            (#[trigger] entries[i]).0,
            entries[i].1,
        ) by {
            if i < rest.len() {
                assert(rest[i] == entries[i]);
            }
        }
        assert forall|mint: Pubkey| #[trigger]
            entries_map(entries).contains_key(mint) implies exists|i: int|
            0 <= i < entries.len() && (#[trigger] entries[i]).0 == mint by {
            if mint == entries.last().0 {
                assert(entries[entries.len() - 1].0 == mint);
            } else {
                assert(entries_map(rest).contains_key(mint));
                let i = choose|i: int| 0 <= i < rest.len() && (#[trigger] rest[i]).0 == mint;
                assert(entries[i].0 == mint);
            }
        }
        if entries_map(rest).contains_key(entries.last().0) {
            let i = choose|i: int|
                0 <= i < rest.len() && (#[trigger] rest[i]).0 == entries.last().0;
            assert(entries[i].0 == entries[entries.len() - 1].0);
        }
    }
}

impl SplLsts {
    #[verifier::type_invariant]
    spec fn wf(self) -> bool {
        distinct_mints(self.entries@)
    }

    /// The map with no tokens.
    pub fn new() -> (lsts: Self)
        ensures
            lsts@ == Map::<Pubkey, Pubkey>::empty(),
    {
        SplLsts { entries: Vec::new() }
    }

    /// Where the entry of `mint` stands.
    fn position(&self, mint: &Pubkey) -> (position: Option<usize>)
        ensures
            match position {
                Some(i) => i < self.entries@.len() && self.entries@[i as int].0 == *mint,
                None => forall|i: int|
                    0 <= i < self.entries@.len() ==> (#[trigger] self.entries@[i]).0 != *mint,
            },
    {
        let mut i: usize = 0;
        while i < self.entries.len()
            invariant
                i <= self.entries@.len(),
                forall|j: int| 0 <= j < i ==> (#[trigger] self.entries@[j]).0 != *mint,
            decreases self.entries@.len() - i,
        {
            if pubkey_eq(&self.entries[i].0, mint) {
                return Some(i);
            }
            i += 1;
        }
        None
    }

    /// The number of tokens.
    pub fn len(&self) -> (len: usize)
        ensures
            len == self@.len(),
    {
        proof {
            use_type_invariant(self);
            lemma_entries_map(self.entries@);
        }
        self.entries.len()
    }

    /// The stake pool of `mint`, if the token is an SPL one.
    pub fn get(&self, mint: &Pubkey) -> (pool: Option<Pubkey>)
        ensures
            pool == (if self@.contains_key(*mint) {
                Some(self@[*mint])
            } else {
                None
            }),
    {
        proof {
            use_type_invariant(self);
            lemma_entries_map(self.entries@);
        }
        match self.position(mint) {
            Some(i) => Some(self.entries[i].1),
            None => None,
        }
    }

    /// The entries, one for each mint.
    pub fn entries(&self) -> (entries: &Vec<(Pubkey, Pubkey)>)
        ensures
            distinct_mints(entries@),
            entries_map(entries@) == self@,
            entries@.len() == self@.len(),
            forall|i: int|
                0 <= i < entries@.len() ==> self@.contains_pair(
                    (#[trigger] entries@[i]).0,
                    entries@[i].1,
                ),
            forall|mint: Pubkey| #[trigger]
                self@.contains_key(mint) ==> exists|i: int|
                    0 <= i < entries@.len() && (#[trigger] entries@[i]).0 == mint,
    {
        proof {
            use_type_invariant(self);
            lemma_entries_map(self.entries@);
        }
        &self.entries
    }

    /// Sets the stake pool of `mint`, in place of the one it had.
    pub fn insert(&mut self, mint: Pubkey, pool: Pubkey)
        ensures
            final(self)@ == old(self)@.insert(mint, pool),
    {
        proof {
            use_type_invariant(&*self);
            lemma_entries_map(self.entries@);
        }
        let ghost before = self.entries@;
        match self.position(&mint) {
            Some(i) => {
                let mut entries: Vec<(Pubkey, Pubkey)> = Vec::new();
                std::mem::swap(&mut entries, &mut self.entries);
                entries.set(i, (mint, pool));
                proof {
                    assert(entries_map(entries@) =~= entries_map(before).insert(mint, pool)) by {
                        lemma_replaced(before, i as int, mint, pool);
                    }
                }
                self.entries = entries;
            },
            None => {
                let mut entries: Vec<(Pubkey, Pubkey)> = Vec::new();
                std::mem::swap(&mut entries, &mut self.entries);
                entries.push((mint, pool));
                proof {
                    assert(entries@.drop_last() =~= before);
                }
                self.entries = entries;
            },
        }
    }
}

/// Replacing the pool of a mint in place sets it in the map.
proof fn lemma_replaced(entries: Seq<(Pubkey, Pubkey)>, at: int, mint: Pubkey, pool: Pubkey)
    requires
        distinct_mints(entries),
        0 <= at < entries.len(),
        entries[at].0 == mint,
    ensures
        distinct_mints(entries.update(at, (mint, pool))),
        entries_map(entries.update(at, (mint, pool))) == entries_map(entries).insert(mint, pool),
{
    let updated = entries.update(at, (mint, pool));
    lemma_entries_map(entries);
    lemma_entries_map(updated);
    let left = entries_map(updated);
    let right = entries_map(entries).insert(mint, pool);
    assert forall|k: Pubkey| left.contains_key(k) == right.contains_key(k) by {
        if left.contains_key(k) {
            let i = choose|i: int| 0 <= i < updated.len() && (#[trigger] updated[i]).0 == k;
            assert(entries[i].0 == k);
        }
        if right.contains_key(k) && k != mint {
            let i = choose|i: int| 0 <= i < entries.len() && (#[trigger] entries[i]).0 == k;
            assert(updated[i].0 == k);
        }
        assert(updated[at].0 == mint);
    }
    assert forall|k: Pubkey| left.contains_key(k) implies left[k] == right[k] by {
        let i = choose|i: int| 0 <= i < updated.len() && (#[trigger] updated[i]).0 == k;
        assert(entries[i].0 == k);
        assert(left.contains_pair(updated[i].0, updated[i].1));
        assert(entries_map(entries).contains_pair(entries[i].0, entries[i].1));
    }
    assert(left =~= right);
}

/// The stake pools of the tokens of `lsts` that are SPL ones. Where a mint is
/// listed more than once, the last SPL listing of it counts.
pub open spec fn spl_pools(lsts: Seq<SanctumLst>) -> Map<Pubkey, Pubkey>
    decreases lsts.len(),
{
    if lsts.len() == 0 {
        Map::empty()
    } else {
        let rest = spl_pools(lsts.drop_last());
        match lsts.last().pool.spl_pool() {
            Some(pool) => rest.insert(lsts.last().mint, pool),
            None => rest,
        }
    }
}

/// Picks the SPL tokens out of the Sanctum LST list, each with its stake pool.
pub fn build_spl_lsts(lsts: &Vec<SanctumLst>) -> (spl_lsts: SplLsts)
    ensures
        spl_lsts@ == spl_pools(lsts@),
{
    let mut spl_lsts = SplLsts::new();
    let mut i: usize = 0;
    while i < lsts.len()
        invariant
            i <= lsts@.len(),
            spl_lsts@ == spl_pools(lsts@.take(i as int)),
        decreases lsts@.len() - i,
    {
        if let Some(pool) = lsts[i].pool.stake_pool_address() {
            spl_lsts.insert(lsts[i].mint, pool);
        }
        assert(lsts@.take(i + 1).drop_last() =~= lsts@.take(i as int));
        i += 1;
    }
    assert(lsts@.take(lsts@.len() as int) =~= lsts@);
    spl_lsts
}

/// A mint has a pool in the result exactly where the list holds an SPL token of
/// that mint.
pub proof fn law_spl_pools_keys(lsts: Seq<SanctumLst>, mint: Pubkey)
    ensures
        spl_pools(lsts).contains_key(mint) <==> exists|i: int|
            0 <= i < lsts.len() && (#[trigger] lsts[i]).mint == mint
                && lsts[i].pool.spl_pool() is Some,
    decreases lsts.len(),
{
    if lsts.len() > 0 {
        let rest = lsts.drop_last();
        law_spl_pools_keys(rest, mint);
        if spl_pools(rest).contains_key(mint) {
            let i = choose|i: int|
                0 <= i < rest.len() && (#[trigger] rest[i]).mint == mint
                    && rest[i].pool.spl_pool() is Some;
            assert(lsts[i].mint == mint && lsts[i].pool.spl_pool() is Some);
        }
        if lsts.last().mint == mint && lsts.last().pool.spl_pool() is Some {
            assert(lsts[lsts.len() - 1].mint == mint);
        }
        if exists|i: int|
            0 <= i < lsts.len() && (#[trigger] lsts[i]).mint == mint
                && lsts[i].pool.spl_pool() is Some {
            let i = choose|i: int|
                0 <= i < lsts.len() && (#[trigger] lsts[i]).mint == mint
                    && lsts[i].pool.spl_pool() is Some;
            if i < rest.len() {
                assert(rest[i].mint == mint);
            }
        }
    }
}

/// The pool of a mint is that of its last SPL listing.
pub proof fn law_spl_pools_last_listing_wins(lsts: Seq<SanctumLst>, at: int)
    requires
        0 <= at < lsts.len(),
        lsts[at].pool.spl_pool() is Some,
        forall|i: int|
            at < i < lsts.len() && (#[trigger] lsts[i]).mint == lsts[at].mint
                ==> lsts[i].pool.spl_pool() is None,
    ensures
        spl_pools(lsts).contains_key(lsts[at].mint),
        spl_pools(lsts)[lsts[at].mint] == lsts[at].pool.spl_pool()->Some_0,
    decreases lsts.len(),
{
    let rest = lsts.drop_last();
    if at < rest.len() {
        assert(rest[at] == lsts[at]);
        assert forall|i: int|
            at < i < rest.len() && (#[trigger] rest[i]).mint == rest[at].mint implies
            rest[i].pool.spl_pool() is None by {
            assert(lsts[i].mint == lsts[at].mint);
        }
        law_spl_pools_last_listing_wins(rest, at);
        assert(lsts[lsts.len() - 1] == lsts.last());
    }
}

/// The pools of the three SPL stake pool programs have an address, which is their own, and
/// no other pool has one.
pub proof fn law_spl_pools_have_their_own_address(pool: Pubkey)
    ensures
        (PoolInfo::Spl { pool }).spl_pool() == Some(pool),
        (PoolInfo::SanctumSpl { pool }).spl_pool() == Some(pool),
        (PoolInfo::SanctumSplMulti { pool }).spl_pool() == Some(pool),
        PoolInfo::Lido.spl_pool() is None,
        PoolInfo::Marinade.spl_pool() is None,
        PoolInfo::ReservePool.spl_pool() is None,
        PoolInfo::SPool.spl_pool() is None,
{
}

/// One more SPL token on the list has its pool, whatever was listed before, and leaves the
/// pools of all other mints as they were.
pub proof fn law_listed_spl_token_has_its_pool(lsts: Seq<SanctumLst>, mint: Pubkey, pool: Pubkey)
    ensures
        ({
            let spl = spl_pools(lsts.push(SanctumLst { mint, pool: PoolInfo::Spl { pool } }));
            let sanctum_spl = spl_pools(
                lsts.push(SanctumLst { mint, pool: PoolInfo::SanctumSpl { pool } }),
            );
            let sanctum_spl_multi = spl_pools(
                lsts.push(SanctumLst { mint, pool: PoolInfo::SanctumSplMulti { pool } }),
            );
            &&& spl.contains_pair(mint, pool)
            &&& spl == sanctum_spl
            &&& spl == sanctum_spl_multi
            &&& spl.remove(mint) == spl_pools(lsts).remove(mint)
        }),
{
    let spl = lsts.push(SanctumLst { mint, pool: PoolInfo::Spl { pool } });
    let sanctum_spl = lsts.push(SanctumLst { mint, pool: PoolInfo::SanctumSpl { pool } });
    let sanctum_spl_multi = lsts.push(
        SanctumLst { mint, pool: PoolInfo::SanctumSplMulti { pool } },
    );
    assert(spl.drop_last() =~= lsts);
    assert(sanctum_spl.drop_last() =~= lsts);
    assert(sanctum_spl_multi.drop_last() =~= lsts);
    assert(spl_pools(spl).remove(mint) =~= spl_pools(lsts).remove(mint));
}

/// A token of another kind makes no difference, wherever on the list it stands.
pub proof fn law_other_tokens_make_no_difference(
    before: Seq<SanctumLst>,
    other: SanctumLst,
    after: Seq<SanctumLst>,
)
    requires
        other.pool is Lido || other.pool is Marinade || other.pool is ReservePool || other.pool
            is SPool,
    ensures
        spl_pools(before.push(other) + after) == spl_pools(before + after),
    decreases after.len(),
{
    if after.len() == 0 {
        assert((before.push(other) + after).drop_last() =~= before);
        assert((before.push(other) + after).last() == other);
        assert(before + after =~= before);
    } else {
        law_other_tokens_make_no_difference(before, other, after.drop_last());
        assert((before.push(other) + after).drop_last() =~= before.push(other)
            + after.drop_last());
        assert((before + after).drop_last() =~= before + after.drop_last());
    }
}

/// Without a list there are no pools.
pub proof fn law_empty_list_has_no_pools()
    ensures
        spl_pools(Seq::empty()) == Map::<Pubkey, Pubkey>::empty(),
{
}

/// Entries with no mint twice stand for the map that holds each of them, and nothing else.
pub proof fn law_entries_are_what_the_map_holds(
    entries: Seq<(Pubkey, Pubkey)>,
    mint: Pubkey,
    pool: Pubkey,
)
    requires
        forall|i: int, j: int|
            0 <= i < j < entries.len() ==> (#[trigger] entries[i]).0 != (#[trigger] entries[j]).0,
    ensures
        distinct_mints(entries),
        entries_map(entries).contains_pair(mint, pool) <==> entries.contains((mint, pool)),
{
    lemma_entries_map(entries);
    if entries_map(entries).contains_pair(mint, pool) {
        let i = choose|i: int| 0 <= i < entries.len() && (#[trigger] entries[i]).0 == mint;
        assert(entries_map(entries).contains_pair(entries[i].0, entries[i].1));
        assert(entries[i] == (mint, pool));
    }
    if entries.contains((mint, pool)) {
        let i = entries.index_of((mint, pool));
        assert(entries_map(entries).contains_pair(entries[i].0, entries[i].1));
    }
}

} // verus!
