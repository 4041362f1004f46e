//! What an update does to the pool.
//!
//! The pool is any that does what it is told: its work is a function from its state,
//! the step of the update and the fetched accounts to its next state and its reply.
//! `P` is the state of a pool, `A` the contents of an account.

use vstd::prelude::*;

#[allow(unused_imports)]
use crate::calc::SvcKind;
#[allow(unused_imports)]
use crate::pubkey::Pubkey;
#[allow(unused_imports)]
use crate::update::{UpdateReply, UpdateState, UpdateStep};
#[allow(unused_imports)]
use crate::update_laws::replies_needed;

verus! {

/// The pool and the update after `n` steps of an update with the accounts `fetched`.
/// Nothing happens after the end.
pub open spec fn driven<P, A, E>(
    work: spec_fn(P, UpdateState<E>, Map<Pubkey, A>) -> (P, UpdateReply<E>),
    lst_state_list_id: Pubkey,
    pool: P,
    fetched: Map<Pubkey, A>,
    n: nat,
) -> (P, UpdateState<E>)
    decreases n,
{
    if n == 0 {
        (pool, UpdateState::<E>::start(lst_state_list_id))
    } else {
        let (pool, state) = driven(work, lst_state_list_id, pool, fetched, (n - 1) as nat);
        if state.step is Finished {
            (pool, state)
        } else {
            let (pool, reply) = work(pool, state, fetched);
            (pool, state.after(reply))
        }
    }
}

/// Every reply of the pool answers the step that it was given.
pub open spec fn answers<P, A, E>(
    work: spec_fn(P, UpdateState<E>, Map<Pubkey, A>) -> (P, UpdateReply<E>),
) -> bool {
    forall|pool: P, state: UpdateState<E>, fetched: Map<Pubkey, A>|
        !(state.step is Finished) ==> state.expects((#[trigger] work(pool, state, fetched)).1)
}

/// Whether a step updates a calculator that is affected by the clock, and does not leave
/// the clock out. `kind` tells the kind of an LST's calculator.
pub open spec fn uses_clock<P, E>(
    kind: spec_fn(P, usize) -> SvcKind,
    pool: P,
    step: UpdateStep<E>,
) -> bool {
    step matches UpdateStep::UpdateCalc { lst, omit_clock } && !omit_clock && kind(
        pool,
        lst,
    ).is_clock_affected()
}

/// The pool reads the clock account in no step but those that use the clock: other steps
/// do the same work on accounts that differ in the clock alone.
pub open spec fn reads_clock_only_where_used<P, A, E>(
    work: spec_fn(P, UpdateState<E>, Map<Pubkey, A>) -> (P, UpdateReply<E>),
    kind: spec_fn(P, usize) -> SvcKind,
    sysvar_clock: Pubkey,
) -> bool {
    forall|pool: P, state: UpdateState<E>, fetched: Map<Pubkey, A>, other: Map<Pubkey, A>|
        fetched.remove(sysvar_clock) == other.remove(sysvar_clock) && !uses_clock(
            kind,
            pool,
            state.step,
        ) ==> #[trigger] work(pool, state, fetched) == #[trigger] work(pool, state, other)
}

/// The kind that the pool replies for a calculator is the kind that it then has.
pub open spec fn replies_kind<P, A, E>(
    work: spec_fn(P, UpdateState<E>, Map<Pubkey, A>) -> (P, UpdateReply<E>),
    kind: spec_fn(P, usize) -> SvcKind,
) -> bool {
    forall|pool: P, state: UpdateState<E>, fetched: Map<Pubkey, A>|
        {
            let (after, reply) = #[trigger] work(pool, state, fetched);
            state.step matches UpdateStep::GetOrInitCalc { lst } ==> (reply
                matches UpdateReply::Calc(k) ==> kind(after, lst) == k)
        }
}

/// No step of an update uses the clock.
proof fn lemma_driven_does_not_use_clock<P, A, E>(
    work: spec_fn(P, UpdateState<E>, Map<Pubkey, A>) -> (P, UpdateReply<E>),
    kind: spec_fn(P, usize) -> SvcKind,
    lst_state_list_id: Pubkey,
    pool: P,
    fetched: Map<Pubkey, A>,
    n: nat,
)
    requires
        answers(work),
        replies_kind(work, kind),
    ensures
        ({
            let (pool, state) = driven(work, lst_state_list_id, pool, fetched, n);
            !uses_clock(kind, pool, state.step)
        }),
    decreases n,
{
    if n > 0 {
        let (before, state) = driven(work, lst_state_list_id, pool, fetched, (n - 1) as nat);
        if !(state.step is Finished) {
            let (after, reply) = work(before, state, fetched);
            assert(state.expects(reply));
            if let UpdateReply::Calc(k) = reply {
                let lst = state.step->GetOrInitCalc_lst;
                assert(kind(after, lst) == k);
            }
        }
    }
}

/// An update neither needs nor uses the clock account: with accounts that differ in the
/// clock alone, which may be missing or hold anything, it goes the same way, ends with
/// the same result and leaves the same pool.
pub proof fn law_update_does_not_depend_on_the_clock<P, A, E>(
    work: spec_fn(P, UpdateState<E>, Map<Pubkey, A>) -> (P, UpdateReply<E>),
    kind: spec_fn(P, usize) -> SvcKind,
    sysvar_clock: Pubkey,
    lst_state_list_id: Pubkey,
    pool: P,
    fetched: Map<Pubkey, A>,
    other: Map<Pubkey, A>,
    n: nat,
)
    requires
        answers(work),
        replies_kind(work, kind),
        reads_clock_only_where_used(work, kind, sysvar_clock),
        fetched.remove(sysvar_clock) == other.remove(sysvar_clock),
    ensures
        driven(work, lst_state_list_id, pool, fetched, n) == driven(
            work,
            lst_state_list_id,
            pool,
            other,
            n,
        ),
    decreases n,
{
    if n > 0 {
        let m = (n - 1) as nat;
        law_update_does_not_depend_on_the_clock(
            work,
            kind,
            sysvar_clock,
            lst_state_list_id,
            pool,
            fetched,
            other,
            m,
        );
        lemma_driven_does_not_use_clock(work, kind, lst_state_list_id, pool, fetched, m);
        let (before, state) = driven(work, lst_state_list_id, pool, fetched, m);
        assert(work(before, state, fetched) == work(before, state, other));
    }
}

/// The calculator of `mint` can be set up, and stays: it is never replied that its stake
/// pool is not known, the pool knows its accounts (`knows`) once it is found or set up,
/// and nothing but to forget it makes the pool lose them.
pub open spec fn can_be_set_up<P, A, E>(
    work: spec_fn(P, UpdateState<E>, Map<Pubkey, A>) -> (P, UpdateReply<E>),
    knows: spec_fn(P, Pubkey) -> bool,
    mint: Pubkey,
) -> bool {
    forall|pool: P, state: UpdateState<E>, fetched: Map<Pubkey, A>|
        {
            let (after, reply) = #[trigger] work(pool, state, fetched);
            &&& (state.step matches UpdateStep::GetOrInitCalc { lst } && state.mints[lst as int]
                == mint) ==> !(reply is MissingSplData) && (reply is Calc ==> knows(after, mint))
            &&& (knows(pool, mint) && !(state.step matches UpdateStep::RemoveCalc { lst }
                && state.mints[lst as int] == mint)) ==> knows(after, mint)
        }
}

/// How many LSTs of the list have had their calculator looked up.
pub open spec fn looked_up<E>(state: UpdateState<E>) -> int {
    match state.step {
        UpdateStep::UpdateReserves { lst } => lst as int,
        UpdateStep::GetOrInitCalc { lst } => lst as int,
        UpdateStep::RemoveCalc { lst } => lst + 1,
        UpdateStep::UpdateCalc { lst, .. } => lst + 1,
        UpdateStep::Finished(Ok(_)) => state.mints.len() as int,
        _ => 0,
    }
}

/// The pool knows the accounts of an LST that can be set up as soon as its calculator was
/// looked up, and it is not told to forget it.
proof fn lemma_driven_knows<P, A, E>(
    work: spec_fn(P, UpdateState<E>, Map<Pubkey, A>) -> (P, UpdateReply<E>),
    knows: spec_fn(P, Pubkey) -> bool,
    lst_state_list_id: Pubkey,
    pool: P,
    fetched: Map<Pubkey, A>,
    n: nat,
    mint: Pubkey,
)
    requires
        answers(work),
        can_be_set_up(work, knows, mint),
    ensures
        ({
            let (pool, state) = driven(work, lst_state_list_id, pool, fetched, n);
            &&& state.wf()
            &&& state.mints.len() <= usize::MAX
            &&& state.step matches UpdateStep::RemoveCalc { lst } ==> state.mints[lst as int]
                != mint
            &&& forall|i: int|
                0 <= i < looked_up(state) && #[trigger] state.mints[i] == mint ==> knows(
                    pool,
                    mint,
                )
        }),
    decreases n,
{
    if n > 0 {
        lemma_driven_knows(
            work,
            knows,
            lst_state_list_id,
            pool,
            fetched,
            (n - 1) as nat,
            mint,
        );
        let (before, state) = driven(work, lst_state_list_id, pool, fetched, (n - 1) as nat);
        if !(state.step is Finished) {
            let (after, reply) = work(before, state, fetched);
            assert(state.expects(reply));
            if let UpdateReply::LstStates(Some(mints)) = reply {
                assert(mints@.len() == mints.len());
            }
            let next = state.after(reply);
            assert forall|i: int|
                0 <= i < looked_up(next) && #[trigger] next.mints[i] == mint implies knows(
                after,
                mint,
            ) by {
                if i < looked_up(state) {
                    assert(state.mints[i] == mint);
                }
            }
        }
    }
}

/// After an update that succeeds, the pool knows the accounts of every LST on the list
/// whose calculator can be set up, so that the next accounts to fetch hold them.
pub proof fn law_finished_update_has_set_up_the_calculators<P, A, E>(
    work: spec_fn(P, UpdateState<E>, Map<Pubkey, A>) -> (P, UpdateReply<E>),
    knows: spec_fn(P, Pubkey) -> bool,
    lst_state_list_id: Pubkey,
    pool: P,
    fetched: Map<Pubkey, A>,
    n: nat,
    mint: Pubkey,
)
    requires
        answers(work),
        can_be_set_up(work, knows, mint),
        driven(work, lst_state_list_id, pool, fetched, n).1.step == UpdateStep::<E>::Finished(
            Ok(()),
        ),
        driven(work, lst_state_list_id, pool, fetched, n).1.mints.contains(mint),
    ensures
        knows(driven(work, lst_state_list_id, pool, fetched, n).0, mint),
{
    lemma_driven_knows(work, knows, lst_state_list_id, pool, fetched, n, mint);
    let state = driven(work, lst_state_list_id, pool, fetched, n).1;
    let i = state.mints.index_of(mint);
    assert(state.mints[i] == mint);
}

/// The calculators that keep an epoch of their own all keep epoch 0.
pub open spec fn epochs_are_zero<P>(
    epoch_of: spec_fn(P, Pubkey) -> Option<u64>,
    pool: P,
) -> bool {
    forall|mint: Pubkey| (#[trigger] epoch_of(pool, mint)) matches Some(epoch) ==> epoch == 0
}

/// The epochs that the calculators keep come from the clock alone: a step that does not
/// use it leaves them at 0.
pub open spec fn sets_epochs_only_by_clock<P, A, E>(
    work: spec_fn(P, UpdateState<E>, Map<Pubkey, A>) -> (P, UpdateReply<E>),
    kind: spec_fn(P, usize) -> SvcKind,
    epoch_of: spec_fn(P, Pubkey) -> Option<u64>,
) -> bool {
    forall|pool: P, state: UpdateState<E>, fetched: Map<Pubkey, A>|
        {
            let after = (#[trigger] work(pool, state, fetched)).0;
            !uses_clock(kind, pool, state.step) && epochs_are_zero(epoch_of, pool)
                ==> epochs_are_zero(epoch_of, after)
        }
}

/// An update leaves the epochs that the calculators keep at 0, whatever the clock says:
/// the current epoch is the router's alone.
pub proof fn law_update_keeps_the_calculators_epochs_zero<P, A, E>(
    work: spec_fn(P, UpdateState<E>, Map<Pubkey, A>) -> (P, UpdateReply<E>),
    kind: spec_fn(P, usize) -> SvcKind,
    epoch_of: spec_fn(P, Pubkey) -> Option<u64>,
    lst_state_list_id: Pubkey,
    pool: P,
    fetched: Map<Pubkey, A>,
    n: nat,
)
    requires
        answers(work),
        replies_kind(work, kind),
        sets_epochs_only_by_clock(work, kind, epoch_of),
        epochs_are_zero(epoch_of, pool),
    ensures
        epochs_are_zero(epoch_of, driven(work, lst_state_list_id, pool, fetched, n).0),
    decreases n,
{
    if n > 0 {
        law_update_keeps_the_calculators_epochs_zero(
            work,
            kind,
            epoch_of,
            lst_state_list_id,
            pool,
            fetched,
            (n - 1) as nat,
        );
    }
}

/// Where a calculator is to be forgotten, the pool has no data of its stake pool.
pub open spec fn forgets_only_missing<P, A, E>(
    settled: spec_fn(P, UpdateState<E>, Map<Pubkey, A>, UpdateReply<E>) -> bool,
    pool: P,
    state: UpdateState<E>,
    fetched: Map<Pubkey, A>,
) -> bool {
    state.step matches UpdateStep::RemoveCalc { lst } ==> settled(
        pool,
        (UpdateState { step: UpdateStep::GetOrInitCalc { lst }, ..state }),
        fetched,
        UpdateReply::MissingSplData,
    )
}

/// What a step that succeeds sets, it sets for good as long as the accounts stay the same:
/// `settled` says that a pool holds what the step in a state makes of the accounts, and
/// which reply it gave. That is so once the step did not fail, it is left alone by the
/// steps that come later in an update, and to do the step again changes nothing and gives
/// the same reply. A calculator is forgotten only where its stake pool is not known.
pub open spec fn is_settled_by_its_steps<P, A, E>(
    work: spec_fn(P, UpdateState<E>, Map<Pubkey, A>) -> (P, UpdateReply<E>),
    settled: spec_fn(P, UpdateState<E>, Map<Pubkey, A>, UpdateReply<E>) -> bool,
) -> bool {
    &&& forall|pool: P, state: UpdateState<E>, fetched: Map<Pubkey, A>|
        {
            let (after, reply) = #[trigger] work(pool, state, fetched);
            !(reply is Failed) && forgets_only_missing(settled, pool, state, fetched) ==> settled(
                after,
                state,
                fetched,
                reply,
            )
        }
    &&& forall|
        pool: P,
        state: UpdateState<E>,
        fetched: Map<Pubkey, A>,
        reply: UpdateReply<E>,
        later: UpdateState<E>,
    |
        #[trigger] settled(pool, state, fetched, reply) && replies_needed(state) < replies_needed(
            later,
        ) && forgets_only_missing(settled, pool, later, fetched) ==> settled(
            (#[trigger] work(pool, later, fetched)).0,
            state,
            fetched,
            reply,
        )
    &&& forall|pool: P, state: UpdateState<E>, fetched: Map<Pubkey, A>, reply: UpdateReply<E>|
        #[trigger] settled(pool, state, fetched, reply) ==> work(pool, state, fetched) == (
            pool,
            reply,
        )
}

/// As long as an update is not over, each of its states is reached after as many steps as
/// it takes.
proof fn lemma_driven_steps<P, A, E>(
    work: spec_fn(P, UpdateState<E>, Map<Pubkey, A>) -> (P, UpdateReply<E>),
    lst_state_list_id: Pubkey,
    pool: P,
    fetched: Map<Pubkey, A>,
    n: nat,
)
    requires
        answers(work),
    ensures
        ({
            let state = driven(work, lst_state_list_id, pool, fetched, n).1;
            &&& state.wf()
            &&& state.mints.len() <= usize::MAX
            &&& !(state.step is Finished) ==> replies_needed(state) == n
        }),
    decreases n,
{
    if n > 0 {
        let m = (n - 1) as nat;
        lemma_driven_steps(work, lst_state_list_id, pool, fetched, m);
        let (before, state) = driven(work, lst_state_list_id, pool, fetched, m);
        if let UpdateReply::LstStates(Some(mints)) = work(before, state, fetched).1 {
            assert(mints@.len() == mints.len());
        }
    }
}

/// In an update that succeeds, what step `j` set is still there after `n` steps.
proof fn lemma_driven_is_settled<P, A, E>(
    work: spec_fn(P, UpdateState<E>, Map<Pubkey, A>) -> (P, UpdateReply<E>),
    settled: spec_fn(P, UpdateState<E>, Map<Pubkey, A>, UpdateReply<E>) -> bool,
    lst_state_list_id: Pubkey,
    pool: P,
    fetched: Map<Pubkey, A>,
    j: nat,
    n: nat,
)
    requires
        answers(work),
        is_settled_by_its_steps(work, settled),
        j < n,
        !(driven(work, lst_state_list_id, pool, fetched, j).1.step is Finished),
        !(driven(work, lst_state_list_id, pool, fetched, n).1.step matches UpdateStep::Finished(
            Err(_),
        )),
    ensures
        ({
            let (at, state) = driven(work, lst_state_list_id, pool, fetched, j);
            settled(
                driven(work, lst_state_list_id, pool, fetched, n).0,
                state,
                fetched,
                work(at, state, fetched).1,
            )
        }),
    decreases n,
{
    let m = (n - 1) as nat;
    let (before, later) = driven(work, lst_state_list_id, pool, fetched, m);
    assert(forgets_only_missing(settled, before, later, fetched));
    if j < m {
        lemma_driven_is_settled(work, settled, lst_state_list_id, pool, fetched, j, m);
        lemma_driven_steps(work, lst_state_list_id, pool, fetched, j);
        lemma_driven_steps(work, lst_state_list_id, pool, fetched, m);
    }
}

/// The second of two updates with the same accounts goes through the states of the first,
/// and the pool stays as the first has left it.
proof fn lemma_driven_again<P, A, E>(
    work: spec_fn(P, UpdateState<E>, Map<Pubkey, A>) -> (P, UpdateReply<E>),
    settled: spec_fn(P, UpdateState<E>, Map<Pubkey, A>, UpdateReply<E>) -> bool,
    lst_state_list_id: Pubkey,
    pool: P,
    fetched: Map<Pubkey, A>,
    n: nat,
    k: nat,
)
    requires
        answers(work),
        is_settled_by_its_steps(work, settled),
        driven(work, lst_state_list_id, pool, fetched, n).1.step == UpdateStep::<E>::Finished(
            Ok(()),
        ),
        k <= n,
    ensures
        ({
            let left = driven(work, lst_state_list_id, pool, fetched, n).0;
            driven(work, lst_state_list_id, left, fetched, k) == (
                left,
                driven(work, lst_state_list_id, pool, fetched, k).1,
            )
        }),
    decreases k,
{
    if k > 0 {
        let j = (k - 1) as nat;
        lemma_driven_again(work, settled, lst_state_list_id, pool, fetched, n, j);
        if !(driven(work, lst_state_list_id, pool, fetched, j).1.step is Finished) {
            lemma_driven_is_settled(work, settled, lst_state_list_id, pool, fetched, j, n);
        }
    }
}

/// After an update that succeeds, a second one with the same accounts succeeds too, and
/// leaves the pool as it is.
pub proof fn law_second_update_leaves_the_same_pool<P, A, E>(
    work: spec_fn(P, UpdateState<E>, Map<Pubkey, A>) -> (P, UpdateReply<E>),
    settled: spec_fn(P, UpdateState<E>, Map<Pubkey, A>, UpdateReply<E>) -> bool,
    lst_state_list_id: Pubkey,
    pool: P,
    fetched: Map<Pubkey, A>,
    n: nat,
)
    requires
        answers(work),
        is_settled_by_its_steps(work, settled),
        driven(work, lst_state_list_id, pool, fetched, n).1.step == UpdateStep::<E>::Finished(
            Ok(()),
        ),
    ensures
        ({
            let first = driven(work, lst_state_list_id, pool, fetched, n);
            driven(work, lst_state_list_id, first.0, fetched, n) == first
        }),
{
    lemma_driven_again(work, settled, lst_state_list_id, pool, fetched, n, n);
}

} // verus!
