//! What the setup does to the pool, and what the updates after it find there.
//!
//! As for an update, the pool is any that does what it is told: its work at the setup is
//! a function from its state and the step of the setup to its next state and its reply.

use vstd::prelude::*;

#[allow(unused_imports)]
use crate::calc::SvcKind;
#[allow(unused_imports)]
use crate::init::{InitReply, InitState, InitStep};
#[allow(unused_imports)]
use crate::pool_laws::{
    answers, can_be_set_up, driven, epochs_are_zero, law_update_keeps_the_calculators_epochs_zero,
    replies_kind, sets_epochs_only_by_clock,
};
#[allow(unused_imports)]
use crate::pubkey::Pubkey;
#[allow(unused_imports)]
use crate::update::{UpdateErr, UpdateReply, UpdateState, UpdateStep};

verus! {

/// The pool and the setup after `n` steps of a setup that begins with `start`. Nothing
/// happens after the end. `blank` stands for the pool before it is made.
pub open spec fn set_up<P, E>(
    work: spec_fn(P, InitState<E>) -> (P, InitReply<E>),
    blank: P,
    start: InitState<E>,
    n: nat,
) -> (P, InitState<E>)
    decreases n,
{
    if n == 0 {
        (blank, start)
    } else {
        let (pool, state) = set_up(work, blank, start, (n - 1) as nat);
        if state.step is Finished {
            (pool, state)
        } else {
            let (pool, reply) = work(pool, state);
            (pool, state.after(reply))
        }
    }
}

/// Every reply of the pool answers the step that it was given.
pub open spec fn answers_setup<P, E>(
    work: spec_fn(P, InitState<E>) -> (P, InitReply<E>),
) -> bool {
    forall|pool: P, state: InitState<E>|
        !(state.step is Finished) ==> state.expects((#[trigger] work(pool, state)).1)
}

/// The calculator of `mint` on the LST state list `list` can be set up: it is never
/// replied that its stake pool is not known, the pool knows its accounts (`knows`) once it
/// is found or set up, and it goes on knowing them.
pub open spec fn gets_set_up<P, E>(
    work: spec_fn(P, InitState<E>) -> (P, InitReply<E>),
    knows: spec_fn(P, Pubkey) -> bool,
    list: Seq<Pubkey>,
    mint: Pubkey,
) -> bool {
    forall|pool: P, state: InitState<E>|
        {
            let (after, reply) = #[trigger] work(pool, state);
            state.step matches InitStep::GetOrInitCalc { lst } ==> {
                &&& list[lst as int] == mint ==> !(reply is MissingSplData) && (reply is Done
                    ==> knows(after, mint))
                &&& knows(pool, mint) ==> knows(after, mint)
            }
        }
}

/// How many LSTs of the list have had their calculator looked up.
pub open spec fn looked_up_at_setup<E>(state: InitState<E>) -> int {
    match state.step {
        InitStep::GetOrInitCalc { lst } => lst as int,
        InitStep::Finished(Ok(_)) => state.lsts,
        _ => 0,
    }
}

/// The pool knows the accounts of an LST that can be set up as soon as its calculator was
/// looked up.
proof fn lemma_set_up_knows<P, E>(
    work: spec_fn(P, InitState<E>) -> (P, InitReply<E>),
    knows: spec_fn(P, Pubkey) -> bool,
    list: Seq<Pubkey>,
    blank: P,
    start: InitState<E>,
    n: nat,
    mint: Pubkey,
)
    requires
        answers_setup(work),
        gets_set_up(work, knows, list, mint),
        start.step is NewPool,
        start.wf(),
    ensures
        ({
            let (pool, state) = set_up(work, blank, start, n);
            &&& state.wf()
            &&& forall|i: int|
                0 <= i < looked_up_at_setup(state) && #[trigger] list[i] == mint ==> knows(
                    pool,
                    mint,
                )
        }),
    decreases n,
{
    if n > 0 {
        lemma_set_up_knows(work, knows, list, blank, start, (n - 1) as nat, mint);
    }
}

/// After a setup that succeeds, the pool knows the accounts of every LST on the list whose
/// calculator can be set up, so that the accounts to fetch for the first update hold them.
pub proof fn law_finished_setup_has_set_up_the_calculators<P, E>(
    work: spec_fn(P, InitState<E>) -> (P, InitReply<E>),
    knows: spec_fn(P, Pubkey) -> bool,
    list: Seq<Pubkey>,
    blank: P,
    start: InitState<E>,
    n: nat,
    mint: Pubkey,
)
    requires
        answers_setup(work),
        gets_set_up(work, knows, list, mint),
        start.step is NewPool,
        start.wf(),
        set_up(work, blank, start, n).1.step == InitStep::<E>::Finished(Ok(())),
        set_up(work, blank, start, n).1.lsts == list.len(),
        list.contains(mint),
    ensures
        knows(set_up(work, blank, start, n).0, mint),
{
    lemma_set_up_knows(work, knows, list, blank, start, n, mint);
}

/// An update never makes the pool lose the accounts of an LST that can be set up.
proof fn lemma_driven_still_knows<P, A, E>(
    work: spec_fn(P, UpdateState<E>, Map<Pubkey, A>) -> (P, UpdateReply<E>),
    knows: spec_fn(P, Pubkey) -> bool,
    lst_state_list_id: Pubkey,
    pool: P,
    fetched: Map<Pubkey, A>,
    n: nat,
    mint: Pubkey,
)
    requires
        answers(work),
        can_be_set_up(work, knows, mint),
        knows(pool, mint),
    ensures
        knows(driven(work, lst_state_list_id, pool, fetched, n).0, mint),
    decreases n,
{
    if n > 0 {
        lemma_driven_still_knows(
            work,
            knows,
            lst_state_list_id,
            pool,
            fetched,
            (n - 1) as nat,
            mint,
        );
    }
}

/// The pool fails for want of a calculator only where it does not know one of those that
/// it ought to. `missing` tells the errors that say so, and `due` is the LSTs that ought to
/// have their calculator.
pub open spec fn misses_only_unknown<P, A, E>(
    work: spec_fn(P, UpdateState<E>, Map<Pubkey, A>) -> (P, UpdateReply<E>),
    knows: spec_fn(P, Pubkey) -> bool,
    missing: spec_fn(E) -> bool,
    due: Set<Pubkey>,
) -> bool {
    forall|pool: P, state: UpdateState<E>, fetched: Map<Pubkey, A>|
        {
            let reply = (#[trigger] work(pool, state, fetched)).1;
            reply matches UpdateReply::Failed(e) ==> missing(e) ==> exists|mint: Pubkey|
                #[trigger]
                due.contains(mint) && !knows(pool, mint)
        }
}

/// The first update after a setup that succeeds does not fail for want of a calculator, if
/// those that the LSTs `due` on the list ought to have can be set up.
pub proof fn law_first_update_misses_no_calculator<P, A, E>(
    setup_work: spec_fn(P, InitState<E>) -> (P, InitReply<E>),
    work: spec_fn(P, UpdateState<E>, Map<Pubkey, A>) -> (P, UpdateReply<E>),
    knows: spec_fn(P, Pubkey) -> bool,
    missing: spec_fn(E) -> bool,
    list: Seq<Pubkey>,
    due: Set<Pubkey>,
    blank: P,
    start: InitState<E>,
    setup_steps: nat,
    lst_state_list_id: Pubkey,
    fetched: Map<Pubkey, A>,
    n: nat,
)
    requires
        answers_setup(setup_work),
        answers(work),
        forall|mint: Pubkey| #[trigger]
            due.contains(mint) ==> list.contains(mint) && gets_set_up(setup_work, knows, list, mint)
                && can_be_set_up(work, knows, mint),
        misses_only_unknown(work, knows, missing, due),
        start.step is NewPool,
        start.wf(),
        set_up(setup_work, blank, start, setup_steps).1.step == InitStep::<E>::Finished(Ok(())),
        set_up(setup_work, blank, start, setup_steps).1.lsts == list.len(),
    ensures
        ({
            let pool = set_up(setup_work, blank, start, setup_steps).0;
            driven(work, lst_state_list_id, pool, fetched, n).1.step matches UpdateStep::Finished(
                Err(UpdateErr::Inner(e)),
            ) ==> !missing(e)
        }),
    decreases n,
{
    if n > 0 {
        let m = (n - 1) as nat;
        law_first_update_misses_no_calculator(
            setup_work,
            work,
            knows,
            missing,
            list,
            due,
            blank,
            start,
            setup_steps,
            lst_state_list_id,
            fetched,
            m,
        );
        let pool = set_up(setup_work, blank, start, setup_steps).0;
        let before = driven(work, lst_state_list_id, pool, fetched, m).0;
        assert forall|mint: Pubkey| due.contains(mint) implies knows(before, mint) by {
            law_finished_setup_has_set_up_the_calculators(
                setup_work,
                knows,
                list,
                blank,
                start,
                setup_steps,
                mint,
            );
            lemma_driven_still_knows(work, knows, lst_state_list_id, pool, fetched, m, mint);
        }
    }
}

/// The setup reads no clock: every step of it leaves the epochs that the calculators keep
/// at 0.
pub open spec fn sets_up_with_epoch_zero<P, E>(
    work: spec_fn(P, InitState<E>) -> (P, InitReply<E>),
    epoch_of: spec_fn(P, Pubkey) -> Option<u64>,
) -> bool {
    forall|pool: P, state: InitState<E>|
        epochs_are_zero(epoch_of, pool) ==> epochs_are_zero(
            epoch_of,
            (#[trigger] work(pool, state)).0,
        )
}

/// The pool after a number of updates. Each has accounts of its own, and each goes as far
/// as its number of steps says.
pub open spec fn updated<P, A, E>(
    work: spec_fn(P, UpdateState<E>, Map<Pubkey, A>) -> (P, UpdateReply<E>),
    lst_state_list_id: Pubkey,
    pool: P,
    updates: Seq<(Map<Pubkey, A>, nat)>,
) -> P
    decreases updates.len(),
{
    if updates.len() == 0 {
        pool
    } else {
        let before = updated(work, lst_state_list_id, pool, updates.drop_last());
        driven(work, lst_state_list_id, before, updates.last().0, updates.last().1).0
    }
}

/// The setup leaves the epochs that the calculators keep at 0.
proof fn lemma_set_up_with_epoch_zero<P, E>(
    work: spec_fn(P, InitState<E>) -> (P, InitReply<E>),
    epoch_of: spec_fn(P, Pubkey) -> Option<u64>,
    blank: P,
    start: InitState<E>,
    n: nat,
)
    requires
        sets_up_with_epoch_zero(work, epoch_of),
        epochs_are_zero(epoch_of, blank),
    ensures
        epochs_are_zero(epoch_of, set_up(work, blank, start, n).0),
    decreases n,
{
    if n > 0 {
        lemma_set_up_with_epoch_zero(work, epoch_of, blank, start, (n - 1) as nat);
    }
}

/// The epochs that the calculators keep are 0 after the setup and after any number of
/// updates, whatever came of them and whatever the clock said.
pub proof fn law_calculators_epochs_stay_zero<P, A, E>(
    setup_work: spec_fn(P, InitState<E>) -> (P, InitReply<E>),
    work: spec_fn(P, UpdateState<E>, Map<Pubkey, A>) -> (P, UpdateReply<E>),
    kind: spec_fn(P, usize) -> SvcKind,
    epoch_of: spec_fn(P, Pubkey) -> Option<u64>,
    blank: P,
    start: InitState<E>,
    setup_steps: nat,
    lst_state_list_id: Pubkey,
    updates: Seq<(Map<Pubkey, A>, nat)>,
)
    requires
        sets_up_with_epoch_zero(setup_work, epoch_of),
        epochs_are_zero(epoch_of, blank),
        answers(work),
        replies_kind(work, kind),
        sets_epochs_only_by_clock(work, kind, epoch_of),
    ensures
        epochs_are_zero(
            epoch_of,
            updated(
                work,
                lst_state_list_id,
                set_up(setup_work, blank, start, setup_steps).0,
                updates,
            ),
        ),
    decreases updates.len(),
{
    let pool = set_up(setup_work, blank, start, setup_steps).0;
    if updates.len() == 0 {
        lemma_set_up_with_epoch_zero(setup_work, epoch_of, blank, start, setup_steps);
    } else {
        law_calculators_epochs_stay_zero(
            setup_work,
            work,
            kind,
            epoch_of,
            blank,
            start,
            setup_steps,
            lst_state_list_id,
            updates.drop_last(),
        );
        law_update_keeps_the_calculators_epochs_zero(
            work,
            kind,
            epoch_of,
            lst_state_list_id,
            updated(work, lst_state_list_id, pool, updates.drop_last()),
            updates.last().0,
            updates.last().1,
        );
    }
}

} // verus!
