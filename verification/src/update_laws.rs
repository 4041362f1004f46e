//! What holds of every update, whatever the replies are.

use vstd::prelude::*;

#[allow(unused_imports)]
use crate::calc::SvcKind;
#[allow(unused_imports)]
use crate::pubkey::Pubkey;
#[allow(unused_imports)]
use crate::update::{UpdateErr, UpdateReply, UpdateState, UpdateStep};

verus! {

/// `states` is what an update goes through on `replies`, each of which answers the
/// step that it is given to.
pub open spec fn is_update_run<E>(
    lst_state_list_id: Pubkey,
    states: Seq<UpdateState<E>>,
    replies: Seq<UpdateReply<E>>,
) -> bool {
    &&& states.len() == replies.len() + 1
    &&& states[0] == UpdateState::<E>::start(lst_state_list_id)
    &&& forall|i: int|
        0 <= i < replies.len() ==> states[i].expects(#[trigger] replies[i]) && states[i + 1]
            == states[i].after(replies[i])
}

/// How many replies it takes to get to a state in which nothing has failed: five
/// for the pool as a whole, and three for each LST.
pub open spec fn replies_needed<E>(state: UpdateState<E>) -> int {
    match state.step {
        UpdateStep::UpdatePool => 0,
        UpdateStep::UpdateLstStateList => 1,
        UpdateStep::UpdateLpTokenSupply => 2,
        UpdateStep::DecodeLstStateList => 3,
        UpdateStep::UpdatePricing => 4,
        UpdateStep::UpdateReserves { lst } => 5 + 3 * lst,
        UpdateStep::GetOrInitCalc { lst } => 6 + 3 * lst,
        UpdateStep::RemoveCalc { lst } => 7 + 3 * lst,
        UpdateStep::UpdateCalc { lst, .. } => 7 + 3 * lst,
        UpdateStep::Finished(_) => 5 + 3 * (state.mints.len() as int),
    }
}

/// The states of a run are well formed, and each is reached after as many replies
/// as it takes. Nothing follows the end.
proof fn lemma_run_state<E>(
    lst_state_list_id: Pubkey,
    states: Seq<UpdateState<E>>,
    replies: Seq<UpdateReply<E>>,
    k: int,
)
    requires
        is_update_run(lst_state_list_id, states, replies),
        0 <= k <= replies.len(),
    ensures
        states[k].wf(),
        states[k].mints.len() <= usize::MAX,
        states[k].lst_state_list_id == lst_state_list_id,
        states[k].step is Finished ==> k == replies.len(),
        !(states[k].step matches UpdateStep::Finished(Err(_))) ==> k == replies_needed(states[k]),
    decreases k,
{
    if k < replies.len() {
        assert(states[k].expects(replies[k]));
    }
    if k > 0 {
        lemma_run_state(lst_state_list_id, states, replies, k - 1);
        assert(states[k - 1].expects(replies[k - 1]));
        assert(states[k - 1 + 1] == states[k - 1].after(replies[k - 1]));
        if let UpdateReply::LstStates(Some(mints)) = replies[k - 1] {
            assert(mints@.len() == mints.len());
        }
    }
}

/// From the fifth state on, the list of a run is the decoded one.
proof fn lemma_run_mints<E>(
    lst_state_list_id: Pubkey,
    states: Seq<UpdateState<E>>,
    replies: Seq<UpdateReply<E>>,
    k: int,
)
    requires
        is_update_run(lst_state_list_id, states, replies),
        4 <= k <= replies.len(),
        !(states[4].step is Finished),
    ensures
        replies[3] matches UpdateReply::LstStates(Some(mints)) && states[k].mints == mints@,
    decreases k,
{
    lemma_run_state(lst_state_list_id, states, replies, 3);
    assert(states[3].expects(replies[3]));
    assert(states[3int + 1] == states[3].after(replies[3]));
    if k > 4 {
        lemma_run_mints(lst_state_list_id, states, replies, k - 1);
        lemma_run_state(lst_state_list_id, states, replies, k - 1);
        assert(states[k - 1].expects(replies[k - 1]));
        assert(states[k - 1 + 1] == states[k - 1].after(replies[k - 1]));
    }
}

/// An update goes by the replies alone: two updates of the same pool that get the same
/// replies go through the same states. No account has a say in it but through what is
/// replied.
pub proof fn law_update_is_determined_by_the_replies<E>(
    lst_state_list_id: Pubkey,
    replies: Seq<UpdateReply<E>>,
    states: Seq<UpdateState<E>>,
    others: Seq<UpdateState<E>>,
)
    requires
        is_update_run(lst_state_list_id, states, replies),
        is_update_run(lst_state_list_id, others, replies),
    ensures
        states == others,
{
    assert forall|k: int| 0 <= k < states.len() implies states[k] == others[k] by {
        lemma_same_state(lst_state_list_id, replies, states, others, k);
    }
    assert(states =~= others);
}

/// Two runs on the same replies agree on each state.
proof fn lemma_same_state<E>(
    lst_state_list_id: Pubkey,
    replies: Seq<UpdateReply<E>>,
    states: Seq<UpdateState<E>>,
    others: Seq<UpdateState<E>>,
    k: int,
)
    requires
        is_update_run(lst_state_list_id, states, replies),
        is_update_run(lst_state_list_id, others, replies),
        0 <= k <= replies.len(),
    ensures
        states[k] == others[k],
    decreases k,
{
    if k > 0 {
        lemma_same_state(lst_state_list_id, replies, states, others, k - 1);
        assert(states[k - 1 + 1] == states[k - 1].after(replies[k - 1]));
        assert(others[k - 1 + 1] == others[k - 1].after(replies[k - 1]));
    }
}

/// Every update comes to an end: it takes no more than five replies and three for
/// each LST on the list.
pub proof fn law_update_is_bounded<E>(
    lst_state_list_id: Pubkey,
    states: Seq<UpdateState<E>>,
    replies: Seq<UpdateReply<E>>,
)
    requires
        is_update_run(lst_state_list_id, states, replies),
    ensures
        replies.len() <= 5 + 3 * states.last().mints.len(),
{
    let n = replies.len() as int;
    lemma_run_state(lst_state_list_id, states, replies, n);
    if n > 0 {
        lemma_run_state(lst_state_list_id, states, replies, n - 1);
        assert(states[n - 1].expects(replies[n - 1]));
        assert(states[n - 1 + 1] == states[n - 1].after(replies[n - 1]));
    }
}

/// An update begins with the pool as a whole, always in the same order: the pool
/// state, the LST state list, the LP token supply, the decoding of the list, and
/// the pricing program.
pub proof fn law_update_begins_with_the_pool<E>(
    lst_state_list_id: Pubkey,
    states: Seq<UpdateState<E>>,
    replies: Seq<UpdateReply<E>>,
    k: int,
)
    requires
        is_update_run(lst_state_list_id, states, replies),
        0 <= k < 5,
        k < replies.len(),
    ensures
        states[k].step == seq![
            UpdateStep::<E>::UpdatePool,
            UpdateStep::UpdateLstStateList,
            UpdateStep::UpdateLpTokenSupply,
            UpdateStep::DecodeLstStateList,
            UpdateStep::UpdatePricing,
        ][k],
{
    lemma_run_state(lst_state_list_id, states, replies, k);
}

/// An update that succeeds has dealt with every LST of the decoded list, in the
/// order of the list: with its reserves first, then with its calculator. The
/// calculator was updated, without the clock exactly where its kind is affected
/// by it, or, where the stake pool is not known, forgotten.
pub proof fn law_finished_update_has_dealt_with_every_lst<E>(
    lst_state_list_id: Pubkey,
    states: Seq<UpdateState<E>>,
    replies: Seq<UpdateReply<E>>,
    lst: int,
)
    requires
        is_update_run(lst_state_list_id, states, replies),
        states.last().step == UpdateStep::<E>::Finished(Ok(())),
        0 <= lst < states.last().mints.len(),
    ensures
        replies[3] matches UpdateReply::LstStates(Some(mints)) && states.last().mints == mints@,
        replies.len() == 5 + 3 * states.last().mints.len(),
        states[5 + 3 * lst].step == (UpdateStep::<E>::UpdateReserves { lst: lst as usize }),
        states[6 + 3 * lst].step == (UpdateStep::<E>::GetOrInitCalc { lst: lst as usize }),
        match replies[6 + 3 * lst] {
            UpdateReply::Calc(kind) => states[7 + 3 * lst].step == (UpdateStep::<E>::UpdateCalc {
                lst: lst as usize,
                omit_clock: kind.is_clock_affected(),
            }),
            UpdateReply::MissingSplData => states[7 + 3 * lst].step == (
            UpdateStep::<E>::RemoveCalc { lst: lst as usize }),
            _ => false,
        },
{
    let n = replies.len() as int;
    lemma_run_state(lst_state_list_id, states, replies, n);
    lemma_run_state(lst_state_list_id, states, replies, 4);
    lemma_run_mints(lst_state_list_id, states, replies, n);
    lemma_run_state(lst_state_list_id, states, replies, 5 + 3 * lst);
    lemma_run_state(lst_state_list_id, states, replies, 6 + 3 * lst);
    lemma_run_state(lst_state_list_id, states, replies, 7 + 3 * lst);
    assert(states[6 + 3 * lst].expects(replies[6 + 3 * lst]));
    assert(states[6 + 3 * lst + 1] == states[6 + 3 * lst].after(replies[6 + 3 * lst]));
}

/// What fails ends the update at once, with that failure.
pub proof fn law_failure_ends_the_update<E>(state: UpdateState<E>, e: E)
    requires
        state.expects(UpdateReply::Failed(e)),
    ensures
        state.after(UpdateReply::Failed(e)).step == UpdateStep::Finished(
            Err(UpdateErr::Inner(e)),
        ),
        state.after(UpdateReply::Failed(e)).mints == state.mints,
{
}

/// An update fails for no other reason than that its last piece of work failed, or
/// that the LST state list does not decode. That an LST has no known stake pool is
/// never a reason.
pub proof fn law_update_fails_only_on_a_failure<E>(
    lst_state_list_id: Pubkey,
    states: Seq<UpdateState<E>>,
    replies: Seq<UpdateReply<E>>,
    err: UpdateErr<E>,
)
    requires
        is_update_run(lst_state_list_id, states, replies),
        states.last().step == UpdateStep::Finished(Err(err)),
    ensures
        replies.len() > 0,
        match err {
            UpdateErr::Inner(e) => replies.last() == UpdateReply::Failed(e),
            UpdateErr::AccDeser { pk } => pk == lst_state_list_id && replies.last()
                == UpdateReply::<E>::LstStates(None),
        },
{
    let n = replies.len() as int;
    lemma_run_state(lst_state_list_id, states, replies, n - 1);
    assert(states[n - 1].expects(replies[n - 1]));
    assert(states[n - 1 + 1] == states[n - 1].after(replies[n - 1]));
}

/// An LST whose stake pool is not known loses its calculator, and the update then
/// goes on as if the calculator had been updated.
pub proof fn law_missing_spl_data_is_passed_over<E>(
    state: UpdateState<E>,
    lst: usize,
    kind: SvcKind,
)
    requires
        state.step == (UpdateStep::<E>::GetOrInitCalc { lst }),
    ensures
        state.after(UpdateReply::MissingSplData).step == (UpdateStep::<E>::RemoveCalc { lst }),
        state.after(UpdateReply::MissingSplData).after(UpdateReply::Done) == state.after(
            UpdateReply::Calc(kind),
        ).after(UpdateReply::Done),
{
}

/// A calculator is forgotten only where its stake pool is not known, and it is
/// updated with the clock only where its kind is not affected by it.
pub proof fn law_what_leads_to_a_calculator_step<E>(
    state: UpdateState<E>,
    reply: UpdateReply<E>,
    lst: usize,
    omit_clock: bool,
)
    requires
        state.expects(reply),
    ensures
        state.after(reply).step == (UpdateStep::<E>::RemoveCalc { lst }) <==> (state.step == (
        UpdateStep::<E>::GetOrInitCalc { lst }) && reply is MissingSplData),
        state.after(reply).step == (UpdateStep::<E>::UpdateCalc { lst, omit_clock }) <==> (
        state.step == (UpdateStep::<E>::GetOrInitCalc { lst }) && (reply matches UpdateReply::Calc(
            kind,
        ) && omit_clock == kind.is_clock_affected())),
{
}

/// An update begins with the pool state account, before any list is decoded, and keeps in
/// mind which account the list is in.
pub proof fn law_update_starts_with_the_pool_state<E>(lst_state_list_id: Pubkey)
    ensures
        UpdateState::<E>::start(lst_state_list_id).step is UpdatePool,
        UpdateState::<E>::start(lst_state_list_id).mints.len() == 0,
        UpdateState::<E>::start(lst_state_list_id).lst_state_list_id == lst_state_list_id,
{
}

/// Which replies answer which steps. It is a matter of their kinds alone: what a reply holds
/// has no say in it, nor has the list.
pub proof fn law_which_replies_answer_which_steps<E>(state: UpdateState<E>, reply: UpdateReply<E>)
    ensures
        reply is LstStates ==> (state.expects(reply) <==> state.step is DecodeLstStateList),
        reply is Calc ==> (state.expects(reply) <==> state.step is GetOrInitCalc),
        reply is MissingSplData ==> (state.expects(reply) <==> state.step is GetOrInitCalc),
        reply is Done ==> (state.expects(reply) <==> !(state.step is DecodeLstStateList)
            && !(state.step is GetOrInitCalc) && !(state.step is Finished)),
        reply is Failed ==> (state.expects(reply) <==> !(state.step is DecodeLstStateList)
            && !(state.step is RemoveCalc) && !(state.step is Finished)),
{
}

/// A step never leads past the end of the list.
pub proof fn law_steps_are_on_the_list<E>(state: UpdateState<E>, lst: usize, omit_clock: bool)
    requires
        state.step == (UpdateStep::<E>::UpdateReserves { lst }) || state.step == (
        UpdateStep::<E>::GetOrInitCalc { lst }) || state.step == (UpdateStep::<E>::RemoveCalc {
            lst,
        }) || state.step == (UpdateStep::<E>::UpdateCalc { lst, omit_clock }),
    ensures
        state.wf() <==> lst < state.mints.len(),
{
}

/// The decoded list is taken over as it is, with all of its mints in their order, and the
/// pricing program is updated for it next. A list that does not decode ends the update, with
/// the address of its account.
pub proof fn law_decoded_list_is_taken_over_whole<E>(state: UpdateState<E>, mints: Vec<Pubkey>)
    requires
        state.step is DecodeLstStateList,
    ensures
        state.after(UpdateReply::LstStates(Some(mints))).mints == mints@,
        state.after(UpdateReply::LstStates(Some(mints))).step is UpdatePricing,
        state.after(UpdateReply::LstStates(None)).step == UpdateStep::<E>::Finished(
            Err(UpdateErr::AccDeser { pk: state.lst_state_list_id }),
        ),
{
}

/// No reply but the decoded list changes the list, and none changes which account it is in.
pub proof fn law_list_stays_once_it_is_decoded<E>(state: UpdateState<E>, reply: UpdateReply<E>)
    ensures
        !(state.step is DecodeLstStateList && reply is LstStates) ==> state.after(reply).mints
            == state.mints,
        state.after(reply).lst_state_list_id == state.lst_state_list_id,
{
}

/// What does not fit the kind of step is as good as no reply.
pub proof fn law_reply_to_another_step_changes_nothing<E>(
    state: UpdateState<E>,
    reply: UpdateReply<E>,
)
    ensures
        state.step is Finished ==> state.after(reply) == state,
        state.step is DecodeLstStateList && !(reply is LstStates) ==> state.after(reply) == state,
        state.step is GetOrInitCalc && (reply is Done || reply is LstStates) ==> state.after(reply)
            == state,
        state.step is RemoveCalc && !(reply is Done) ==> state.after(reply) == state,
        !(state.step is DecodeLstStateList) && reply is LstStates ==> state.after(reply) == state,
        !(state.step is GetOrInitCalc) && (reply is Calc || reply is MissingSplData)
            ==> state.after(reply) == state,
{
}

/// Whatever the step, a failure of its work ends the update with that failure.
pub proof fn law_failed_work_ends_the_update<E>(state: UpdateState<E>, e: E)
    requires
        !(state.step is DecodeLstStateList),
        !(state.step is RemoveCalc),
        !(state.step is Finished),
    ensures
        state.after(UpdateReply::Failed(e)).step == UpdateStep::Finished(
            Err(UpdateErr::Inner(e)),
        ),
{
}

/// Before the list is decoded, what is done is followed by the next account of the pool.
pub proof fn law_accounts_of_the_pool_come_in_turn<E>(state: UpdateState<E>)
    ensures
        state.step is UpdatePool ==> state.after(UpdateReply::Done).step is UpdateLstStateList,
        state.step is UpdateLstStateList ==> state.after(UpdateReply::Done).step
            is UpdateLpTokenSupply,
        state.step is UpdateLpTokenSupply ==> state.after(UpdateReply::Done).step
            is DecodeLstStateList,
{
}

/// The first LST comes after the pricing program, and each later one after the one before
/// it. Each has its reserves updated first and its calculator looked up next. The update is
/// over, and has succeeded, after the last LST and not before.
pub proof fn law_lsts_come_in_turn<E>(state: UpdateState<E>, lst: usize, omit_clock: bool)
    requires
        state.mints.len() <= usize::MAX,
        lst < state.mints.len(),
    ensures
        ({
            let next = state.after(UpdateReply::Done).step;
            &&& state.step is UpdatePricing ==> next == (UpdateStep::<E>::UpdateReserves { lst: 0 })
            &&& state.step == (UpdateStep::<E>::UpdateReserves { lst }) ==> next == (UpdateStep::<
                E,
            >::GetOrInitCalc { lst })
            &&& state.step == (UpdateStep::<E>::UpdateCalc { lst, omit_clock }) || state.step == (
            UpdateStep::<E>::RemoveCalc { lst }) ==> {
                &&& lst + 1 < state.mints.len() ==> next == (UpdateStep::<E>::UpdateReserves {
                    lst: (lst + 1) as usize,
                })
                &&& lst + 1 == state.mints.len() ==> next == UpdateStep::<E>::Finished(Ok(()))
            }
        }),
{
}

/// Without LSTs, the update is over after the pricing program.
pub proof fn law_update_of_an_empty_list_ends_after_the_pricing<E>(state: UpdateState<E>)
    requires
        state.mints.len() == 0,
        state.step is UpdatePricing,
    ensures
        state.after(UpdateReply::Done).step == UpdateStep::<E>::Finished(Ok(())),
{
}

/// The calculator that is found is the one that is updated next, without the clock for Lido
/// and the SPL stake pools, with it for the others.
pub proof fn law_found_calculator_is_updated<E>(state: UpdateState<E>, lst: usize, kind: SvcKind)
    requires
        state.step == (UpdateStep::<E>::GetOrInitCalc { lst }),
    ensures
        state.after(UpdateReply::Calc(kind)).step matches UpdateStep::UpdateCalc {
            lst: updated,
            omit_clock,
        } && updated == lst && (omit_clock <==> !(kind is Marinade) && !(kind is Wsol)),
        state.after(UpdateReply::MissingSplData).step == (UpdateStep::<E>::RemoveCalc { lst }),
{
}

/// The state before the LST at `lst` in an update in which every step is done.
proof fn lemma_update_up_to_lst<E>(
    lst_state_list_id: Pubkey,
    mints: Vec<Pubkey>,
    states: Seq<UpdateState<E>>,
    replies: Seq<UpdateReply<E>>,
    lst: int,
)
    requires
        states.len() == replies.len() + 1,
        states[0] == UpdateState::<E>::start(lst_state_list_id),
        forall|i: int|
            0 <= i < replies.len() ==> states[i + 1] == states[i].after(#[trigger] replies[i]),
        replies.len() == 5 + 3 * mints@.len(),
        replies[0] is Done,
        replies[1] is Done,
        replies[2] is Done,
        replies[3] == UpdateReply::<E>::LstStates(Some(mints)),
        replies[4] is Done,
        forall|i: int|
            5 <= i < replies.len() ==> if i % 3 == 0 {
                (#[trigger] replies[i]) is Calc || replies[i] is MissingSplData
            } else {
                replies[i] is Done
            },
        0 <= lst <= mints@.len(),
    ensures
        states[4].mints == mints@,
        states[4].step is UpdatePricing,
        states[5 + 3 * lst].mints == mints@,
        lst < mints@.len() ==> states[5 + 3 * lst].step == (UpdateStep::<E>::UpdateReserves {
            lst: lst as usize,
        }),
        lst == mints@.len() ==> states[5 + 3 * lst].step == UpdateStep::<E>::Finished(Ok(())),
    decreases lst,
{
    assert(mints@.len() == mints.len());
    assert(states[0int + 1] == states[0].after(replies[0]));
    assert(states[1int + 1] == states[1].after(replies[1]));
    assert(states[2int + 1] == states[2].after(replies[2]));
    assert(states[3int + 1] == states[3].after(replies[3]));
    assert(states[4int + 1] == states[4].after(replies[4]));
    if lst > 0 {
        let i = lst - 1;
        lemma_update_up_to_lst(lst_state_list_id, mints, states, replies, i);
        assert(states[5 + 3 * i + 1] == states[5 + 3 * i].after(replies[5 + 3 * i]));
        assert(states[6 + 3 * i + 1] == states[6 + 3 * i].after(replies[6 + 3 * i]));
        assert(states[7 + 3 * i + 1] == states[7 + 3 * i].after(replies[7 + 3 * i]));
    }
}

/// An update in which nothing fails succeeds, and deals with the whole list, however long it
/// is: the pricing program is updated for all of its mints, and every LST on it has its
/// reserves updated and its calculator looked up, which is then updated, or forgotten where
/// its stake pool is not known.
pub proof fn law_update_deals_with_a_list_of_any_length<E>(
    lst_state_list_id: Pubkey,
    mints: Vec<Pubkey>,
    states: Seq<UpdateState<E>>,
    replies: Seq<UpdateReply<E>>,
    lst: int,
)
    requires
        states.len() == replies.len() + 1,
        states[0] == UpdateState::<E>::start(lst_state_list_id),
        forall|i: int|
            0 <= i < replies.len() ==> states[i + 1] == states[i].after(#[trigger] replies[i]),
        replies.len() == 5 + 3 * mints@.len(),
        replies[0] is Done,
        replies[1] is Done,
        replies[2] is Done,
        replies[3] == UpdateReply::<E>::LstStates(Some(mints)),
        replies[4] is Done,
        forall|i: int|
            5 <= i < replies.len() ==> if i % 3 == 0 {
                (#[trigger] replies[i]) is Calc || replies[i] is MissingSplData
            } else {
                replies[i] is Done
            },
    ensures
        states.last().step == UpdateStep::<E>::Finished(Ok(())),
        states.last().mints == mints@,
        states[4].step is UpdatePricing,
        states[4].mints == mints@,
        0 <= lst < mints@.len() ==> {
            &&& states[5 + 3 * lst].step == (UpdateStep::<E>::UpdateReserves { lst: lst as usize })
            &&& states[6 + 3 * lst].step == (UpdateStep::<E>::GetOrInitCalc { lst: lst as usize })
            &&& replies[6 + 3 * lst] matches UpdateReply::Calc(kind) ==> states[7 + 3 * lst].step
                matches UpdateStep::UpdateCalc { lst: updated, omit_clock } && updated == lst && (
            omit_clock <==> !(kind is Marinade) && !(kind is Wsol))
            &&& replies[6 + 3 * lst] is MissingSplData ==> states[7 + 3 * lst].step == (
            UpdateStep::<E>::RemoveCalc { lst: lst as usize })
        },
{
    assert(mints@.len() == mints.len());
    lemma_update_up_to_lst(lst_state_list_id, mints, states, replies, mints@.len() as int);
    if 0 <= lst < mints@.len() {
        lemma_update_up_to_lst(lst_state_list_id, mints, states, replies, lst);
        assert(states[5 + 3 * lst + 1] == states[5 + 3 * lst].after(replies[5 + 3 * lst]));
        assert(states[6 + 3 * lst + 1] == states[6 + 3 * lst].after(replies[6 + 3 * lst]));
    }
}

} // verus!
