//! How the pool is set up from the account of its LST state list.
//!
//! Like an update, this is a run of steps on the pool. Every LST on the list gets its
//! calculator set up, so that the first update finds them all. An LST whose stake
//! pool is not known goes without.

use crate::pubkey::{pubkey_eq, Pubkey};
use crate::spl_lsts::{build_spl_lsts, SanctumLst, SplLsts};
use vstd::prelude::*;

#[allow(unused_imports)]
use crate::spl_lsts::spl_pools;

verus! {

/// Why the pool was not set up. `E` is an error of the pool.
#[derive(Debug)]
pub enum InitErr<E> {
    /// The account is not the LST state list.
    IncorrectKeyedAccount,
    /// The LST state list does not decode.
    LstStateList,
    /// A piece of work failed.
    Inner(E),
}

/// What is to be done next to set up the pool. An LST is meant by its position on
/// the LST state list.
#[derive(Debug)]
pub enum InitStep<E> {
    /// Make the pool out of the data of the LST state list account and the stake pools
    /// of the SPL tokens. All the rest is what a pool has before its first update:
    /// the deployment's default pool state, no LP token supply, no pricing, no
    /// reserves and no calculators.
    NewPool { lst_state_list_data: Vec<u8>, spl_lsts: SplLsts },
    /// Decode the LST state list, out of the same data.
    DecodeLstStateList { lst_state_list_data: Vec<u8> },
    /// Find the calculator of an LST, or set it up.
    GetOrInitCalc { lst: usize },
    /// The setup is over.
    Finished(Result<(), InitErr<E>>),
}

/// What came of a step.
#[derive(Debug)]
pub enum InitReply<E> {
    Done,
    Failed(E),
    /// The length of the decoded LST state list; `None` if the account data does not
    /// decode.
    LstStates(Option<usize>),
    /// The stake pool of the LST is not known, so it can have no calculator.
    MissingSplData,
}

/// Where a setup stands.
pub struct InitState<E> {
    /// The length of the LST state list, once it is decoded.
    pub lsts: int,
    pub step: InitStep<E>,
}

impl<E> InitState<E> {
    /// A setup begins with the pool itself, made out of account data `data` and the
    /// stake pools `pools`.
    pub open spec fn starts_with(self, data: Seq<u8>, pools: Map<Pubkey, Pubkey>) -> bool {
        &&& self.lsts == 0
        &&& self.step matches InitStep::NewPool { lst_state_list_data, spl_lsts }
        &&& lst_state_list_data@ == data
        &&& spl_lsts@ == pools
    }

    /// The step at the LST at `lst` of a list of `lsts`, or the end after the last
    /// one.
    pub open spec fn at_lst(lsts: int, lst: int) -> Self {
        InitState {
            lsts,
            step: if lst < lsts {
                InitStep::GetOrInitCalc { lst: lst as usize }
            } else {
                InitStep::Finished(Ok(()))
            },
        }
    }

    /// Whether `reply` is an answer to the present step.
    pub open spec fn expects(self, reply: InitReply<E>) -> bool {
        match self.step {
            InitStep::NewPool { .. } => reply is Done || reply is Failed,
            InitStep::DecodeLstStateList { .. } => reply is LstStates,
            InitStep::GetOrInitCalc { .. } => reply is Done || reply is MissingSplData
                || reply is Failed,
            InitStep::Finished(_) => false,
        }
    }

    /// Where the setup stands after `reply`. What does not answer the present step
    /// changes nothing.
    pub open spec fn after(self, reply: InitReply<E>) -> Self {
        if !self.expects(reply) {
            self
        } else {
            match (self.step, reply) {
                (_, InitReply::Failed(e)) => InitState {
                    step: InitStep::Finished(Err(InitErr::Inner(e))),
                    ..self
                },
                (InitStep::NewPool { lst_state_list_data, .. }, _) => InitState {
                    step: InitStep::DecodeLstStateList { lst_state_list_data },
                    ..self
                },
                (_, InitReply::LstStates(None)) => InitState {
                    step: InitStep::Finished(Err(InitErr::LstStateList)),
                    ..self
                },
                (_, InitReply::LstStates(Some(lsts))) => Self::at_lst(lsts as int, 0),
                (InitStep::GetOrInitCalc { lst }, _) => Self::at_lst(self.lsts, lst + 1),
                _ => self,
            }
        }
    }

    /// A step never leads past the end of the list.
    pub open spec fn wf(self) -> bool {
        &&& 0 <= self.lsts <= usize::MAX
        &&& self.step matches InitStep::GetOrInitCalc { lst } ==> lst < self.lsts
    }
}

/// A running setup.
#[derive(Debug)]
pub struct InitRun<E> {
    lsts: usize,
    step: InitStep<E>,
}

impl<E> View for InitRun<E> {
    type V = InitState<E>;

    closed spec fn view(&self) -> InitState<E> {
        InitState { lsts: self.lsts as int, step: self.step }
    }
}

impl<E> InitRun<E> {
    #[verifier::type_invariant]
    spec fn wf(self) -> bool {
        self@.wf()
    }

    /// Begins the setup out of account `key` with data `data`, which has to be the LST
    /// state list (and not the pool state). The stake pools of the SPL tokens among
    /// `sanctum_lsts` go into the pool.
    pub fn start(
        lst_state_list_id: &Pubkey,
        key: &Pubkey,
        data: Vec<u8>,
        sanctum_lsts: &Vec<SanctumLst>,
    ) -> (res: Result<Self, InitErr<E>>)
        ensures
            match res {
                Ok(run) => *key == *lst_state_list_id && run@.starts_with(
                    data@,
                    spl_pools(sanctum_lsts@),
                ),
                Err(e) => *key != *lst_state_list_id && e is IncorrectKeyedAccount,
            },
            res matches Ok(run) ==> run@.lsts == 0 && (run@.step matches InitStep::NewPool {
                lst_state_list_data,
                ..
            } && lst_state_list_data@ == data@),
    {
        if !pubkey_eq(key, lst_state_list_id) {
            return Err(InitErr::IncorrectKeyedAccount);
        }
        let spl_lsts = build_spl_lsts(sanctum_lsts);
        Ok(InitRun { lsts: 0, step: InitStep::NewPool { lst_state_list_data: data, spl_lsts } })
    }

    /// What is to be done next.
    pub fn step(&self) -> (step: &InitStep<E>)
        ensures
            *step == self@.step,
            self@.wf(),
            *step matches InitStep::GetOrInitCalc { lst } ==> lst < self@.lsts,
    {
        proof {
            use_type_invariant(self);
        }
        &self.step
    }

    /// Ends the run, and hands out what came of it where it is over.
    pub fn into_result(self) -> (result: Option<Result<(), InitErr<E>>>)
        ensures
            result == (match self@.step {
                InitStep::Finished(result) => Some(result),
                _ => None,
            }),
    {
        match self.step {
            InitStep::Finished(result) => Some(result),
            _ => None,
        }
    }

    /// The run at the LST at `lst` of a list of `lsts`, or at the end after the last
    /// one.
    fn at_lst(lsts: usize, lst: usize) -> (run: Self)
        ensures
            run@ == InitState::<E>::at_lst(lsts as int, lst as int),
    {
        if lst < lsts {
            InitRun { lsts, step: InitStep::GetOrInitCalc { lst } }
        } else {
            InitRun { lsts, step: InitStep::Finished(Ok(())) }
        }
    }

    /// Takes the reply to the present step.
    pub fn reply(&mut self, reply: InitReply<E>)
        ensures
            final(self)@ == old(self)@.after(reply),
            old(self)@.step is DecodeLstStateList ==> (reply matches InitReply::LstStates(
                Some(lsts),
            ) ==> final(self)@.lsts == lsts),
            !(old(self)@.step is DecodeLstStateList) ==> final(self)@.lsts == old(self)@.lsts,
    {
        proof {
            use_type_invariant(&*self);
        }
        let mut step = InitStep::Finished(Ok(()));
        std::mem::swap(&mut step, &mut self.step);
        match (step, reply) {
            (
                InitStep::NewPool { .. } | InitStep::GetOrInitCalc { .. },
                InitReply::Failed(e),
            ) => {
                self.step = InitStep::Finished(Err(InitErr::Inner(e)));
            },
            (InitStep::NewPool { lst_state_list_data, .. }, InitReply::Done) => {
                self.step = InitStep::DecodeLstStateList { lst_state_list_data };
            },
            (InitStep::DecodeLstStateList { .. }, InitReply::LstStates(Some(lsts))) => {
                *self = Self::at_lst(lsts, 0);
            },
            (InitStep::DecodeLstStateList { .. }, InitReply::LstStates(None)) => {
                self.step = InitStep::Finished(Err(InitErr::LstStateList));
            },
            (
                InitStep::GetOrInitCalc { lst },
                InitReply::Done | InitReply::MissingSplData,
            ) => {
                *self = Self::at_lst(self.lsts, lst + 1);
            },
            (step, _) => {
                self.step = step;
            },
        }
    }
}

/// `states` is what a setup goes through on `replies`, each of which answers the step
/// that it is given to.
pub open spec fn is_init_run<E>(states: Seq<InitState<E>>, replies: Seq<InitReply<E>>) -> bool {
    &&& states.len() == replies.len() + 1
    &&& states[0].lsts == 0
    &&& states[0].step is NewPool
    &&& forall|i: int|
        0 <= i < replies.len() ==> states[i].expects(#[trigger] replies[i]) && states[i + 1]
            == states[i].after(replies[i])
}

/// How many replies it takes to get to a state in which nothing has failed.
pub open spec fn replies_needed<E>(state: InitState<E>) -> int {
    match state.step {
        InitStep::NewPool { .. } => 0,
        InitStep::DecodeLstStateList { .. } => 1,
        InitStep::GetOrInitCalc { lst } => 2 + lst,
        InitStep::Finished(_) => 2 + state.lsts,
    }
}

/// The states of a run are well formed, and each is reached after as many replies as
/// it takes. Nothing follows the end.
proof fn lemma_run_state<E>(states: Seq<InitState<E>>, replies: Seq<InitReply<E>>, k: int)
    requires
        is_init_run(states, replies),
        0 <= k <= replies.len(),
    ensures
        states[k].wf(),
        states[k].step is Finished ==> k == replies.len(),
        !(states[k].step matches InitStep::Finished(Err(_))) ==> k == replies_needed(states[k]),
    decreases k,
{
    if k < replies.len() {
        assert(states[k].expects(replies[k]));
    }
    if k > 0 {
        lemma_run_state(states, replies, k - 1);
        assert(states[k - 1].expects(replies[k - 1]));
        assert(states[k - 1 + 1] == states[k - 1].after(replies[k - 1]));
    }
}

/// From the third state on, the list of a run is the decoded one.
proof fn lemma_run_lsts<E>(states: Seq<InitState<E>>, replies: Seq<InitReply<E>>, k: int)
    requires
        is_init_run(states, replies),
        2 <= k <= replies.len(),
        !(states[2].step matches InitStep::Finished(Err(_))),
    ensures
        replies[1] matches InitReply::LstStates(Some(lsts)) && states[k].lsts == lsts,
    decreases k,
{
    lemma_run_state(states, replies, 1);
    assert(states[1].expects(replies[1]));
    assert(states[1int + 1] == states[1].after(replies[1]));
    if k > 2 {
        lemma_run_lsts(states, replies, k - 1);
        lemma_run_state(states, replies, k - 1);
        assert(states[k - 1].expects(replies[k - 1]));
        assert(states[k - 1 + 1] == states[k - 1].after(replies[k - 1]));
    }
}

/// The list is decoded out of the same data that the pool is made of.
pub proof fn law_init_decodes_the_data_of_the_pool<E>(
    states: Seq<InitState<E>>,
    replies: Seq<InitReply<E>>,
    data: Seq<u8>,
    pools: Map<Pubkey, Pubkey>,
)
    requires
        is_init_run(states, replies),
        states[0].starts_with(data, pools),
        replies.len() >= 2,
    ensures
        states[1].step matches InitStep::DecodeLstStateList { lst_state_list_data }
            && lst_state_list_data@ == data,
{
    lemma_run_state(states, replies, 1);
    assert(states[0].expects(replies[0]));
    assert(states[0int + 1] == states[0].after(replies[0]));
}

/// Every setup comes to an end: it takes no more than two replies and one for each LST
/// on the list.
pub proof fn law_init_is_bounded<E>(states: Seq<InitState<E>>, replies: Seq<InitReply<E>>)
    requires
        is_init_run(states, replies),
    ensures
        replies.len() <= 2 + states.last().lsts,
{
    let n = replies.len() as int;
    lemma_run_state(states, replies, n);
    if n > 0 {
        lemma_run_state(states, replies, n - 1);
        assert(states[n - 1].expects(replies[n - 1]));
        assert(states[n - 1 + 1] == states[n - 1].after(replies[n - 1]));
    }
}

/// A setup that succeeds has asked for the calculator of every LST on the decoded
/// list, in order, and got it unless the LST's stake pool is not known.
pub proof fn law_finished_init_has_asked_for_every_calculator<E>(
    states: Seq<InitState<E>>,
    replies: Seq<InitReply<E>>,
    lst: int,
)
    requires
        is_init_run(states, replies),
        states.last().step == InitStep::<E>::Finished(Ok(())),
        0 <= lst < states.last().lsts,
    ensures
        replies[1] matches InitReply::LstStates(Some(lsts)) && states.last().lsts == lsts,
        replies.len() == 2 + states.last().lsts,
        states[2 + lst].step == (InitStep::<E>::GetOrInitCalc { lst: lst as usize }),
        replies[2 + lst] is Done || replies[2 + lst] is MissingSplData,
{
    let n = replies.len() as int;
    lemma_run_state(states, replies, n);
    lemma_run_state(states, replies, 2);
    lemma_run_lsts(states, replies, n);
    lemma_run_state(states, replies, 2 + lst);
    lemma_run_state(states, replies, 2 + lst + 1);
    assert(states[2 + lst].expects(replies[2 + lst]));
    assert(states[2 + lst + 1] == states[2 + lst].after(replies[2 + lst]));
}

/// What fails ends the setup at once, with that failure.
pub proof fn law_failure_ends_the_setup<E>(state: InitState<E>, e: E)
    requires
        state.expects(InitReply::Failed(e)),
    ensures
        state.after(InitReply::Failed(e)).step == InitStep::Finished(Err(InitErr::Inner(e))),
{
}

/// A setup that has begun fails for no other reason than that its last piece of work
/// failed, or that the LST state list does not decode.
pub proof fn law_init_fails_only_on_a_failure<E>(
    states: Seq<InitState<E>>,
    replies: Seq<InitReply<E>>,
    err: InitErr<E>,
)
    requires
        is_init_run(states, replies),
        states.last().step == InitStep::Finished(Err(err)),
    ensures
        replies.len() > 0,
        match err {
            InitErr::Inner(e) => replies.last() == InitReply::Failed(e),
            InitErr::LstStateList => replies.last() == InitReply::<E>::LstStates(None),
            InitErr::IncorrectKeyedAccount => false,
        },
{
    let n = replies.len() as int;
    lemma_run_state(states, replies, n - 1);
    assert(states[n - 1].expects(replies[n - 1]));
    assert(states[n - 1 + 1] == states[n - 1].after(replies[n - 1]));
}

/// An LST whose stake pool is not known does not fail the setup, which goes on as if
/// the calculator had been set up.
pub proof fn law_init_passes_over_missing_spl_data<E>(state: InitState<E>, lst: usize)
    requires
        state.step == (InitStep::<E>::GetOrInitCalc { lst }),
    ensures
        state.after(InitReply::MissingSplData) == state.after(InitReply::Done),
        !(state.after(InitReply::MissingSplData).step matches InitStep::Finished(Err(_))),
{
}

/// A setup starts with account data and stake pools where its first step is to make the pool
/// out of these very data and pools, before any list is decoded.
pub proof fn law_setup_starts_with_the_data_and_the_pools<E>(
    state: InitState<E>,
    data: Seq<u8>,
    pools: Map<Pubkey, Pubkey>,
)
    ensures
        state.starts_with(data, pools) <==> state.lsts == 0 && (state.step
            matches InitStep::NewPool { lst_state_list_data, spl_lsts } && lst_state_list_data@
            == data && spl_lsts@ == pools),
{
}

/// Which replies answer which steps. It is a matter of their kinds alone.
pub proof fn law_which_replies_answer_which_setup_steps<E>(
    state: InitState<E>,
    reply: InitReply<E>,
)
    ensures
        reply is LstStates ==> (state.expects(reply) <==> state.step is DecodeLstStateList),
        reply is MissingSplData ==> (state.expects(reply) <==> state.step is GetOrInitCalc),
        reply is Done ==> (state.expects(reply) <==> state.step is NewPool || state.step
            is GetOrInitCalc),
        reply is Failed ==> (state.expects(reply) <==> state.step is NewPool || state.step
            is GetOrInitCalc),
{
}

/// A step never leads past the end of the list.
pub proof fn law_setup_steps_are_on_the_list<E>(state: InitState<E>, lst: usize)
    requires
        0 <= state.lsts <= usize::MAX,
        state.step == (InitStep::<E>::GetOrInitCalc { lst }),
    ensures
        state.wf() <==> lst < state.lsts,
{
}

/// The list is decoded once the pool is made, out of the same data. A failure to make the
/// pool ends the setup with that failure.
pub proof fn law_list_is_decoded_once_the_pool_is_made<E>(
    state: InitState<E>,
    data: Vec<u8>,
    spl_lsts: SplLsts,
    e: E,
)
    requires
        state.step == (InitStep::<E>::NewPool { lst_state_list_data: data, spl_lsts }),
    ensures
        state.after(InitReply::Done).step matches InitStep::DecodeLstStateList {
            lst_state_list_data,
        } && lst_state_list_data@ == data@,
        state.after(InitReply::Failed(e)).step == InitStep::Finished(Err(InitErr::Inner(e))),
{
}

/// A decoded list has as many LSTs as it was decoded to have, and the first one comes next.
/// Without LSTs the setup is over, and a list that does not decode ends it.
pub proof fn law_setup_takes_over_the_whole_list<E>(state: InitState<E>, lsts: usize)
    requires
        state.step is DecodeLstStateList,
    ensures
        state.after(InitReply::LstStates(Some(lsts))).lsts == lsts,
        lsts > 0 ==> state.after(InitReply::LstStates(Some(lsts))).step == (InitStep::<
            E,
        >::GetOrInitCalc { lst: 0 }),
        lsts == 0 ==> state.after(InitReply::LstStates(Some(lsts))).step == InitStep::<
            E,
        >::Finished(Ok(())),
        state.after(InitReply::LstStates(None)).step == InitStep::<E>::Finished(
            Err(InitErr::LstStateList),
        ),
{
}

/// The LSTs come in turn, whether or not the stake pool of the present one is known. The
/// setup is over, and has succeeded, after the last one and not before. A failure ends it
/// with that failure.
pub proof fn law_calculators_are_asked_for_in_turn<E>(
    state: InitState<E>,
    lst: usize,
    reply: InitReply<E>,
    e: E,
)
    requires
        state.step == (InitStep::<E>::GetOrInitCalc { lst }),
        lst < state.lsts <= usize::MAX,
        reply is Done || reply is MissingSplData,
    ensures
        state.after(reply).lsts == state.lsts,
        lst + 1 < state.lsts ==> state.after(reply).step == (InitStep::<E>::GetOrInitCalc {
            lst: (lst + 1) as usize,
        }),
        lst + 1 == state.lsts ==> state.after(reply).step == InitStep::<E>::Finished(Ok(())),
        state.after(InitReply::Failed(e)).step == InitStep::Finished(Err(InitErr::Inner(e))),
{
}

/// What does not fit the kind of step is as good as no reply.
pub proof fn law_reply_to_another_setup_step_changes_nothing<E>(
    state: InitState<E>,
    reply: InitReply<E>,
)
    ensures
        state.step is Finished ==> state.after(reply) == state,
        state.step is DecodeLstStateList && !(reply is LstStates) ==> state.after(reply) == state,
        !(state.step is DecodeLstStateList) && reply is LstStates ==> state.after(reply) == state,
        !(state.step is GetOrInitCalc) && reply is MissingSplData ==> state.after(reply) == state,
{
}

/// The state before the LST at `lst` in a setup in which nothing fails.
proof fn lemma_setup_up_to_lst<E>(
    lsts: usize,
    states: Seq<InitState<E>>,
    replies: Seq<InitReply<E>>,
    lst: int,
)
    requires
        states.len() == replies.len() + 1,
        states[0].step is NewPool,
        forall|i: int|
            0 <= i < replies.len() ==> states[i + 1] == states[i].after(#[trigger] replies[i]),
        replies.len() == 2 + lsts,
        replies[0] is Done,
        replies[1] == InitReply::<E>::LstStates(Some(lsts)),
        forall|i: int|
            2 <= i < replies.len() ==> (#[trigger] replies[i]) is Done || replies[i]
                is MissingSplData,
        0 <= lst <= lsts,
    ensures
        states[2 + lst].lsts == lsts,
        lst < lsts ==> states[2 + lst].step == (InitStep::<E>::GetOrInitCalc {
            lst: lst as usize,
        }),
        lst == lsts ==> states[2 + lst].step == InitStep::<E>::Finished(Ok(())),
    decreases lst,
{
    assert(states[0int + 1] == states[0].after(replies[0]));
    assert(states[1int + 1] == states[1].after(replies[1]));
    if lst > 0 {
        lemma_setup_up_to_lst(lsts, states, replies, lst - 1);
        assert(states[1 + lst + 1] == states[1 + lst].after(replies[1 + lst]));
    }
}

/// A setup in which nothing fails succeeds, and asks for the calculator of every LST on the
/// list, however long it is and whichever stake pools are not known.
pub proof fn law_setup_deals_with_a_list_of_any_length<E>(
    lsts: usize,
    states: Seq<InitState<E>>,
    replies: Seq<InitReply<E>>,
    lst: int,
)
    requires
        states.len() == replies.len() + 1,
        states[0].step is NewPool,
        forall|i: int|
            0 <= i < replies.len() ==> states[i + 1] == states[i].after(#[trigger] replies[i]),
        replies.len() == 2 + lsts,
        replies[0] is Done,
        replies[1] == InitReply::<E>::LstStates(Some(lsts)),
        forall|i: int|
            2 <= i < replies.len() ==> (#[trigger] replies[i]) is Done || replies[i]
                is MissingSplData,
    ensures
        states.last().step == InitStep::<E>::Finished(Ok(())),
        states.last().lsts == lsts,
        0 <= lst < lsts ==> states[2 + lst].step == (InitStep::<E>::GetOrInitCalc {
            lst: lst as usize,
        }),
{
    lemma_setup_up_to_lst(lsts, states, replies, lsts as int);
    if 0 <= lst < lsts {
        lemma_setup_up_to_lst(lsts, states, replies, lst);
    }
}

} // verus!
