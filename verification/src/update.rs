//! How the pool is brought up to date with freshly fetched accounts.
//!
//! An update is a run of steps. Each step asks for one piece of work on the pool,
//! and the reply to it decides what comes next. What fails ends the run at once,
//! with one exception: an LST whose stake pool is not known is passed over.

use crate::calc::SvcKind;
use crate::pubkey::Pubkey;
use vstd::prelude::*;

verus! {

/// Why an update failed. `E` is an error of the pool.
#[derive(Debug)]
pub enum UpdateErr<E> {
    /// The data of account `pk` does not decode.
    AccDeser { pk: Pubkey },
    /// A piece of work failed.
    Inner(E),
}

/// What is to be done next in an update. An LST is meant by its position on the LST
/// state list.
#[derive(Debug)]
pub enum UpdateStep<E> {
    /// Take over the pool state account.
    UpdatePool,
    /// Take over the data of the LST state list account.
    UpdateLstStateList,
    /// Take over the supply of the LP token.
    UpdateLpTokenSupply,
    /// Decode the LST state list.
    DecodeLstStateList,
    /// Update the pricing program for the mints of the list.
    UpdatePricing,
    /// Update the pool's reserves of an LST.
    UpdateReserves { lst: usize },
    /// Find the calculator of an LST, or set it up.
    GetOrInitCalc { lst: usize },
    /// Forget the calculator of an LST.
    RemoveCalc { lst: usize },
    /// Update the calculator of an LST, without the clock account where
    /// `omit_clock` says so.
    UpdateCalc { lst: usize, omit_clock: bool },
    /// The update is over.
    Finished(Result<(), UpdateErr<E>>),
}

/// What came of a step.
#[derive(Debug)]
pub enum UpdateReply<E> {
    Done,
    Failed(E),
    /// The mints of the decoded LST state list, in order; `None` if the account
    /// data does not decode.
    LstStates(Option<Vec<Pubkey>>),
    /// The calculator was found or set up.
    Calc(SvcKind),
    /// The stake pool of the LST is not known, so it can have no calculator.
    MissingSplData,
}

/// Where an update stands.
pub struct UpdateState<E> {
    /// The address of the LST state list account.
    pub lst_state_list_id: Pubkey,
    /// The mints of the LST state list, once it is decoded.
    pub mints: Seq<Pubkey>,
    pub step: UpdateStep<E>,
}

impl<E> UpdateState<E> {
    /// An update begins with the pool state account.
    pub open spec fn start(lst_state_list_id: Pubkey) -> Self {
        UpdateState { lst_state_list_id, mints: Seq::empty(), step: UpdateStep::UpdatePool }
    }

    /// The step at the LST at `lst`, or the end after the last one.
    pub open spec fn lst_step(self, lst: int) -> UpdateStep<E> {
        if lst < self.mints.len() {
            UpdateStep::UpdateReserves { lst: lst as usize }
        } else {
            UpdateStep::Finished(Ok(()))
        }
    }

    /// Whether `reply` is an answer to the present step.
    pub open spec fn expects(self, reply: UpdateReply<E>) -> bool {
        match self.step {
            UpdateStep::UpdatePool
            | UpdateStep::UpdateLstStateList
            | UpdateStep::UpdateLpTokenSupply
            | UpdateStep::UpdatePricing
            | UpdateStep::UpdateReserves { .. }
            | UpdateStep::UpdateCalc { .. } => reply is Done || reply is Failed,
            UpdateStep::DecodeLstStateList => reply is LstStates,
            UpdateStep::GetOrInitCalc { .. } => reply is Calc || reply is MissingSplData
                || reply is Failed,
            UpdateStep::RemoveCalc { .. } => reply is Done,
            UpdateStep::Finished(_) => false,
        }
    }

    /// What comes after a step that was done.
    pub open spec fn step_after_done(self) -> UpdateStep<E> {
        match self.step {
            UpdateStep::UpdatePool => UpdateStep::UpdateLstStateList,
            UpdateStep::UpdateLstStateList => UpdateStep::UpdateLpTokenSupply,
            UpdateStep::UpdateLpTokenSupply => UpdateStep::DecodeLstStateList,
            UpdateStep::UpdatePricing => self.lst_step(0),
            UpdateStep::UpdateReserves { lst } => UpdateStep::GetOrInitCalc { lst },
            UpdateStep::RemoveCalc { lst } => self.lst_step(lst + 1),
            UpdateStep::UpdateCalc { lst, .. } => self.lst_step(lst + 1),
            _ => self.step,
        }
    }

    /// Where the update stands after `reply`. What does not answer the present step
    /// changes nothing.
    pub open spec fn after(self, reply: UpdateReply<E>) -> Self {
        if !self.expects(reply) {
            self
        } else {
            match reply {
                UpdateReply::Failed(e) => UpdateState {
                    step: UpdateStep::Finished(Err(UpdateErr::Inner(e))),
                    ..self
                },
                UpdateReply::Done => UpdateState { step: self.step_after_done(), ..self },
                UpdateReply::LstStates(None) => UpdateState {
                    step: UpdateStep::Finished(
                        Err(UpdateErr::AccDeser { pk: self.lst_state_list_id }),
                    ),
                    ..self
                },
                UpdateReply::LstStates(Some(mints)) => UpdateState {
                    mints: mints@,
                    step: UpdateStep::UpdatePricing,
                    ..self
                },
                UpdateReply::Calc(kind) => UpdateState {
                    step: UpdateStep::UpdateCalc {
                        lst: self.step->GetOrInitCalc_lst,
                        omit_clock: kind.is_clock_affected(),
                    },
                    ..self
                },
                UpdateReply::MissingSplData => UpdateState {
                    step: UpdateStep::RemoveCalc { lst: self.step->GetOrInitCalc_lst },
                    ..self
                },
            }
        }
    }

    /// A step never leads past the end of the list.
    pub open spec fn wf(self) -> bool {
        match self.step {
            UpdateStep::UpdateReserves { lst } => lst < self.mints.len(),
            UpdateStep::GetOrInitCalc { lst } => lst < self.mints.len(),
            UpdateStep::RemoveCalc { lst } => lst < self.mints.len(),
            UpdateStep::UpdateCalc { lst, .. } => lst < self.mints.len(),
            _ => true,
        }
    }
}

/// A running update.
#[derive(Debug)]
pub struct UpdateRun<E> {
    lst_state_list_id: Pubkey,
    mints: Vec<Pubkey>,
    step: UpdateStep<E>,
}

impl<E> View for UpdateRun<E> {
    type V = UpdateState<E>;

    closed spec fn view(&self) -> UpdateState<E> {
        UpdateState {
            lst_state_list_id: self.lst_state_list_id,
            mints: self.mints@,
            step: self.step,
        }
    }
}

impl<E> UpdateRun<E> {
    #[verifier::type_invariant]
    spec fn wf(self) -> bool {
        self@.wf()
    }

    /// Begins an update. `lst_state_list_id` is the address of the LST state list
    /// account.
    pub fn start(lst_state_list_id: Pubkey) -> (run: Self)
        ensures
            run@ == UpdateState::<E>::start(lst_state_list_id),
            run@.step is UpdatePool,
            run@.mints.len() == 0,
            run@.lst_state_list_id == lst_state_list_id,
    {
        UpdateRun { lst_state_list_id, mints: Vec::new(), step: UpdateStep::UpdatePool }
    }

    /// What is to be done next.
    pub fn step(&self) -> (step: &UpdateStep<E>)
        ensures
            *step == self@.step,
            self@.wf(),
            match *step {
                UpdateStep::UpdateReserves { lst }
                | UpdateStep::GetOrInitCalc { lst }
                | UpdateStep::RemoveCalc { lst }
                | UpdateStep::UpdateCalc { lst, .. } => lst < self@.mints.len(),
                _ => true,
            },
    {
        proof {
            use_type_invariant(self);
        }
        &self.step
    }

    /// The mints of the LST state list, once it is decoded.
    pub fn mints(&self) -> (mints: &Vec<Pubkey>)
        ensures
            mints@ == self@.mints,
    {
        &self.mints
    }

    /// Ends the run, and hands out what came of it where it is over.
    pub fn into_result(self) -> (result: Option<Result<(), UpdateErr<E>>>)
        ensures
            result == (match self@.step {
                UpdateStep::Finished(result) => Some(result),
                _ => None,
            }),
    {
        match self.step {
            UpdateStep::Finished(result) => Some(result),
            _ => None,
        }
    }

    /// The step at the LST at `lst`, or the end after the last one.
    fn lst_step(&self, lst: usize) -> (step: UpdateStep<E>)
        ensures
            step == self@.lst_step(lst as int),
    {
        if lst < self.mints.len() {
            UpdateStep::UpdateReserves { lst }
        } else {
            UpdateStep::Finished(Ok(()))
        }
    }

    /// Takes the reply to the present step.
    pub fn reply(&mut self, reply: UpdateReply<E>)
        ensures
            final(self)@ == old(self)@.after(reply),
            final(self)@.lst_state_list_id == old(self)@.lst_state_list_id,
            old(self)@.step is DecodeLstStateList ==> (reply matches UpdateReply::LstStates(
                Some(mints),
            ) ==> final(self)@.mints == mints@ && final(self)@.step is UpdatePricing),
            !(old(self)@.step is DecodeLstStateList) ==> final(self)@.mints == old(self)@.mints,
    {
        proof {
            use_type_invariant(&*self);
            assert(self.mints@.len() == self.mints.len());
        }
        match reply {
            UpdateReply::Done => {
                let next = match &self.step {
                    UpdateStep::UpdatePool => UpdateStep::UpdateLstStateList,
                    UpdateStep::UpdateLstStateList => UpdateStep::UpdateLpTokenSupply,
                    UpdateStep::UpdateLpTokenSupply => UpdateStep::DecodeLstStateList,
                    UpdateStep::UpdatePricing => self.lst_step(0),
                    UpdateStep::UpdateReserves { lst } => UpdateStep::GetOrInitCalc { lst: *lst },
                    UpdateStep::RemoveCalc { lst } => self.lst_step(*lst + 1),
                    UpdateStep::UpdateCalc { lst, .. } => self.lst_step(*lst + 1),
                    UpdateStep::DecodeLstStateList => return,
                    UpdateStep::GetOrInitCalc { .. } => return,
                    UpdateStep::Finished(_) => return,
                };
                self.step = next;
            },
            UpdateReply::Failed(e) => {
                match &self.step {
                    UpdateStep::DecodeLstStateList => return,
                    UpdateStep::RemoveCalc { .. } => return,
                    UpdateStep::Finished(_) => return,
                    _ => {},
                }
                self.step = UpdateStep::Finished(Err(UpdateErr::Inner(e)));
            },
            UpdateReply::LstStates(lst_states) => {
                match &self.step {
                    UpdateStep::DecodeLstStateList => {},
                    _ => return,
                }
                match lst_states {
                    Some(mints) => {
                        self.mints = mints;
                        self.step = UpdateStep::UpdatePricing;
                    },
                    None => {
                        let pk = self.lst_state_list_id;
                        self.step = UpdateStep::Finished(Err(UpdateErr::AccDeser { pk }));
                    },
                }
            },
            UpdateReply::Calc(kind) => {
                let lst: usize = match &self.step {
                    UpdateStep::GetOrInitCalc { lst } => *lst,
                    _ => return,
                };
                let omit_clock = kind.omits_clock();
                self.step = UpdateStep::UpdateCalc { lst, omit_clock };
            },
            UpdateReply::MissingSplData => {
                let lst: usize = match &self.step {
                    UpdateStep::GetOrInitCalc { lst } => *lst,
                    _ => return,
                };
                self.step = UpdateStep::RemoveCalc { lst };
            },
        }
    }
}

} // verus!
