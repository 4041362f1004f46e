//! The SOL value calculators of the pool's LSTs.

use vstd::prelude::*;

verus! {

/// Which program prices an LST in SOL.
#[derive(Debug, Clone, Copy, PartialEq, Eq, Structural)]
pub enum SvcKind {
    Lido,
    Marinade,
    SanctumSpl,
    SanctumSplMulti,
    Spl,
    Wsol,
}

impl SvcKind {
    /// Whether the calculator compares the epoch of its stake pool's last update
    /// with the clock.
    pub open spec fn is_clock_affected(self) -> bool {
        self != SvcKind::Marinade && self != SvcKind::Wsol
    }

    /// Whether the clock is to be left out when the calculator is updated.
    pub fn omits_clock(&self) -> (omits: bool)
        ensures
            omits == self.is_clock_affected(),
            omits <==> !(*self is Marinade) && !(*self is Wsol),
    {
        match self {
            SvcKind::Lido => true,
            SvcKind::SanctumSpl => true,
            SvcKind::SanctumSplMulti => true,
            SvcKind::Spl => true,
            SvcKind::Marinade => false,
            SvcKind::Wsol => false,
        }
    }
}

/// A calculator, with the epoch in which its stake pool was last updated where that
/// matters.
#[derive(Debug, Clone, Copy, PartialEq, Eq)]
pub enum SolValCalc {
    Lido { computed_in_epoch: u64 },
    Marinade,
    SanctumSpl { last_update_epoch: u64 },
    SanctumSplMulti { last_update_epoch: u64 },
    Spl { last_update_epoch: u64 },
    Wsol,
}

impl SolValCalc {
    /// The program that the calculator belongs to.
    pub open spec fn kind(self) -> SvcKind {
        match self {
            SolValCalc::Lido { .. } => SvcKind::Lido,
            SolValCalc::Marinade => SvcKind::Marinade,
            SolValCalc::SanctumSpl { .. } => SvcKind::SanctumSpl,
            SolValCalc::SanctumSplMulti { .. } => SvcKind::SanctumSplMulti,
            SolValCalc::Spl { .. } => SvcKind::Spl,
            SolValCalc::Wsol => SvcKind::Wsol,
        }
    }

    /// The epoch in which the stake pool was last updated, where that matters.
    pub open spec fn last_epoch(self) -> Option<u64> {
        match self {
            SolValCalc::Lido { computed_in_epoch } => Some(computed_in_epoch),
            SolValCalc::SanctumSpl { last_update_epoch } => Some(last_update_epoch),
            SolValCalc::SanctumSplMulti { last_update_epoch } => Some(last_update_epoch),
            SolValCalc::Spl { last_update_epoch } => Some(last_update_epoch),
            SolValCalc::Marinade => None,
            SolValCalc::Wsol => None,
        }
    }
}

/// The clock affects the calculators of Lido and of the three SPL stake pool programs.
pub proof fn law_clock_affects_lido_and_the_spl_programs(kind: SvcKind)
    ensures
        kind.is_clock_affected() <==> (kind is Lido || kind is SanctumSpl || kind
            is SanctumSplMulti || kind is Spl),
{
}

/// A calculator belongs to the program that it is named after, and the epoch that counts
/// is the one that its stake pool was last updated in. Marinade's and that of wrapped SOL
/// have none.
pub proof fn law_calculator_tells_its_program_and_epoch(last: u64)
    ensures
        ({
            let lido = SolValCalc::Lido { computed_in_epoch: last };
            let sanctum_spl = SolValCalc::SanctumSpl { last_update_epoch: last };
            let sanctum_spl_multi = SolValCalc::SanctumSplMulti { last_update_epoch: last };
            let spl = SolValCalc::Spl { last_update_epoch: last };
            &&& lido.kind() is Lido && lido.last_epoch() == Some(last)
            &&& sanctum_spl.kind() is SanctumSpl && sanctum_spl.last_epoch() == Some(last)
            &&& sanctum_spl_multi.kind() is SanctumSplMulti && sanctum_spl_multi.last_epoch()
                == Some(last)
            &&& spl.kind() is Spl && spl.last_epoch() == Some(last)
            &&& SolValCalc::Marinade.kind() is Marinade && SolValCalc::Marinade.last_epoch()
                is None
            &&& SolValCalc::Wsol.kind() is Wsol && SolValCalc::Wsol.last_epoch() is None
        }),
{
}

} // verus!
