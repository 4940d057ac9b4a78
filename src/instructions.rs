//! The two operations offered to callers: setting up a negotiation and
//! submitting a proposal.
use vstd::prelude::*;

use crate::identity::Pubkey;
use crate::negotiation::{applied, changes_between, started, AlignmentNegotiation, StateChanges};
use crate::proposal::Proposal;
use crate::state::AlignmentError;

verus! {

/// Sets up `negotiation` between the apprentice who initiates it and `mentor`,
/// in that turn order.
pub fn setup_negotation(
    negotiation: &mut AlignmentNegotiation,
    apprentice: Pubkey,
    mentor: Pubkey,
) -> (r: Result<(), AlignmentError>)
    ensures
        match started(*old(negotiation), [apprentice, mentor]) {
            Ok(next) => r is Ok && *final(negotiation) == next,
            Err(e) => r == Err::<(), AlignmentError>(e) && *final(negotiation) == *old(negotiation),
        },
        r is Err <==> old(negotiation).turn != 0,
{
    negotiation.start([apprentice, mentor])
}

/// Submits `proposal` on behalf of `player`, who must hold the turn.
pub fn propose(negotiation: &mut AlignmentNegotiation, player: Pubkey, proposal: Proposal) -> (r:
    Result<StateChanges, AlignmentError>)
    requires
        old(negotiation).turn < u64::MAX,
    ensures
        match applied(*old(negotiation), player, proposal) {
            Ok(next) => *final(negotiation) == next && r == Ok::<StateChanges, AlignmentError>(
                changes_between(*old(negotiation), next),
            ),
            Err(e) => *final(negotiation) == *old(negotiation) && r == Err::<
                StateChanges,
                AlignmentError,
            >(e),
        },
{
    negotiation.negotiate(player, &proposal)
}

} // verus!
