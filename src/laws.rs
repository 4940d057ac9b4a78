//! Properties of the negotiation that relate several steps or hold of every
//! input.
use vstd::prelude::*;

use crate::codec::{attribute_rank, decoded, Attribute, NegotiationEvent};
use crate::identity::Pubkey;
use crate::negotiation::{
    applied,
    attribute_step,
    is_present,
    is_unchanged,
    session_after,
    started,
    AlignmentNegotiation,
};
use crate::proposal::Proposal;
use crate::state::{AlignmentError, NegotiationState};

verus! {

/// The outcome of applying `calls`, each a pair of initiator and proposal, one
/// after another from `s`: the final session if every call succeeds, else the
/// first failure.
pub open spec fn run(s: AlignmentNegotiation, calls: Seq<(Pubkey, Proposal)>) -> Result<
    AlignmentNegotiation,
    AlignmentError,
>
    decreases calls.len(),
{
    if calls.len() == 0 {
        Ok(s)
    } else {
        match applied(s, calls[0].0, calls[0].1) {
            Err(e) => Err(e),
            Ok(next) => run(next, calls.drop_first()),
        }
    }
}

/// Every attribute before `attribute` in the fixed order accepts its step.
pub open spec fn earlier_steps_succeed(
    s: AlignmentNegotiation,
    initiator: Pubkey,
    p: Proposal,
    attribute: Attribute,
) -> bool {
    forall|b: Attribute|
        attribute_rank(b) < attribute_rank(attribute) ==> (#[trigger] attribute_step(
            s,
            initiator,
            p,
            b,
        )) is Ok
}

/// The call is admitted past the session checks: the negotiation is open,
/// started, and `initiator` holds the turn.
pub open spec fn admitted(s: AlignmentNegotiation, initiator: Pubkey) -> bool {
    !s.is_complete && s.turn >= 1 && initiator == s.player()
}

/// Atomicity: if the step of any attribute fails, applying the proposal fails
/// and leaves the session exactly as it was; the failure reported is that of
/// the first failing attribute.
pub proof fn lemma_failed_step_aborts(
    s: AlignmentNegotiation,
    initiator: Pubkey,
    p: Proposal,
    attribute: Attribute,
)
    requires
        attribute_step(s, initiator, p, attribute) is Err,
    ensures
        applied(s, initiator, p) is Err,
        session_after(s, initiator, p) == s,
        admitted(s, initiator) && earlier_steps_succeed(s, initiator, p, attribute) ==> applied(
            s,
            initiator,
            p,
        ) == Err::<AlignmentNegotiation, AlignmentError>(
            attribute_step(s, initiator, p, attribute)->Err_0,
        ),
{
    if admitted(s, initiator) && earlier_steps_succeed(s, initiator, p, attribute) {
        assert(attribute_step(s, initiator, p, Attribute::Term) is Ok || attribute == Attribute::Term);
        assert(attribute_step(s, initiator, p, Attribute::Protocol) is Ok || attribute_rank(attribute) <= 1);
        assert(attribute_step(s, initiator, p, Attribute::Parameters) is Ok || attribute_rank(attribute) <= 2);
    }
}

/// No-op detection: a value equal to the stored one under a discuss event is
/// rejected with `ProposalHasNoChange`, whatever the attribute's state; the
/// call fails and changes nothing, and reports exactly that failure when it
/// is admitted and no earlier attribute fails.
pub proof fn lemma_unchanged_discussion_rejected(
    s: AlignmentNegotiation,
    initiator: Pubkey,
    p: Proposal,
    attribute: Attribute,
)
    requires
        is_present(p, attribute),
        is_unchanged(s, p, attribute),
        decoded(p.events, attribute) == NegotiationEvent::Discuss,
    ensures
        attribute_step(s, initiator, p, attribute) == Err::<NegotiationState, AlignmentError>(
            AlignmentError::ProposalHasNoChange,
        ),
        applied(s, initiator, p) is Err,
        session_after(s, initiator, p) == s,
        admitted(s, initiator) && earlier_steps_succeed(s, initiator, p, attribute) ==> applied(
            s,
            initiator,
            p,
        ) == Err::<AlignmentNegotiation, AlignmentError>(AlignmentError::ProposalHasNoChange),
{
    lemma_failed_step_aborts(s, initiator, p, attribute);
}

/// Unauthorized turn: on an open, started negotiation, a proposal from anyone
/// but the party holding the turn fails with `NotYourTurn` and changes nothing.
pub proof fn lemma_wrong_player_rejected(s: AlignmentNegotiation, initiator: Pubkey, p: Proposal)
    requires
        !s.is_complete,
        s.turn >= 1,
        initiator != s.player(),
    ensures
        applied(s, initiator, p) == Err::<AlignmentNegotiation, AlignmentError>(
            AlignmentError::NotYourTurn,
        ),
        session_after(s, initiator, p) == s,
{
}

/// One applied proposal passes the turn: the counter grows by one, the
/// parties stay, and the turn goes to the other party.
pub proof fn lemma_turn_passes(s: AlignmentNegotiation, initiator: Pubkey, p: Proposal)
    requires
        s.turn < u64::MAX,
        applied(s, initiator, p) is Ok,
    ensures
        initiator == s.player(),
        applied(s, initiator, p)->Ok_0.turn == s.turn + 1,
        applied(s, initiator, p)->Ok_0.parties == s.parties,
        applied(s, initiator, p)->Ok_0.player_index() == 1 - s.player_index(),
{
}

/// Turn alternation: after a run of successful proposals from turn `s.turn`,
/// the counter has grown by the number of calls, the parties are unchanged,
/// and the `k`-th call came from `parties[(s.turn - 1 + k) % 2]`; from turn 1
/// the calls alternate `parties[0]`, `parties[1]`, `parties[0]`, ...
pub proof fn lemma_turns_alternate(s: AlignmentNegotiation, calls: Seq<(Pubkey, Proposal)>)
    requires
        s.turn >= 1,
        s.turn + calls.len() <= u64::MAX,
        run(s, calls) is Ok,
    ensures
        run(s, calls)->Ok_0.turn == s.turn + calls.len(),
        run(s, calls)->Ok_0.parties == s.parties,
        forall|k: int|
            0 <= k < calls.len() ==> (#[trigger] calls[k]).0 == s.parties[(s.turn - 1 + k) % 2],
    decreases calls.len(),
{
    if calls.len() > 0 {
        let next = applied(s, calls[0].0, calls[0].1)->Ok_0;
        lemma_turn_passes(s, calls[0].0, calls[0].1);
        let rest = calls.drop_first();
        lemma_turns_alternate(next, rest);
        assert forall|k: int| 0 <= k < calls.len() implies (#[trigger] calls[k]).0 == s.parties[(
        s.turn - 1 + k) % 2] by {
            if k > 0 {
                assert(calls[k] == rest[k - 1]);
                assert((next.turn - 1 + (k - 1)) % 2 == (s.turn - 1 + k) % 2);
            }
        }
    }
}

/// Completion derivation: a successfully applied proposal leaves a session
/// whose completion flag is set exactly when all four attributes are accepted.
pub proof fn lemma_completion_recomputed(s: AlignmentNegotiation, initiator: Pubkey, p: Proposal)
    requires
        applied(s, initiator, p) is Ok,
    ensures
        applied(s, initiator, p)->Ok_0.wf(),
{
}

/// Completion derivation over every reachable session: setup and every run of
/// proposals keep the completion flag equal to "all four attributes accepted".
pub proof fn lemma_completion_invariant(
    s: AlignmentNegotiation,
    parties: [Pubkey; 2],
    calls: Seq<(Pubkey, Proposal)>,
)
    requires
        s.wf(),
    ensures
        started(s, parties) is Ok ==> started(s, parties)->Ok_0.wf(),
        run(s, calls) is Ok ==> run(s, calls)->Ok_0.wf(),
    decreases calls.len(),
{
    if calls.len() > 0 {
        if let Ok(next) = applied(s, calls[0].0, calls[0].1) {
            lemma_completion_invariant(next, parties, calls.drop_first());
        }
    }
}

/// An accepted attribute keeps its state through every applied proposal.
pub proof fn lemma_accepted_is_terminal(
    s: AlignmentNegotiation,
    initiator: Pubkey,
    p: Proposal,
    attribute: Attribute,
)
    requires
        s.state_of(attribute) is Accepted,
    ensures
        session_after(s, initiator, p).state_of(attribute) == s.state_of(attribute),
{
}

/// Double setup: once a setup has succeeded, a second one fails with
/// `NegotiationAlreadyStarted`, and the first setup's parties and turn stay.
pub proof fn lemma_second_setup_fails(
    s: AlignmentNegotiation,
    first: [Pubkey; 2],
    second: [Pubkey; 2],
)
    requires
        started(s, first) is Ok,
    ensures
        started(started(s, first)->Ok_0, second) == Err::<AlignmentNegotiation, AlignmentError>(
            AlignmentError::NegotiationAlreadyStarted,
        ),
        started(s, first)->Ok_0.parties == first,
        started(s, first)->Ok_0.turn == 1,
{
}

} // verus!
