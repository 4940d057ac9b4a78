//! The negotiation session: two parties, a turn counter and four attributes,
//! each with a stored value and a lifecycle state.
use vstd::prelude::*;

use crate::codec::{decoded, Attribute};
use crate::identity::{bytes_equal, Pubkey};
use crate::proposal::Proposal;
use crate::state::{transition, AlignmentError, NegotiationState};

verus! {

/// The record of one negotiation between two parties.
///
/// `turn` is 0 before setup, 1 after it, and grows by one with every applied
/// proposal. `is_complete` holds exactly when all four attributes are accepted.
#[derive(Clone, Copy, Debug)]
pub struct AlignmentNegotiation {
    pub parties: [Pubkey; 2],
    pub turn: u64,
    pub version: u8,
    pub mentoring_nft: Pubkey,
    pub alternatives: Pubkey,
    pub term: Pubkey,
    pub parameters: [u8; 32],
    pub protocol: Pubkey,
    pub stakes: u64,
    pub term_state: NegotiationState,
    pub protocol_state: NegotiationState,
    pub parameters_state: NegotiationState,
    pub stakes_state: NegotiationState,
    pub is_complete: bool,
}

/// Which attribute states an applied proposal changed.
#[derive(Clone, Copy, Debug, PartialEq, Eq, Structural)]
pub struct StateChanges {
    pub term: bool,
    pub protocol: bool,
    pub parameters: bool,
    pub stakes: bool,
}

impl AlignmentNegotiation {
    /// The lifecycle state of `attribute`.
    pub open spec fn state_of(self, attribute: Attribute) -> NegotiationState {
        match attribute {
            Attribute::Term => self.term_state,
            Attribute::Protocol => self.protocol_state,
            Attribute::Parameters => self.parameters_state,
            Attribute::Stake => self.stakes_state,
        }
    }

    /// All four attributes are accepted.
    pub open spec fn all_accepted(self) -> bool {
        &&& self.term_state is Accepted
        &&& self.protocol_state is Accepted
        &&& self.parameters_state is Accepted
        &&& self.stakes_state is Accepted
    }

    /// The completion flag agrees with the attribute states.
    pub open spec fn wf(self) -> bool {
        self.is_complete == self.all_accepted()
    }

    /// Index in `parties` of the party whose turn it is (for `turn >= 1`).
    pub open spec fn player_index(self) -> int {
        (self.turn - 1) % 2
    }

    /// The party whose turn it is (for `turn >= 1`).
    pub open spec fn player(self) -> Pubkey {
        self.parties[self.player_index()]
    }
}

/// The proposal carries a new value for `attribute`.
pub open spec fn is_present(p: Proposal, attribute: Attribute) -> bool {
    match attribute {
        Attribute::Term => p.term is Some,
        Attribute::Protocol => p.protocol is Some,
        Attribute::Parameters => p.parameters is Some,
        Attribute::Stake => p.stakes is Some,
    }
}

/// The proposal's value for `attribute` equals the stored one.
pub open spec fn is_unchanged(s: AlignmentNegotiation, p: Proposal, attribute: Attribute) -> bool {
    match attribute {
        Attribute::Term => p.term == Some(s.term),
        Attribute::Protocol => p.protocol == Some(s.protocol),
        Attribute::Parameters => p.parameters == Some(s.parameters),
        Attribute::Stake => p.stakes == Some(s.stakes),
    }
}

/// The candidate state of `attribute` under proposal `p` from `initiator`:
/// the current state when `p` carries no value for it, else the transition
/// for the decoded event.
pub open spec fn attribute_step(
    s: AlignmentNegotiation,
    initiator: Pubkey,
    p: Proposal,
    attribute: Attribute,
) -> Result<NegotiationState, AlignmentError> {
    if !is_present(p, attribute) {
        Ok(s.state_of(attribute))
    } else {
        transition(
            s.state_of(attribute),
            initiator,
            decoded(p.events, attribute),
            is_unchanged(s, p, attribute),
        )
    }
}

/// The session after committing `p` with the given new states: present values
/// are written, the turn advances by one and completion is recomputed.
pub open spec fn committed(
    s: AlignmentNegotiation,
    p: Proposal,
    term_state: NegotiationState,
    protocol_state: NegotiationState,
    parameters_state: NegotiationState,
    stakes_state: NegotiationState,
) -> AlignmentNegotiation {
    AlignmentNegotiation {
        turn: (s.turn + 1) as u64,
        term: if p.term is Some { p.term->0 } else { s.term },
        protocol: if p.protocol is Some { p.protocol->0 } else { s.protocol },
        parameters: if p.parameters is Some { p.parameters->0 } else { s.parameters },
        stakes: if p.stakes is Some { p.stakes->0 } else { s.stakes },
        term_state,
        protocol_state,
        parameters_state,
        stakes_state,
        is_complete: term_state is Accepted && protocol_state is Accepted
            && parameters_state is Accepted && stakes_state is Accepted,
        ..s
    }
}

/// The outcome of applying proposal `p` from `initiator` to `s`: the next
/// session, or the first violation, checked in the order: over, turn, term,
/// protocol, parameters, stake.
pub open spec fn applied(s: AlignmentNegotiation, initiator: Pubkey, p: Proposal) -> Result<
    AlignmentNegotiation,
    AlignmentError,
> {
    if s.is_complete {
        Err(AlignmentError::NegotiationAlreadyOver)
    } else if s.turn == 0 || initiator != s.player() {
        Err(AlignmentError::NotYourTurn)
    } else {
        match attribute_step(s, initiator, p, Attribute::Term) {
            Err(e) => Err(e),
            Ok(term_state) => match attribute_step(s, initiator, p, Attribute::Protocol) {
                Err(e) => Err(e),
                Ok(protocol_state) => match attribute_step(s, initiator, p, Attribute::Parameters) {
                    Err(e) => Err(e),
                    Ok(parameters_state) => match attribute_step(s, initiator, p, Attribute::Stake) {
                        Err(e) => Err(e),
                        Ok(stakes_state) => Ok(
                            committed(s, p, term_state, protocol_state, parameters_state, stakes_state),
                        ),
                    },
                },
            },
        }
    }
}

/// The session after applying `p` from `initiator` to `s`: the next session
/// on success, `s` itself on failure.
pub open spec fn session_after(s: AlignmentNegotiation, initiator: Pubkey, p: Proposal) -> AlignmentNegotiation {
    match applied(s, initiator, p) {
        Ok(next) => next,
        Err(_) => s,
    }
}

/// Which attribute states differ between `before` and `after`.
pub open spec fn changes_between(before: AlignmentNegotiation, after: AlignmentNegotiation) -> StateChanges {
    StateChanges {
        term: before.term_state != after.term_state,
        protocol: before.protocol_state != after.protocol_state,
        parameters: before.parameters_state != after.parameters_state,
        stakes: before.stakes_state != after.stakes_state,
    }
}

/// The outcome of setting up `s` between `parties`.
pub open spec fn started(s: AlignmentNegotiation, parties: [Pubkey; 2]) -> Result<
    AlignmentNegotiation,
    AlignmentError,
> {
    if s.turn != 0 {
        Err(AlignmentError::NegotiationAlreadyStarted)
    } else {
        Ok(
            AlignmentNegotiation {
                parties,
                turn: 1,
                is_complete: false,
                term_state: NegotiationState::Empty,
                protocol_state: NegotiationState::Empty,
                parameters_state: NegotiationState::Empty,
                stakes_state: NegotiationState::Empty,
                ..s
            },
        )
    }
}

impl AlignmentNegotiation {
    /// A record that has not been set up: every byte zero, every attribute empty.
    pub fn new() -> (r: AlignmentNegotiation)
        ensures
            r.turn == 0,
            r.version == 0,
            r.stakes == 0,
            r.parameters@ == Seq::new(32, |i: int| 0u8),
            r.term.bytes@ == Seq::new(32, |i: int| 0u8),
            r.protocol.bytes@ == Seq::new(32, |i: int| 0u8),
            r.term_state is Empty,
            r.protocol_state is Empty,
            r.parameters_state is Empty,
            r.stakes_state is Empty,
            !r.is_complete,
            r.wf(),
    {
        let zero = Pubkey::zero();
        let parameters: [u8; 32] = [0u8; 32];
        assert(parameters@ =~= Seq::new(32, |i: int| 0u8));
        AlignmentNegotiation {
            parties: [zero, zero],
            turn: 0,
            version: 0,
            mentoring_nft: zero,
            alternatives: zero,
            term: zero,
            parameters,
            protocol: zero,
            stakes: 0,
            term_state: NegotiationState::Empty,
            protocol_state: NegotiationState::Empty,
            parameters_state: NegotiationState::Empty,
            stakes_state: NegotiationState::Empty,
            is_complete: false,
        }
    }

    /// Starts the negotiation between `parties`: fails with
    /// `NegotiationAlreadyStarted`, changing nothing, when it has already
    /// started; otherwise sets the parties, sets the turn to 1, clears the
    /// completion flag and empties every attribute state.
    pub fn start(&mut self, parties: [Pubkey; 2]) -> (r: Result<(), AlignmentError>)
        ensures
            match started(*old(self), parties) {
                Ok(next) => r is Ok && *final(self) == next,
                Err(e) => r == Err::<(), AlignmentError>(e) && *final(self) == *old(self),
            },
            r is Err <==> old(self).turn != 0,
            r is Ok ==> final(self).wf(),
    {
        if self.turn != 0 {
            return Err(AlignmentError::NegotiationAlreadyStarted);
        }
        self.parties = parties;
        self.turn = 1;
        self.is_complete = false;
        self.term_state = NegotiationState::Empty;
        self.protocol_state = NegotiationState::Empty;
        self.parameters_state = NegotiationState::Empty;
        self.stakes_state = NegotiationState::Empty;
        Ok(())
    }

    /// Whether any attribute is still open.
    pub fn is_negotiating(&self) -> (r: bool)
        ensures
            r == !self.all_accepted(),
    {
        self.term_state.is_negotiating() || self.protocol_state.is_negotiating()
            || self.parameters_state.is_negotiating() || self.stakes_state.is_negotiating()
    }

    /// Index in `parties` of the party whose turn it is.
    pub fn current_player_index(&self) -> (r: usize)
        requires
            self.turn >= 1,
        ensures
            r == self.player_index(),
            r < 2,
    {
        ((self.turn - 1) % 2) as usize
    }

    /// The party whose turn it is.
    pub fn current_player(&self) -> (r: Pubkey)
        requires
            self.turn >= 1,
        ensures
            r == self.player(),
    {
        self.parties[self.current_player_index()]
    }

    /// Applies `proposal` from `initiator` as one atomic step.
    ///
    /// Fails with `NegotiationAlreadyOver` when the negotiation is complete,
    /// with `NotYourTurn` when the negotiation has not been set up or
    /// `initiator` is not the party whose turn it is, and otherwise with the first violation among the attributes for which
    /// the proposal carries a value. On failure nothing changes. On success the
    /// present values and all new states are written, the turn advances by one,
    /// completion is recomputed, and the states that changed are reported.
    pub fn negotiate(&mut self, initiator: Pubkey, proposal: &Proposal) -> (r: Result<
        StateChanges,
        AlignmentError,
    >)
        requires
            old(self).turn < u64::MAX,
        ensures
            match applied(*old(self), initiator, *proposal) {
                Ok(next) => *final(self) == next && r == Ok::<StateChanges, AlignmentError>(
                    changes_between(*old(self), next),
                ),
                Err(e) => *final(self) == *old(self) && r == Err::<StateChanges, AlignmentError>(
                    e,
                ),
            },
            *final(self) == session_after(*old(self), initiator, *proposal),
    {
        if self.is_complete {
            return Err(AlignmentError::NegotiationAlreadyOver);
        }
        if self.turn == 0 {
            return Err(AlignmentError::NotYourTurn);
        }
        let player = self.current_player();
        if !(initiator == player) {
            return Err(AlignmentError::NotYourTurn);
        }
        let new_term_state = match proposal.term {
            Some(value) => match self.term_state.update(
                initiator,
                proposal.get_term_event(),
                value == self.term,
            ) {
                Ok(next) => next,
                Err(e) => return Err(e),
            },
            None => self.term_state,
        };
        let new_protocol_state = match proposal.protocol {
            Some(value) => match self.protocol_state.update(
                initiator,
                proposal.get_protocol_event(),
                value == self.protocol,
            ) {
                Ok(next) => next,
                Err(e) => return Err(e),
            },
            None => self.protocol_state,
        };
        let new_parameters_state = match proposal.parameters {
            Some(value) => match self.parameters_state.update(
                initiator,
                proposal.get_parameters_event(),
                bytes_equal(&value, &self.parameters),
            ) {
                Ok(next) => next,
                Err(e) => return Err(e),
            },
            None => self.parameters_state,
        };
        let new_stakes_state = match proposal.stakes {
            Some(value) => match self.stakes_state.update(
                initiator,
                proposal.get_stakes_event(),
                value == self.stakes,
            ) {
                Ok(next) => next,
                Err(e) => return Err(e),
            },
            None => self.stakes_state,
        };
        let changes = StateChanges {
            term: !(new_term_state == self.term_state),
            protocol: !(new_protocol_state == self.protocol_state),
            parameters: !(new_parameters_state == self.parameters_state),
            stakes: !(new_stakes_state == self.stakes_state),
        };
        if let Some(value) = proposal.term {
            self.term = value;
        }
        if let Some(value) = proposal.protocol {
            self.protocol = value;
        }
        if let Some(value) = proposal.parameters {
            self.parameters = value;
        }
        if let Some(value) = proposal.stakes {
            self.stakes = value;
        }
        self.term_state = new_term_state;
        self.protocol_state = new_protocol_state;
        self.parameters_state = new_parameters_state;
        self.stakes_state = new_stakes_state;
        self.turn = self.turn + 1;
        self.update_state();
        Ok(changes)
    }

    /// Recomputes the completion flag from the attribute states.
    fn update_state(&mut self)
        ensures
            *final(self) == (AlignmentNegotiation { is_complete: old(self).all_accepted(), ..*old(self) }),
    {
        self.is_complete = !self.is_negotiating();
    }
}

} // verus!
