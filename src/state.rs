//! The lifecycle of a single negotiable attribute.
use vstd::prelude::*;

use crate::codec::NegotiationEvent;
use crate::identity::Pubkey;

verus! {

/// Failures surfaced by the negotiation.
#[derive(Clone, Copy, Debug, PartialEq, Eq, Structural)]
pub enum AlignmentError {
    /// Reserved for validation of the protocol value; not raised by any transition.
    InvalidNegotiationProtocol,
    /// Reserved for validation of the term value; not raised by any transition.
    InvalidMentoringTerm,
    /// A discuss or propose event carries the value already stored.
    ProposalHasNoChange,
    /// A propose event reached an attribute that is already proposed or reviewed.
    ProposalAlreadySent,
    /// A review event reached an attribute that is already reviewed.
    ProposalAlreadyReceived,
    /// Reserved; not raised by any transition.
    ProposalAlreadyRejected,
    /// An event reached an attribute that is already accepted.
    ProposalAlreadyAccepted,
    /// Every attribute is accepted: the negotiation is over.
    NegotiationAlreadyOver,
    /// The caller is not the party whose turn it is.
    NotYourTurn,
    /// The negotiation has already been set up.
    NegotiationAlreadyStarted,
}

/// The lifecycle state of one attribute. `Accepted` is terminal.
///
/// The recorded identities serve auditing only.
#[derive(Clone, Copy, Debug)]
pub enum NegotiationState {
    Empty,
    Discussion,
    Proposed { proposer: Pubkey },
    Reviewed { proposee: Pubkey },
    Accepted { proposee: Pubkey },
}

/// The state an attribute moves to when `initiator` applies `event` to it, or
/// the violation that forbids the move. `unchanged` tells whether the proposed
/// value equals the value already stored.
///
/// No event leaves `Accepted`.
pub open spec fn transition(
    state: NegotiationState,
    initiator: Pubkey,
    event: NegotiationEvent,
    unchanged: bool,
) -> Result<NegotiationState, AlignmentError> {
    match event {
        NegotiationEvent::Discuss => {
            if unchanged {
                Err(AlignmentError::ProposalHasNoChange)
            } else if state is Accepted {
                Err(AlignmentError::ProposalAlreadyAccepted)
            } else {
                Ok(NegotiationState::Discussion)
            }
        },
        NegotiationEvent::Propose => {
            if unchanged {
                Err(AlignmentError::ProposalHasNoChange)
            } else if state is Proposed || state is Reviewed {
                Err(AlignmentError::ProposalAlreadySent)
            } else if state is Accepted {
                Err(AlignmentError::ProposalAlreadyAccepted)
            } else {
                Ok(NegotiationState::Proposed { proposer: initiator })
            }
        },
        NegotiationEvent::Review => {
            if state is Reviewed {
                Err(AlignmentError::ProposalAlreadyReceived)
            } else if state is Accepted {
                Err(AlignmentError::ProposalAlreadyAccepted)
            } else {
                Ok(NegotiationState::Reviewed { proposee: initiator })
            }
        },
        NegotiationEvent::Accept => {
            if state is Accepted {
                Err(AlignmentError::ProposalAlreadyAccepted)
            } else {
                Ok(NegotiationState::Accepted { proposee: initiator })
            }
        },
        NegotiationEvent::Decline => {
            if state is Accepted {
                Err(AlignmentError::ProposalAlreadyAccepted)
            } else {
                Ok(NegotiationState::Discussion)
            }
        },
    }
}

impl NegotiationState {
    /// A lower-case name of the state, for display.
    pub fn display(self) -> (r: String)
        ensures
            r@ == match self {
                NegotiationState::Empty => "empty"@,
                NegotiationState::Discussion => "discussion"@,
                NegotiationState::Proposed { .. } => "proposed"@,
                NegotiationState::Reviewed { .. } => "reviewed"@,
                NegotiationState::Accepted { .. } => "accepted"@,
            },
    {
        match self {
            NegotiationState::Empty => "empty".to_string(),
            NegotiationState::Discussion => "discussion".to_string(),
            NegotiationState::Proposed { .. } => "proposed".to_string(),
            NegotiationState::Reviewed { .. } => "reviewed".to_string(),
            NegotiationState::Accepted { .. } => "accepted".to_string(),
        }
    }

    /// Applies `event`, caused by `initiator`, to this state. `unchanged` tells
    /// whether the proposed value equals the value already stored.
    pub fn update(&self, initiator: Pubkey, event: NegotiationEvent, unchanged: bool) -> (r: Result<
        NegotiationState,
        AlignmentError,
    >)
        ensures
            r == transition(*self, initiator, event, unchanged),
    {
        match event {
            NegotiationEvent::Discuss => {
                if unchanged {
                    Err(AlignmentError::ProposalHasNoChange)
                } else if self.is_accepted() {
                    Err(AlignmentError::ProposalAlreadyAccepted)
                } else {
                    Ok(NegotiationState::Discussion)
                }
            },
            NegotiationEvent::Propose => {
                if unchanged {
                    Err(AlignmentError::ProposalHasNoChange)
                } else if self.is_proposed() || self.is_reviewed() {
                    Err(AlignmentError::ProposalAlreadySent)
                } else if self.is_accepted() {
                    Err(AlignmentError::ProposalAlreadyAccepted)
                } else {
                    Ok(NegotiationState::Proposed { proposer: initiator })
                }
            },
            NegotiationEvent::Review => {
                if self.is_reviewed() {
                    Err(AlignmentError::ProposalAlreadyReceived)
                } else if self.is_accepted() {
                    Err(AlignmentError::ProposalAlreadyAccepted)
                } else {
                    Ok(NegotiationState::Reviewed { proposee: initiator })
                }
            },
            NegotiationEvent::Accept => {
                if self.is_accepted() {
                    Err(AlignmentError::ProposalAlreadyAccepted)
                } else {
                    Ok(NegotiationState::Accepted { proposee: initiator })
                }
            },
            NegotiationEvent::Decline => {
                if self.is_accepted() {
                    Err(AlignmentError::ProposalAlreadyAccepted)
                } else {
                    Ok(NegotiationState::Discussion)
                }
            },
        }
    }

    /// Whether a proposal is pending.
    pub fn is_proposed(&self) -> (r: bool)
        ensures
            r == (*self is Proposed),
    {
        match self {
            NegotiationState::Proposed { .. } => true,
            _ => false,
        }
    }

    /// Whether a proposal has been reviewed.
    pub fn is_reviewed(&self) -> (r: bool)
        ensures
            r == (*self is Reviewed),
    {
        match self {
            NegotiationState::Reviewed { .. } => true,
            _ => false,
        }
    }

    /// Whether the attribute has been accepted.
    pub fn is_accepted(&self) -> (r: bool)
        ensures
            r == (*self is Accepted),
    {
        match self {
            NegotiationState::Accepted { .. } => true,
            _ => false,
        }
    }

    /// Whether the attribute is still open, that is, not accepted.
    pub fn is_negotiating(&self) -> (r: bool)
        ensures
            r == !(*self is Accepted),
    {
        match self {
            NegotiationState::Accepted { .. } => false,
            _ => true,
        }
    }
}

impl PartialEq for NegotiationState {
    fn eq(&self, other: &NegotiationState) -> (r: bool) {
        match (self, other) {
            (NegotiationState::Empty, NegotiationState::Empty) => true,
            (NegotiationState::Discussion, NegotiationState::Discussion) => true,
            (
                NegotiationState::Proposed { proposer: a },
                NegotiationState::Proposed { proposer: b },
            ) => a.eq(b),
            (
                NegotiationState::Reviewed { proposee: a },
                NegotiationState::Reviewed { proposee: b },
            ) => a.eq(b),
            (
                NegotiationState::Accepted { proposee: a },
                NegotiationState::Accepted { proposee: b },
            ) => a.eq(b),
            _ => false,
        }
    }
}

impl vstd::std_specs::cmp::PartialEqSpecImpl for NegotiationState {
    open spec fn obeys_eq_spec() -> bool {
        true
    }

    open spec fn eq_spec(&self, other: &NegotiationState) -> bool {
        *self == *other
    }
}

} // verus!
