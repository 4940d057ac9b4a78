//! The inbound message of one turn.
use vstd::prelude::*;

use crate::codec::{decode, decoded, Attribute, NegotiationEvent};
use crate::identity::Pubkey;

verus! {

/// One turn's message: an optional new value per attribute (absent means no
/// change is requested) and the packed event word. The two alternatives are
/// advisory and are not read by the negotiation.
#[derive(Clone, Copy, Debug)]
pub struct Proposal {
    pub term: Option<Pubkey>,
    pub parameters: Option<[u8; 32]>,
    pub protocol: Option<Pubkey>,
    pub stakes: Option<u64>,
    pub events: u16,
    pub alt_term: Option<Pubkey>,
    pub alt_protocol: Option<Pubkey>,
}

impl Proposal {
    /// The event carried for the term.
    pub fn get_term_event(&self) -> (r: NegotiationEvent)
        ensures
            r == decoded(self.events, Attribute::Term),
    {
        decode(self.events, Attribute::Term)
    }

    /// The event carried for the protocol.
    pub fn get_protocol_event(&self) -> (r: NegotiationEvent)
        ensures
            r == decoded(self.events, Attribute::Protocol),
    {
        decode(self.events, Attribute::Protocol)
    }

    /// The event carried for the parameters.
    pub fn get_parameters_event(&self) -> (r: NegotiationEvent)
        ensures
            r == decoded(self.events, Attribute::Parameters),
    {
        decode(self.events, Attribute::Parameters)
    }

    /// The event carried for the stake.
    pub fn get_stakes_event(&self) -> (r: NegotiationEvent)
        ensures
            r == decoded(self.events, Attribute::Stake),
    {
        decode(self.events, Attribute::Stake)
    }
}

} // verus!
