//! Decoding of the packed 16-bit event word carried by a proposal.
//!
//! The word is split into four 4-bit groups, one per attribute, in the order
//! `[term][protocol][parameters][stake]` from the most significant end. Inside a
//! group the bits are, from the most significant, `[discuss][propose][review][accept]`.
use vstd::prelude::*;

verus! {

/// A logical event that can be applied to one negotiable attribute.
#[derive(Clone, Copy, Debug, PartialEq, Eq, Structural)]
pub enum NegotiationEvent {
    /// Continue or restart open discussion.
    Discuss,
    /// Commit to a new proposal.
    Propose,
    /// Receive a proposal for review.
    Review,
    /// Accept the proposal.
    Accept,
    /// Return a proposal to discussion. It has no encoding in the event word.
    Decline,
}

/// One of the four negotiable attributes of a session.
#[derive(Clone, Copy, Debug, PartialEq, Eq, Structural)]
pub enum Attribute {
    Term,
    Protocol,
    Parameters,
    Stake,
}

/// Flag of the discuss event inside a group.
pub const DISCUSS_FLAG: u16 = 0b1000;
/// Flag of the propose event inside a group.
pub const PROPOSE_FLAG: u16 = 0b0100;
/// Flag of the review event inside a group.
pub const REVIEW_FLAG: u16 = 0b0010;
/// Flag of the accept event inside a group.
pub const ACCEPT_FLAG: u16 = 0b0001;

/// Position of an attribute in the fixed order term, protocol, parameters, stake.
pub open spec fn attribute_rank(attribute: Attribute) -> int {
    match attribute {
        Attribute::Term => 0,
        Attribute::Protocol => 1,
        Attribute::Parameters => 2,
        Attribute::Stake => 3,
    }
}

/// Place value of the lowest bit of an attribute's group.
pub open spec fn group_place(attribute: Attribute) -> int {
    match attribute {
        Attribute::Term => 4096,
        Attribute::Protocol => 256,
        Attribute::Parameters => 16,
        Attribute::Stake => 1,
    }
}

/// The 4-bit group of `word` that belongs to `attribute`, as a number in `0..16`.
pub open spec fn group_of(word: u16, attribute: Attribute) -> int {
    (word as int / group_place(attribute)) % 16
}

/// The event a group stands for: the highest set flag wins, and an empty group
/// means discussion.
pub open spec fn event_of_group(group: int) -> NegotiationEvent {
    if group >= 8 {
        NegotiationEvent::Discuss
    } else if group >= 4 {
        NegotiationEvent::Propose
    } else if group >= 2 {
        NegotiationEvent::Review
    } else if group == 1 {
        NegotiationEvent::Accept
    } else {
        NegotiationEvent::Discuss
    }
}

/// The event that `word` carries for `attribute`.
pub open spec fn decoded(word: u16, attribute: Attribute) -> NegotiationEvent {
    event_of_group(group_of(word, attribute))
}

/// Testing a flag of a group below 16 is comparing the group with the flag's value.
proof fn lemma_flags(group: u16)
    requires
        group < 16,
    ensures
        (group & DISCUSS_FLAG != 0) == (group >= 8),
        group < 8 ==> ((group & PROPOSE_FLAG != 0) == (group >= 4)),
        group < 4 ==> ((group & REVIEW_FLAG != 0) == (group >= 2)),
        group < 2 ==> ((group & ACCEPT_FLAG != 0) == (group == 1)),
{
    assert((group & 0b1000u16 != 0) == (group >= 8)) by (bit_vector)
        requires
            group < 16,
    ;
    assert(group < 8 ==> ((group & 0b0100u16 != 0) == (group >= 4))) by (bit_vector);
    assert(group < 4 ==> ((group & 0b0010u16 != 0) == (group >= 2))) by (bit_vector);
    assert(group < 2 ==> ((group & 0b0001u16 != 0) == (group == 1))) by (bit_vector);
}

/// Extracts the group of `attribute` from `word` by shifting and masking.
fn group_bits(word: u16, attribute: Attribute) -> (group: u16)
    ensures
        group as int == group_of(word, attribute),
        group < 16,
{
    match attribute {
        Attribute::Term => {
            assert((word >> 12u16) & 0xfu16 == (word / 4096) % 16) by (bit_vector);
            (word >> 12u16) & 0xf
        },
        Attribute::Protocol => {
            assert((word >> 8u16) & 0xfu16 == (word / 256) % 16) by (bit_vector);
            (word >> 8u16) & 0xf
        },
        Attribute::Parameters => {
            assert((word >> 4u16) & 0xfu16 == (word / 16) % 16) by (bit_vector);
            (word >> 4u16) & 0xf
        },
        Attribute::Stake => {
            assert(word & 0xfu16 == word % 16) by (bit_vector);
            word & 0xf
        },
    }
}

/// Decodes the event that `word` carries for `attribute`.
///
/// Never fails: when several flags of the group are set the first of discuss,
/// propose, review, accept wins, and a group with no flag set means discuss.
pub fn decode(word: u16, attribute: Attribute) -> (event: NegotiationEvent)
    ensures
        event == decoded(word, attribute),
        event != NegotiationEvent::Decline,
{
    let group: u16 = group_bits(word, attribute);
    proof {
        lemma_flags(group);
    }
    if group & DISCUSS_FLAG != 0 {
        NegotiationEvent::Discuss
    } else if group & PROPOSE_FLAG != 0 {
        NegotiationEvent::Propose
    } else if group & REVIEW_FLAG != 0 {
        NegotiationEvent::Review
    } else if group & ACCEPT_FLAG != 0 {
        NegotiationEvent::Accept
    } else {
        NegotiationEvent::Discuss
    }
}

} // verus!
