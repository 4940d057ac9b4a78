use alignment_negotiation::codec::{decode, Attribute, NegotiationEvent};
use alignment_negotiation::identity::{bytes_equal, Pubkey};
use alignment_negotiation::instructions::{propose, setup_negotation};
use alignment_negotiation::negotiation::{AlignmentNegotiation, StateChanges};
use alignment_negotiation::proposal::Proposal;
use alignment_negotiation::state::{AlignmentError, NegotiationState};

const DISCUSS_ALL: u16 = 0b1000_1000_1000_1000;
const PROPOSE_ALL: u16 = 0b0100_0100_0100_0100;
const REVIEW_ALL: u16 = 0b0010_0010_0010_0010;
const ACCEPT_ALL: u16 = 0b0001_0001_0001_0001;

fn key(b: u8) -> Pubkey {
    Pubkey::new([b; 32])
}

fn apprentice() -> Pubkey {
    key(1)
}

fn mentor() -> Pubkey {
    key(2)
}

fn empty_proposal(events: u16) -> Proposal {
    Proposal {
        term: None,
        parameters: None,
        protocol: None,
        stakes: None,
        events,
        alt_term: None,
        alt_protocol: None,
    }
}

fn full_proposal(events: u16, seed: u8) -> Proposal {
    Proposal {
        term: Some(key(seed)),
        parameters: Some([seed; 32]),
        protocol: Some(key(seed.wrapping_add(100))),
        stakes: Some(seed as u64 * 10),
        events,
        alt_term: None,
        alt_protocol: None,
    }
}

fn started_session() -> AlignmentNegotiation {
    let mut n = AlignmentNegotiation::new();
    setup_negotation(&mut n, apprentice(), mentor()).unwrap();
    n
}

fn player_for(n: &AlignmentNegotiation) -> Pubkey {
    n.current_player()
}

#[test]
fn decode_literal_word() {
    let word: u16 = 0b1000_0100_0010_0001;
    assert_eq!(decode(word, Attribute::Term), NegotiationEvent::Discuss);
    assert_eq!(decode(word, Attribute::Protocol), NegotiationEvent::Propose);
    assert_eq!(decode(word, Attribute::Parameters), NegotiationEvent::Review);
    assert_eq!(decode(word, Attribute::Stake), NegotiationEvent::Accept);
}

#[test]
fn decode_zero_word_defaults_to_discuss() {
    assert_eq!(decode(0, Attribute::Term), NegotiationEvent::Discuss);
    assert_eq!(decode(0, Attribute::Protocol), NegotiationEvent::Discuss);
    assert_eq!(decode(0, Attribute::Parameters), NegotiationEvent::Discuss);
    assert_eq!(decode(0, Attribute::Stake), NegotiationEvent::Discuss);
}

#[test]
fn decode_priority_within_group() {
    assert_eq!(decode(0b1111_0000_0000_0000, Attribute::Term), NegotiationEvent::Discuss);
    assert_eq!(decode(0b0111_0000_0000_0000, Attribute::Term), NegotiationEvent::Propose);
    assert_eq!(decode(0b0000_0011_0000_0000, Attribute::Protocol), NegotiationEvent::Review);
    assert_eq!(decode(0b0000_0000_0001_0000, Attribute::Parameters), NegotiationEvent::Accept);
    assert_eq!(decode(0b0000_0000_0000_0101, Attribute::Stake), NegotiationEvent::Propose);
}

#[test]
fn decode_groups_are_independent() {
    // A propose flag in the term group says nothing about the protocol.
    let word: u16 = 0b0100_0000_0000_0000;
    assert_eq!(decode(word, Attribute::Term), NegotiationEvent::Propose);
    assert_eq!(decode(word, Attribute::Protocol), NegotiationEvent::Discuss);
}

#[test]
fn proposal_event_getters() {
    let p = empty_proposal(0b1000_0100_0010_0001);
    assert_eq!(p.get_term_event(), NegotiationEvent::Discuss);
    assert_eq!(p.get_protocol_event(), NegotiationEvent::Propose);
    assert_eq!(p.get_parameters_event(), NegotiationEvent::Review);
    assert_eq!(p.get_stakes_event(), NegotiationEvent::Accept);
}

#[test]
fn pubkey_equality_compares_bytes() {
    let mut bytes = [7u8; 32];
    assert_eq!(Pubkey::new(bytes), Pubkey::new(bytes));
    bytes[31] = 8;
    assert_ne!(Pubkey::new(bytes), key(7));
    assert!(bytes_equal(&[3u8; 32], &[3u8; 32]));
    assert!(!bytes_equal(&[3u8; 32], &bytes));
    assert_eq!(key(9).to_bytes(), [9u8; 32]);
    assert_eq!(Pubkey::zero().to_bytes(), [0u8; 32]);
}

#[test]
fn state_display_names() {
    assert_eq!(NegotiationState::Empty.display(), "empty");
    assert_eq!(NegotiationState::Discussion.display(), "discussion");
    assert_eq!(NegotiationState::Proposed { proposer: key(1) }.display(), "proposed");
    assert_eq!(NegotiationState::Reviewed { proposee: key(1) }.display(), "reviewed");
    assert_eq!(NegotiationState::Accepted { proposee: key(1) }.display(), "accepted");
}

#[test]
fn state_predicates() {
    let p = NegotiationState::Proposed { proposer: key(1) };
    let r = NegotiationState::Reviewed { proposee: key(1) };
    let a = NegotiationState::Accepted { proposee: key(1) };
    assert!(p.is_proposed() && !p.is_reviewed() && !p.is_accepted() && p.is_negotiating());
    assert!(r.is_reviewed() && !r.is_proposed());
    assert!(a.is_accepted() && !a.is_negotiating());
    assert!(NegotiationState::Empty.is_negotiating());
}

#[test]
fn update_discuss_rules() {
    let s = NegotiationState::Proposed { proposer: key(1) };
    assert_eq!(
        s.update(key(2), NegotiationEvent::Discuss, true),
        Err(AlignmentError::ProposalHasNoChange)
    );
    assert_eq!(s.update(key(2), NegotiationEvent::Discuss, false), Ok(NegotiationState::Discussion));
}

#[test]
fn update_propose_rules() {
    let who = key(3);
    assert_eq!(
        NegotiationState::Discussion.update(who, NegotiationEvent::Propose, false),
        Ok(NegotiationState::Proposed { proposer: who })
    );
    assert_eq!(
        NegotiationState::Empty.update(who, NegotiationEvent::Propose, true),
        Err(AlignmentError::ProposalHasNoChange)
    );
    assert_eq!(
        NegotiationState::Proposed { proposer: key(1) }.update(who, NegotiationEvent::Propose, false),
        Err(AlignmentError::ProposalAlreadySent)
    );
    assert_eq!(
        NegotiationState::Reviewed { proposee: key(1) }.update(who, NegotiationEvent::Propose, false),
        Err(AlignmentError::ProposalAlreadySent)
    );
}

#[test]
fn update_review_allows_self_review() {
    let who = key(4);
    let proposed = NegotiationState::Proposed { proposer: who };
    assert_eq!(
        proposed.update(who, NegotiationEvent::Review, true),
        Ok(NegotiationState::Reviewed { proposee: who })
    );
    assert_eq!(
        NegotiationState::Reviewed { proposee: who }.update(who, NegotiationEvent::Review, false),
        Err(AlignmentError::ProposalAlreadyReceived)
    );
}

#[test]
fn update_accept_and_decline_rules() {
    let who = key(5);
    let reviewed = NegotiationState::Reviewed { proposee: key(1) };
    assert_eq!(
        reviewed.update(who, NegotiationEvent::Accept, true),
        Ok(NegotiationState::Accepted { proposee: who })
    );
    assert_eq!(reviewed.update(who, NegotiationEvent::Decline, true), Ok(NegotiationState::Discussion));
    let accepted = NegotiationState::Accepted { proposee: key(1) };
    assert_eq!(
        accepted.update(who, NegotiationEvent::Accept, true),
        Err(AlignmentError::ProposalAlreadyAccepted)
    );
    assert_eq!(
        accepted.update(who, NegotiationEvent::Decline, false),
        Err(AlignmentError::ProposalAlreadyAccepted)
    );
}

#[test]
fn accepted_state_is_terminal() {
    let accepted = NegotiationState::Accepted { proposee: key(1) };
    for event in [
        NegotiationEvent::Discuss,
        NegotiationEvent::Propose,
        NegotiationEvent::Review,
        NegotiationEvent::Accept,
        NegotiationEvent::Decline,
    ] {
        assert_eq!(accepted.update(key(2), event, false), Err(AlignmentError::ProposalAlreadyAccepted));
    }
}

#[test]
fn new_session_is_not_started() {
    let n = AlignmentNegotiation::new();
    assert_eq!(n.turn, 0);
    assert!(!n.is_complete);
    assert!(n.is_negotiating());
    assert_eq!(n.term_state, NegotiationState::Empty);
    assert_eq!(n.stakes, 0);
}

#[test]
fn setup_sets_parties_and_turn() {
    let n = started_session();
    assert_eq!(n.turn, 1);
    assert_eq!(n.parties, [apprentice(), mentor()]);
    assert_eq!(n.current_player_index(), 0);
    assert_eq!(n.current_player(), apprentice());
    assert!(!n.is_complete);
}

#[test]
fn double_setup_fails() {
    let mut n = started_session();
    let before = n;
    assert_eq!(
        setup_negotation(&mut n, key(8), key(9)),
        Err(AlignmentError::NegotiationAlreadyStarted)
    );
    assert_eq!(n.parties, before.parties);
    assert_eq!(n.turn, 1);
    let mut m = started_session();
    assert_eq!(m.start([key(8), key(9)]), Err(AlignmentError::NegotiationAlreadyStarted));
}

#[test]
fn unchanged_discussion_is_rejected() {
    let mut n = started_session();
    let stored = n.term;
    let mut p = empty_proposal(0);
    p.term = Some(stored);
    let before = n;
    assert_eq!(propose(&mut n, apprentice(), p), Err(AlignmentError::ProposalHasNoChange));
    assert_eq!(n.turn, before.turn);
    assert_eq!(n.term_state, before.term_state);
    assert_eq!(n.term, before.term);
}

#[test]
fn unchanged_stake_discussion_is_rejected() {
    let mut n = started_session();
    let mut p = empty_proposal(DISCUSS_ALL);
    p.stakes = Some(0);
    assert_eq!(propose(&mut n, apprentice(), p), Err(AlignmentError::ProposalHasNoChange));
    assert_eq!(n.turn, 1);
}

#[test]
fn wrong_player_is_rejected() {
    let mut n = started_session();
    let before = n;
    let p = full_proposal(DISCUSS_ALL, 10);
    assert_eq!(propose(&mut n, mentor(), p), Err(AlignmentError::NotYourTurn));
    assert_eq!(propose(&mut n, key(77), p), Err(AlignmentError::NotYourTurn));
    assert_eq!(n.turn, before.turn);
    assert_eq!(n.term, before.term);
    assert_eq!(n.term_state, before.term_state);
}

#[test]
fn proposal_before_setup_is_rejected() {
    let mut n = AlignmentNegotiation::new();
    let p = full_proposal(DISCUSS_ALL, 10);
    assert_eq!(n.negotiate(key(0), &p), Err(AlignmentError::NotYourTurn));
    assert_eq!(n.turn, 0);
}

#[test]
fn turns_alternate_and_count() {
    let mut n = started_session();
    let expected = [apprentice(), mentor(), apprentice(), mentor(), apprentice()];
    for (i, who) in expected.iter().enumerate() {
        assert_eq!(n.current_player(), *who);
        assert_eq!(n.current_player_index(), i % 2);
        let p = empty_proposal(0);
        assert!(propose(&mut n, *who, p).is_ok());
        assert_eq!(n.turn, 2 + i as u64);
    }
    assert_eq!(n.turn, 1 + expected.len() as u64);
}

#[test]
fn failed_attribute_leaves_session_unchanged() {
    let mut n = started_session();
    // First move every attribute into discussion.
    propose(&mut n, apprentice(), full_proposal(DISCUSS_ALL, 10)).unwrap();
    let before = n;
    // Term would move on, but the protocol value is the stored one.
    let mut p = empty_proposal(DISCUSS_ALL);
    p.term = Some(key(200));
    p.protocol = Some(before.protocol);
    assert_eq!(propose(&mut n, mentor(), p), Err(AlignmentError::ProposalHasNoChange));
    assert_eq!(n.turn, before.turn);
    assert_eq!(n.term, before.term);
    assert_eq!(n.term_state, before.term_state);
    assert_eq!(n.protocol_state, before.protocol_state);
    assert_eq!(n.is_complete, before.is_complete);
}

#[test]
fn first_failing_attribute_is_reported() {
    let mut n = started_session();
    propose(&mut n, apprentice(), full_proposal(PROPOSE_ALL, 10)).unwrap();
    // Term is proposed again (already sent); stake repeats its value (no change).
    let mut p = empty_proposal(PROPOSE_ALL);
    p.term = Some(key(99));
    p.stakes = Some(100);
    assert_eq!(propose(&mut n, mentor(), p), Err(AlignmentError::ProposalAlreadySent));
}

#[test]
fn double_review_is_rejected() {
    let mut n = started_session();
    propose(&mut n, apprentice(), full_proposal(PROPOSE_ALL, 10)).unwrap();
    propose(&mut n, mentor(), full_proposal(REVIEW_ALL, 10)).unwrap();
    assert_eq!(
        propose(&mut n, apprentice(), full_proposal(REVIEW_ALL, 10)),
        Err(AlignmentError::ProposalAlreadyReceived)
    );
    assert_eq!(n.turn, 3);
}

#[test]
fn accepted_attribute_cannot_move() {
    let mut n = started_session();
    let mut p = empty_proposal(ACCEPT_ALL);
    p.term = Some(key(50));
    propose(&mut n, apprentice(), p).unwrap();
    assert_eq!(n.term_state, NegotiationState::Accepted { proposee: apprentice() });
    assert!(!n.is_complete);
    let mut again = empty_proposal(DISCUSS_ALL);
    again.term = Some(key(51));
    assert_eq!(propose(&mut n, mentor(), again), Err(AlignmentError::ProposalAlreadyAccepted));
    assert_eq!(n.term, key(50));
}

#[test]
fn applied_proposal_reports_changes_and_values() {
    let mut n = started_session();
    let mut p = empty_proposal(0b0100_0000_0000_0000);
    p.term = Some(key(42));
    let changes = propose(&mut n, apprentice(), p).unwrap();
    assert_eq!(
        changes,
        StateChanges { term: true, protocol: false, parameters: false, stakes: false }
    );
    assert_eq!(n.term, key(42));
    assert_eq!(n.term_state, NegotiationState::Proposed { proposer: apprentice() });
    assert_eq!(n.protocol_state, NegotiationState::Empty);
    // A second discussion of a new value keeps the same state: no change reported.
    let mut q = empty_proposal(0b1000_0000_0000_0000);
    q.term = Some(key(43));
    propose(&mut n, mentor(), q).unwrap();
    let mut r = empty_proposal(0b1000_0000_0000_0000);
    r.term = Some(key(44));
    let changes = propose(&mut n, apprentice(), r).unwrap();
    assert_eq!(
        changes,
        StateChanges { term: false, protocol: false, parameters: false, stakes: false }
    );
    assert_eq!(n.term, key(44));
}

#[test]
fn end_to_end_batched() {
    let mut n = started_session();
    let words = [DISCUSS_ALL, PROPOSE_ALL, REVIEW_ALL, ACCEPT_ALL];
    let seeds = [10u8, 20, 20, 20];
    for i in 0..4 {
        assert!(!n.is_complete);
        let who = player_for(&n);
        let p = full_proposal(words[i], seeds[i]);
        // Review and accept carry the agreed values again; only discuss and
        // propose need a change.
        assert!(propose(&mut n, who, p).is_ok(), "step {}", i);
    }
    assert!(n.is_complete);
    assert!(!n.is_negotiating());
    assert_eq!(n.turn, 5);
    assert_eq!(n.stakes, 200);
    assert_eq!(n.term_state, NegotiationState::Accepted { proposee: mentor() });
    let who = player_for(&n);
    assert_eq!(
        propose(&mut n, who, full_proposal(DISCUSS_ALL, 30)),
        Err(AlignmentError::NegotiationAlreadyOver)
    );
    assert_eq!(n.turn, 5);
}

#[test]
fn end_to_end_one_attribute_per_call() {
    let mut n = started_session();
    let events = [0b1000u16, 0b0100, 0b0010, 0b0001];
    let shifts = [12u32, 8, 4, 0];
    let mut calls: u64 = 0;
    for attr in 0..4 {
        for (step, event) in events.iter().enumerate() {
            assert!(!n.is_complete);
            let mut p = empty_proposal(event << shifts[attr]);
            let seed = (attr as u8) * 10 + if step == 0 { 1 } else { 2 };
            match attr {
                0 => p.term = Some(key(seed)),
                1 => p.protocol = Some(key(seed)),
                2 => p.parameters = Some([seed; 32]),
                _ => p.stakes = Some(seed as u64),
            }
            let who = player_for(&n);
            assert!(propose(&mut n, who, p).is_ok(), "attribute {} step {}", attr, step);
            calls += 1;
        }
    }
    assert_eq!(calls, 16);
    assert!(n.is_complete);
    assert_eq!(n.turn, 17);
    assert_eq!(n.parameters, [22u8; 32]);
    let who = player_for(&n);
    assert_eq!(
        propose(&mut n, who, empty_proposal(0)),
        Err(AlignmentError::NegotiationAlreadyOver)
    );
}

#[test]
fn completion_requires_all_four_accepted() {
    let mut n = started_session();
    let mut p = empty_proposal(ACCEPT_ALL);
    p.term = Some(key(1));
    p.protocol = Some(key(2));
    p.parameters = Some([3u8; 32]);
    propose(&mut n, apprentice(), p).unwrap();
    assert!(!n.is_complete);
    assert!(n.is_negotiating());
    let mut q = empty_proposal(ACCEPT_ALL);
    q.stakes = Some(0);
    propose(&mut n, mentor(), q).unwrap();
    assert!(n.is_complete);
}
