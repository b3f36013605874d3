use moloch::engine::{Config, Dao};
use moloch::errors::Error;
use moloch::events::Event;

fn test_config() -> Config {
    Config {
        starting_period_offset: 5,
        voting_period_length: 10,
        minimum_deposit: 10,
        processing_reward: 1,
        owner: 1,
    }
}

fn initialized_dao() -> Dao {
    let mut d = Dao::new(test_config());
    d.init(1, 1000).unwrap();
    d
}

#[test]
fn init_is_owner_only_and_one_time() {
    let mut d = Dao::new(test_config());
    assert_eq!(d.init(2, 1000), Err(Error::NotOwner));
    assert!(!d.is_init());
    assert_eq!(d.init(1, 1000), Ok(()));
    assert!(d.is_init());
    assert_eq!(d.balance_of(1), 1000);
    assert_eq!(d.total_shares(), 1000);
    assert!(d.is_member(1));
    assert_eq!(d.init(1, 1000), Err(Error::AlreadyInitialized));
    assert_eq!(d.total_shares(), 1000);
}

#[test]
fn full_lifecycle_of_a_passing_proposal() {
    // Owner starts with 1000; submits for applicant 2 at time 0; votes yes
    // at time 6; account 3 processes at time 16.
    let mut d = initialized_dao();
    assert_eq!(d.submit_proposal(1, 2, 100, 0), Ok(()));
    let p = d.proposal(0).unwrap();
    assert_eq!(p.starting_period, 5);
    assert_eq!(d.balance_of(1), 990);
    assert_eq!(d.locked_deposits(1), 10);
    assert_eq!(d.total_shares_requested(), 100);

    assert_eq!(d.submit_vote(1, 0, 0, 6), Ok(()));
    assert_eq!(d.proposal(0).unwrap().yes_votes, 1);
    assert_eq!(d.proposal(0).unwrap().no_votes, 0);

    assert_eq!(d.process_proposal(3, 0, 16), Ok(()));
    let p = d.proposal(0).unwrap();
    assert!(p.processed);
    assert!(p.did_pass);
    // Applicant 2 is a member now, with the minted shares.
    assert!(d.is_member(2));
    assert_eq!(d.balance_of(2), 100);
    assert_eq!(d.total_shares(), 1100);
    // Owner got 9 of the 10 locked back; 1 went to the processor.
    assert_eq!(d.locked_deposits(1), 1);
    assert_eq!(d.balance_of(1), 998);
    assert_eq!(d.balance_of(3), 1);
    // The requested-shares counter only ever grows; processing does not
    // release it.
    assert_eq!(d.total_shares_requested(), 100);
}

#[test]
fn voting_window_boundaries_are_enforced() {
    // starting_period is 5 and the window is 10 long: voting at 4 (and at
    // exactly 5) is too early, at 15 and 16 too late.
    let mut d = initialized_dao();
    assert_eq!(d.submit_proposal(1, 2, 100, 0), Ok(()));
    assert_eq!(d.submit_vote(1, 0, 0, 4), Err(Error::VotingNotStarted));
    assert_eq!(d.submit_vote(1, 0, 0, 5), Err(Error::VotingNotStarted));
    assert_eq!(d.submit_vote(1, 0, 0, 15), Err(Error::VotingExpired));
    assert_eq!(d.submit_vote(1, 0, 0, 16), Err(Error::VotingExpired));
    assert_eq!(d.submit_vote(1, 0, 0, 14), Ok(()));
}

#[test]
fn ballot_must_be_zero_or_one() {
    let mut d = initialized_dao();
    assert_eq!(d.submit_proposal(1, 2, 100, 0), Ok(()));
    assert_eq!(d.submit_vote(1, 0, 2, 6), Err(Error::InvalidBallot));
    assert_eq!(d.submit_vote(1, 0, 255, 6), Err(Error::InvalidBallot));
}

#[test]
fn voting_twice_fails_whatever_the_second_ballot() {
    let mut d = initialized_dao();
    assert_eq!(d.submit_proposal(1, 2, 100, 0), Ok(()));
    assert_eq!(d.submit_vote(1, 0, 1, 6), Ok(()));
    assert!(d.has_voted(1, 0));
    assert_eq!(d.submit_vote(1, 0, 1, 7), Err(Error::AlreadyVoted));
    assert_eq!(d.submit_vote(1, 0, 0, 8), Err(Error::AlreadyVoted));
    let p = d.proposal(0).unwrap();
    assert_eq!(p.no_votes, 1);
    assert_eq!(p.yes_votes, 0);
}

#[test]
fn voting_on_a_missing_proposal_fails() {
    let mut d = initialized_dao();
    assert_eq!(d.submit_vote(1, 0, 0, 6), Err(Error::ProposalNotFound));
    assert_eq!(d.proposal(0), Err(Error::ProposalNotFound));
}

#[test]
fn submitting_without_the_deposit_fails() {
    let mut d = initialized_dao();
    // Account 5 has no balance at all.
    assert_eq!(d.submit_proposal(5, 2, 100, 0), Err(Error::InsufficientBalance));
    // Mint applicant 9 exactly the deposit through a passing proposal.
    d.submit_proposal(1, 9, 10, 0).unwrap();
    d.submit_vote(1, 0, 0, 6).unwrap();
    d.process_proposal(6, 0, 16).unwrap();
    assert_eq!(d.balance_of(9), 10);
    // Holding exactly the deposit still fails: the lock is strict.
    assert_eq!(d.submit_proposal(9, 9, 1, 20), Err(Error::InsufficientBalance));
}

#[test]
fn processing_before_the_window_closes_fails() {
    let mut d = initialized_dao();
    assert_eq!(d.submit_proposal(1, 2, 100, 0), Ok(()));
    assert_eq!(d.submit_vote(1, 0, 0, 6), Ok(()));
    // The window [5, 15] has not closed at 14, nor at exactly 15.
    assert_eq!(d.process_proposal(3, 0, 14), Err(Error::VotingNotEnded));
    assert_eq!(d.process_proposal(3, 0, 15), Err(Error::VotingNotEnded));
    assert_eq!(d.process_proposal(3, 0, 16), Ok(()));
}

#[test]
fn processing_twice_fails() {
    let mut d = initialized_dao();
    assert_eq!(d.submit_proposal(1, 2, 100, 0), Ok(()));
    assert_eq!(d.process_proposal(3, 0, 16), Ok(()));
    assert_eq!(d.process_proposal(3, 0, 17), Err(Error::AlreadyProcessed));
}

#[test]
fn processing_a_missing_proposal_fails() {
    let mut d = initialized_dao();
    assert_eq!(d.process_proposal(3, 0, 16), Err(Error::ProposalNotFound));
}

#[test]
fn proposals_finalize_in_submission_order() {
    let mut d = initialized_dao();
    assert_eq!(d.submit_proposal(1, 2, 100, 0), Ok(()));
    assert_eq!(d.submit_proposal(1, 3, 50, 0), Ok(()));
    // Second window starts at 10 and closes at 20; both are closed at 25.
    assert_eq!(d.process_proposal(3, 1, 25), Err(Error::PreviousUnprocessed));
    assert_eq!(d.process_proposal(3, 0, 25), Ok(()));
    assert_eq!(d.process_proposal(3, 1, 25), Ok(()));
    assert!(d.proposal(0).unwrap().processed);
    assert!(d.proposal(1).unwrap().processed);
}

#[test]
fn starting_periods_chain_forward() {
    let mut d = initialized_dao();
    // First proposal at time 0: starts at 0 + 5.
    assert_eq!(d.submit_proposal(1, 2, 10, 0), Ok(()));
    assert_eq!(d.proposal(0).unwrap().starting_period, 5);
    // Second at time 2, not past the previous start: chains to 5 + 5.
    assert_eq!(d.submit_proposal(1, 3, 10, 2), Ok(()));
    assert_eq!(d.proposal(1).unwrap().starting_period, 10);
    // Third at time 30, past the previous start: schedules from now.
    assert_eq!(d.submit_proposal(1, 4, 10, 30), Ok(()));
    assert_eq!(d.proposal(2).unwrap().starting_period, 35);
}

#[test]
fn total_shares_grows_only_on_a_passed_proposal() {
    let mut d = initialized_dao();
    assert_eq!(d.total_shares(), 1000);
    assert_eq!(d.submit_proposal(1, 2, 100, 0), Ok(()));
    assert_eq!(d.total_shares(), 1000);
    assert_eq!(d.submit_vote(1, 0, 1, 6), Ok(()));
    assert_eq!(d.total_shares(), 1000);
    // A proposal with only a no vote fails: nothing is minted.
    assert_eq!(d.process_proposal(3, 0, 16), Ok(()));
    let p = d.proposal(0).unwrap();
    assert!(p.processed);
    assert!(!p.did_pass);
    assert_eq!(d.total_shares(), 1000);
    assert_eq!(d.balance_of(2), 0);
    assert!(!d.is_member(2));
    // A passing proposal mints exactly the requested shares.
    assert_eq!(d.submit_proposal(1, 2, 77, 20), Ok(()));
    assert_eq!(d.submit_vote(1, 1, 0, 26), Ok(()));
    assert_eq!(d.process_proposal(3, 1, 40), Ok(()));
    assert_eq!(d.total_shares(), 1077);
}

#[test]
fn failed_proposal_still_pays_the_processing_reward() {
    let mut d = initialized_dao();
    assert_eq!(d.submit_proposal(1, 2, 100, 0), Ok(()));
    assert_eq!(d.balance_of(1), 990);
    assert_eq!(d.process_proposal(3, 0, 16), Ok(()));
    // No votes at all: did_pass is false, but the deposit flow is the same.
    assert!(!d.proposal(0).unwrap().did_pass);
    assert_eq!(d.locked_deposits(1), 1);
    assert_eq!(d.balance_of(1), 998);
    assert_eq!(d.balance_of(3), 1);
}

#[test]
fn yes_vote_raises_the_membership_high_water_mark() {
    let mut d = initialized_dao();
    assert_eq!(d.submit_proposal(1, 2, 10, 0), Ok(()));
    assert_eq!(d.submit_proposal(1, 3, 10, 0), Ok(()));
    assert_eq!(d.submit_vote(1, 1, 0, 11), Ok(()));
    assert_eq!(d.member(1).highest_index_yes_vote, 1);
    // A later yes on a lower index does not lower the mark.
    assert_eq!(d.submit_vote(1, 0, 0, 11), Ok(()));
    assert_eq!(d.member(1).highest_index_yes_vote, 1);
}

#[test]
fn event_log_records_the_lifecycle_in_order() {
    let mut d = initialized_dao();
    d.submit_proposal(1, 2, 100, 0).unwrap();
    d.submit_vote(1, 0, 0, 6).unwrap();
    d.process_proposal(3, 0, 16).unwrap();
    let events = d.events();
    assert_eq!(events.len(), 4);
    assert_eq!(
        events[0],
        Event::ProposalSubmitted {
            index: 0,
            proposer: 1,
            applicant: 2,
            shares_requested: 100,
            starting_period: 5,
        }
    );
    assert_eq!(events[1], Event::VoteSubmitted { index: 0, voter: 1, ballot: 0 });
    assert_eq!(events[2], Event::Transferred { from: 1, to: 3, amount: 1 });
    assert_eq!(
        events[3],
        Event::ProposalProcessed {
            index: 0,
            applicant: 2,
            proposer: 1,
            shares_requested: 100,
            did_pass: true,
        }
    );
}

#[test]
fn window_arithmetic_overflow_is_reported() {
    // An offset near the end of time schedules a starting period so late
    // that the voting window cannot be computed any more.
    let cfg = Config {
        starting_period_offset: u64::MAX - 3,
        voting_period_length: 10,
        minimum_deposit: 10,
        processing_reward: 1,
        owner: 1,
    };
    let mut d = Dao::new(cfg);
    d.init(1, 1000).unwrap();
    d.submit_proposal(1, 2, 5, 0).unwrap();
    assert_eq!(d.proposal(0).unwrap().starting_period, u64::MAX - 3);
    assert_eq!(d.submit_vote(1, 0, 0, u64::MAX), Err(Error::ArithmeticOverflow));
    assert_eq!(d.process_proposal(3, 0, u64::MAX), Err(Error::ArithmeticOverflow));
    // A second submission cannot chain a starting period past the end of
    // time either.
    assert_eq!(d.submit_proposal(1, 2, 5, 0), Err(Error::ArithmeticOverflow));
}

#[test]
fn failed_operations_log_nothing() {
    let mut d = initialized_dao();
    let _ = d.submit_proposal(5, 2, 100, 0);
    let _ = d.submit_vote(1, 0, 0, 6);
    let _ = d.process_proposal(3, 0, 16);
    assert_eq!(d.events().len(), 0);
}
