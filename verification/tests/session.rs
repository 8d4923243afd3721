use secretary::actions::role::cant_view;
use secretary::actions::{Proposal, RoleHoist, VoteAction};
use secretary::session::{count_voters, create_vote, required_quorum, Data, Reply};

fn proposal_action(p: Proposal) -> VoteAction {
    match p {
        Proposal::Vote(_, a) => a,
        Proposal::Refused(_) => panic!("refused"),
    }
}

#[test]
fn new_session_is_empty() {
    let d = Data::new(5, (1, 2, 3));
    assert_eq!(d.v.len(), 0);
    assert_eq!(d.nrq, 2);
    assert_eq!(d.started, 5);
    assert_eq!(d.color, (1, 2, 3));
}

#[test]
fn proposal_records_the_author_without_counting() {
    let mut d = Data::new(0, (0, 0, 0));
    let r = create_vote(&mut d, 11, proposal_action(cant_view(1, 2)), Some(900));
    assert_eq!(r.index, 0);
    assert_eq!(r.tally, 1);
    assert!(r.passed.is_none());
    let b = match &d.v[0] {
        VoteAction::CantView(m) => &m.ballot,
        _ => panic!("wrong kind"),
    };
    assert_eq!(b.ogmsg, 900);
    assert_eq!(b.already_voted, vec![(11, true)]);
    assert_eq!(b.votes, 1);
    assert!(!b.finished);
}

#[test]
fn proposal_passes_at_once_with_low_quorum() {
    let mut d = Data::new(0, (0, 0, 0));
    d.nrq = 1;
    let r = create_vote(&mut d, 11, RoleHoist::new(4, true).action(), None);
    assert_eq!(r.tally, 0);
    assert!(r.passed.is_none());
    let r = create_vote(&mut d, 11, proposal_action(cant_view(1, 2)), None);
    assert_eq!(r.index, 1);
    let passed = r.passed.expect("passes");
    assert!(!passed.is_finished());
    assert!(d.v[1].is_finished());
    assert_eq!(d.v[1].ogmsg(), 0);
}

#[test]
fn a_yes_ballot_can_pass_a_vote_once() {
    let mut d = Data::new(0, (0, 0, 0));
    create_vote(&mut d, 11, proposal_action(cant_view(1, 2)), Some(5));
    match d.interaction_create("Y-0", 12) {
        Reply::Counted { tally, nrq, passed } => {
            assert_eq!((tally, nrq), (2, 2));
            let a = passed.expect("passes");
            assert!(!a.is_finished());
            assert_eq!(a.ogmsg(), 5);
        }
        _ => panic!("not counted"),
    }
    assert!(d.v[0].is_finished());
    assert!(matches!(d.interaction_create("N-0", 13), Reply::VoteOver));
    assert!(matches!(d.interaction_create("Y-0", 14), Reply::VoteOver));
    assert_eq!(d.v[0].tally(), 2);
}

#[test]
fn unknown_vote_is_ignored() {
    let mut d = Data::new(0, (0, 0, 0));
    assert!(matches!(d.interaction_create("Y-3", 1), Reply::NoSuchVote));
    create_vote(&mut d, 11, RoleHoist::new(4, true).action(), None);
    assert!(matches!(d.interaction_create("Y-1", 1), Reply::NoSuchVote));
}

#[test]
fn unreadable_index_means_the_first_vote() {
    let mut d = Data::new(0, (0, 0, 0));
    d.nrq = 10;
    create_vote(&mut d, 11, RoleHoist::new(4, true).action(), None);
    match d.interaction_create("Y-abc", 12) {
        Reply::Counted { tally, passed, .. } => {
            assert_eq!(tally, 1);
            assert!(passed.is_none());
        }
        _ => panic!("not counted"),
    }
    match d.interaction_create("Y-99999999999999999999999-x", 13) {
        Reply::Counted { tally, .. } => assert_eq!(tally, 2),
        _ => panic!("not counted"),
    }
}

#[test]
fn same_press_twice_counts_once() {
    let mut d = Data::new(0, (0, 0, 0));
    d.nrq = 10;
    create_vote(&mut d, 11, RoleHoist::new(4, true).action(), None);
    let first = match d.interaction_create("N-0", 12) {
        Reply::Counted { tally, .. } => tally,
        _ => panic!(),
    };
    let second = match d.interaction_create("N-0", 12) {
        Reply::Counted { tally, .. } => tally,
        _ => panic!(),
    };
    assert_eq!(first, -1);
    assert_eq!(second, -1);
}

#[test]
fn changing_ones_mind_moves_the_tally_by_two() {
    let mut d = Data::new(0, (0, 0, 0));
    d.nrq = 10;
    create_vote(&mut d, 11, RoleHoist::new(4, true).action(), None);
    d.interaction_create("N-0", 12);
    match d.interaction_create("Y-0", 12) {
        Reply::Counted { tally, .. } => assert_eq!(tally, 1),
        _ => panic!(),
    }
    // the author switching to no cancels the yes that was never added
    match d.interaction_create("N-0", 11) {
        Reply::Counted { tally, .. } => assert_eq!(tally, -1),
        _ => panic!(),
    }
}

#[test]
fn other_votes_are_untouched() {
    let mut d = Data::new(0, (0, 0, 0));
    d.nrq = 10;
    create_vote(&mut d, 11, RoleHoist::new(4, true).action(), None);
    create_vote(&mut d, 11, RoleHoist::new(5, false).action(), None);
    d.interaction_create("Y-1", 12);
    assert_eq!(d.v[0].tally(), 0);
    assert_eq!(d.v[1].tally(), 1);
}

#[test]
fn count_fits_checks_the_room_left() {
    let mut d = Data::new(0, (0, 0, 0));
    d.nrq = i16::MAX;
    let mut a = RoleHoist::new(4, true);
    a.ballot.votes = i16::MIN + 1;
    create_vote(&mut d, 11, a.action(), None);
    assert!(d.count_fits("N-0", 12));
    d.interaction_create("N-0", 12);
    assert_eq!(d.v[0].tally(), i16::MIN);
    assert!(!d.count_fits("N-0", 13));
    assert!(d.count_fits("N-0", 12));
    assert!(d.count_fits("Y-0", 12));
    assert!(d.count_fits("Y-7", 13));
}

#[test]
fn quorum_is_half_rounded_up() {
    assert_eq!(required_quorum(0), 0);
    assert_eq!(required_quorum(1), 1);
    assert_eq!(required_quorum(4), 2);
    assert_eq!(required_quorum(5), 3);
    assert_eq!(required_quorum(65533), 32767);
    assert_eq!(required_quorum(70000), 32767);
}

#[test]
fn sync_counts_members_with_the_voter_role() {
    let voter = secretary::consts::VOTER_ROLE;
    let members = vec![vec![voter], vec![1, 2], vec![3, voter], vec![], vec![voter, voter]];
    assert_eq!(count_voters(&members), 3);
    let mut d = Data::new(0, (0, 0, 0));
    assert_eq!(d.sync(&members), 2);
    assert_eq!(d.nrq, 2);
}

#[test]
fn tally_is_start_minus_one_plus_recorded_ballots() {
    let mut d = Data::new(0, (0, 0, 0));
    d.nrq = 100;
    let r = create_vote(&mut d, 11, proposal_action(cant_view(1, 2)), None);
    let start = 1i32;
    for (id, user) in [("Y-0", 12), ("N-0", 13), ("N-0", 12), ("Y-0", 14), ("N-0", 11), ("N-0", 11)] {
        d.interaction_create(id, user);
        let b = match &d.v[r.index] {
            VoteAction::CantView(m) => &m.ballot,
            _ => panic!(),
        };
        let sum: i32 = b.already_voted.iter().map(|e| if e.1 { 1 } else { -1 }).sum();
        assert_eq!(b.votes as i32, start - 1 + sum);
        let mut ids: Vec<u64> = b.already_voted.iter().map(|e| e.0).collect();
        ids.sort();
        ids.dedup();
        assert_eq!(ids.len(), b.already_voted.len());
    }
}
