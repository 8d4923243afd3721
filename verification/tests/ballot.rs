use secretary::actions::{CantView, RoleHoist, VoteAction};
use secretary::ballot::Ballot;

fn signed_sum(b: &Ballot) -> i32 {
    b.already_voted.iter().map(|e| if e.1 { 1 } else { -1 }).sum()
}

#[test]
fn first_ballot_counts_once() {
    let mut b = Ballot::new(0);
    assert_eq!(b.already_voted(7, true), 1);
    assert_eq!(b.already_voted, vec![(7, true)]);
}

#[test]
fn repeated_ballot_counts_nothing() {
    let mut b = Ballot::new(0);
    b.already_voted(7, true);
    assert_eq!(b.already_voted(7, true), 0);
    assert_eq!(b.already_voted, vec![(7, true)]);
}

#[test]
fn reversed_ballot_counts_twice_and_moves_last() {
    let mut b = Ballot::new(0);
    b.already_voted(7, false);
    b.already_voted(8, true);
    assert_eq!(b.already_voted(7, true), 2);
    assert_eq!(b.already_voted, vec![(8, true), (7, true)]);
}

#[test]
fn handle_adds_to_the_tally() {
    let mut b = Ballot::new(1);
    assert_eq!(b.handle(2), 3);
    assert_eq!(b.handle(-5), -2);
    assert_eq!(b.votes, -2);
}

#[test]
fn factor_of_reads_without_recording() {
    let mut b = Ballot::new(0);
    b.already_voted(3, true);
    assert_eq!(b.factor_of(3, true), 0);
    assert_eq!(b.factor_of(3, false), 2);
    assert_eq!(b.factor_of(4, false), 1);
    assert_eq!(b.already_voted, vec![(3, true)]);
}

#[test]
fn tally_minus_signed_sum_stays_put() {
    let mut b = Ballot::new(1);
    let offset = b.votes as i32 - signed_sum(&b);
    for (member, vote) in [(1, true), (2, false), (1, false), (1, false), (3, true), (2, true)] {
        let sign: i16 = if vote { 1 } else { -1 };
        let f = b.already_voted(member, vote);
        b.handle(sign * f);
        assert_eq!(b.votes as i32 - signed_sum(&b), offset);
    }
    assert_eq!(b.votes, 2);
}

#[test]
fn duplicate_copies_everything() {
    let mut b = Ballot::new(4);
    b.already_voted(9, false);
    b.ogmsg = 55;
    b.finished = true;
    let c = b.duplicate();
    assert_eq!(c.votes, 4);
    assert_eq!(c.ogmsg, 55);
    assert_eq!(c.already_voted, vec![(9, false)]);
    assert!(c.finished);
}

#[test]
fn vote_action_dispatches_to_its_ballot() {
    let mut a = CantView::new(10, 20).action();
    assert_eq!(a.tally(), 1);
    assert_eq!(a.already_voted(5, true), 1);
    assert_eq!(a.handle_tally(1), 2);
    a.set_ogmsg(77);
    assert_eq!(a.ogmsg(), 77);
    assert!(!a.is_finished());
    let d = a.dummy();
    a.set_finished();
    assert!(a.is_finished());
    assert!(!d.is_finished());
    match d {
        VoteAction::CantView(m) => {
            assert_eq!((m.channel_id, m.role_id), (10, 20));
            assert_eq!(m.ballot.already_voted, vec![(5, true)]);
            assert_eq!(m.ballot.votes, 2);
        }
        _ => panic!("wrong kind"),
    }
}

#[test]
fn struct_handle_and_new() {
    let mut h = RoleHoist::new(3, true);
    assert_eq!(h.ballot.votes, 0);
    assert_eq!(h.handle(1), 1);
    assert!(h.hoist);
    assert_eq!(h.role_id, 3);
}
