use vstd::prelude::*;

verus! {

/// One member's recorded ballot: the member's id and whether they voted yes.
pub type Entry = (u64, bool);

/// The tally state shared by every kind of proposal.
pub struct Ballot {
    /// Current tally.
    pub votes: i16,
    /// Id of the message that announced the vote (0 until it is known).
    pub ogmsg: u64,
    /// Ballots recorded so far, in the order they were cast.
    pub already_voted: Vec<Entry>,
    /// Whether the vote is over (its action was carried out).
    pub finished: bool,
}

pub struct BallotView {
    pub votes: int,
    pub ogmsg: u64,
    pub voters: Seq<Entry>,
    pub finished: bool,
}

impl View for Ballot {
    type V = BallotView;

    open spec fn view(&self) -> BallotView {
        BallotView {
            votes: self.votes as int,
            ogmsg: self.ogmsg,
            voters: self.already_voted@,
            finished: self.finished,
        }
    }
}

/// The state of a ballot that nobody has voted on yet.
pub open spec fn fresh_ballot(votes: int) -> BallotView {
    BallotView { votes, ogmsg: 0, voters: Seq::empty(), finished: false }
}

/// The list of ballots after `member` casts `vote`: a repeated ballot changes
/// nothing; a reversed ballot replaces the earlier (first) opposite one,
/// which moves to the end of the list.
pub open spec fn record(voters: Seq<Entry>, member: u64, vote: bool) -> Seq<Entry> {
    if voters.contains((member, vote)) {
        voters
    } else {
        voters.remove_value((member, !vote)).push((member, vote))
    }
}

/// The multiplier that a ballot applies to its sign: 0 for a repeated
/// ballot, 2 for a reversed one (it also cancels the earlier ballot), 1 for a
/// first ballot.
pub open spec fn factor(voters: Seq<Entry>, member: u64, vote: bool) -> int {
    if voters.contains((member, vote)) {
        0
    } else if voters.contains((member, !vote)) {
        2
    } else {
        1
    }
}

/// +1 for a yes ballot, -1 for a no ballot.
pub open spec fn sign(vote: bool) -> int {
    if vote {
        1
    } else {
        -1
    }
}

/// Sum of the signs of the recorded ballots.
pub open spec fn signed_sum(voters: Seq<Entry>) -> int
    decreases voters.len(),
{
    if voters.len() == 0 {
        0
    } else {
        signed_sum(voters.drop_last()) + sign(voters.last().1)
    }
}

/// No member has more than one recorded ballot.
pub open spec fn one_ballot_each(voters: Seq<Entry>) -> bool {
    forall|i: int, j: int|
        0 <= i < voters.len() && 0 <= j < voters.len() && i != j ==> #[trigger] voters[i].0
            != #[trigger] voters[j].0
}

proof fn lemma_signed_sum_push(voters: Seq<Entry>, e: Entry)
    ensures
        signed_sum(voters.push(e)) == signed_sum(voters) + sign(e.1),
{
    assert(voters.push(e).drop_last() =~= voters);
}

proof fn lemma_signed_sum_remove(voters: Seq<Entry>, i: int)
    requires
        0 <= i < voters.len(),
    ensures
        signed_sum(voters.remove(i)) == signed_sum(voters) - sign(voters[i].1),
    decreases voters.len(),
{
    if i == voters.len() - 1 {
        assert(voters.remove(i) =~= voters.drop_last());
    } else {
        let shorter = voters.drop_last();
        lemma_signed_sum_remove(shorter, i);
        assert(voters.remove(i) =~= shorter.remove(i).push(voters.last()));
        lemma_signed_sum_push(shorter.remove(i), voters.last());
    }
}

/// Casting a ballot changes the signed sum of the recorded ballots by
/// exactly the amount that the caller adds to the tally (the ballot's sign
/// times the factor returned for it). Hence the difference between a tally
/// and the signed sum of its recorded ballots never changes while members vote.
pub proof fn law_cast_moves_sum_by_weighted_sign(voters: Seq<Entry>, member: u64, vote: bool)
    ensures
        signed_sum(record(voters, member, vote)) == signed_sum(voters) + sign(vote) * factor(
            voters,
            member,
            vote,
        ),
{
    if voters.contains((member, vote)) {
    } else if voters.contains((member, !vote)) {
        voters.index_of_first_ensures((member, !vote));
        let i = voters.index_of_first((member, !vote)).unwrap();
        lemma_signed_sum_remove(voters, i);
        lemma_signed_sum_push(voters.remove(i), (member, vote));
    } else {
        voters.index_of_first_ensures((member, !vote));
        lemma_signed_sum_push(voters, (member, vote));
    }
}

/// Casting a ballot keeps at most one recorded ballot per member.
pub proof fn law_cast_keeps_one_ballot_each(voters: Seq<Entry>, member: u64, vote: bool)
    requires
        one_ballot_each(voters),
    ensures
        one_ballot_each(record(voters, member, vote)),
        record(voters, member, vote).contains((member, vote)),
{
    let r = record(voters, member, vote);
    if voters.contains((member, vote)) {
    } else {
        voters.index_of_first_ensures((member, !vote));
        let rest = voters.remove_value((member, !vote));
        if voters.contains((member, !vote)) {
            let i = voters.index_of_first((member, !vote)).unwrap();
            voters.remove_ensures(i);
            assert(forall|k: int| 0 <= k < rest.len() ==> rest[k].0 != member) by {
                assert forall|k: int| 0 <= k < rest.len() implies rest[k].0 != member by {
                    if k < i {
                        assert(rest[k] == voters[k]);
                        assert(voters[k].0 != voters[i].0);
                    } else {
                        assert(rest[k] == voters[k + 1]);
                        assert(voters[k + 1].0 != voters[i].0);
                    }
                }
            }
            assert(one_ballot_each(rest)) by {
                assert forall|a: int, b: int|
                    0 <= a < rest.len() && 0 <= b < rest.len() && a != b implies #[trigger] rest[a].0
                    != #[trigger] rest[b].0 by {
                    let a2 = if a < i { a } else { a + 1 };
                    let b2 = if b < i { b } else { b + 1 };
                    assert(rest[a] == voters[a2]);
                    assert(rest[b] == voters[b2]);
                }
            }
        } else {
            assert(rest == voters);
            assert(forall|k: int| 0 <= k < rest.len() ==> rest[k].0 != member) by {
                assert forall|k: int| 0 <= k < rest.len() implies rest[k].0 != member by {
                    if rest[k].0 == member {
                        if rest[k].1 == vote {
                            assert(voters.contains((member, vote)));
                        } else {
                            assert(voters.contains((member, !vote)));
                        }
                    }
                }
            }
        }
        assert(r[r.len() - 1] == (member, vote));
        assert(one_ballot_each(r)) by {
            assert forall|a: int, b: int|
                0 <= a < r.len() && 0 <= b < r.len() && a != b implies #[trigger] r[a].0
                != #[trigger] r[b].0 by {
                if a < rest.len() && b < rest.len() {
                    assert(r[a] == rest[a]);
                    assert(r[b] == rest[b]);
                } else if a < rest.len() {
                    assert(r[a] == rest[a]);
                } else {
                    assert(r[b] == rest[b]);
                }
            }
        }
    }
}

/// A ballot cast a second time, the same way, counts for nothing and leaves
/// the recorded ballots as they were.
pub proof fn law_repeated_ballot_is_ignored(voters: Seq<Entry>, member: u64, vote: bool)
    ensures
        factor(record(voters, member, vote), member, vote) == 0,
        record(record(voters, member, vote), member, vote) == record(voters, member, vote),
{
    let r = record(voters, member, vote);
    if !voters.contains((member, vote)) {
        assert(r[r.len() - 1] == (member, vote));
    }
    assert(r.contains((member, vote)));
}

impl Ballot {
    /// A ballot with the given starting tally, no recorded ballots, not over.
    pub fn new(votes: i16) -> (b: Ballot)
        ensures
            b@ == (BallotView { votes: votes as int, ogmsg: 0, voters: Seq::empty(), finished: false }),
    {
        Ballot { votes, ogmsg: 0, already_voted: Vec::new(), finished: false }
    }

    /// The factor that `member` voting `vote` would get, without recording it.
    pub fn factor_of(&self, member: u64, vote: bool) -> (f: i16)
        ensures
            f == factor(self@.voters, member, vote),
    {
        let len = self.already_voted.len();
        let mut same = false;
        let mut other = false;
        let mut i: usize = 0;
        while i < len
            invariant
                len == self.already_voted.len(),
                0 <= i <= len,
                same == exists|k: int| 0 <= k < i && self.already_voted@[k] == (member, vote),
                other == exists|k: int| 0 <= k < i && self.already_voted@[k] == (member, !vote),
            decreases len - i,
        {
            let e = self.already_voted[i];
            if e.0 == member && e.1 == vote {
                same = true;
            }
            if e.0 == member && e.1 == !vote {
                other = true;
            }
            i = i + 1;
        }
        if same {
            0
        } else if other {
            2
        } else {
            1
        }
    }

    /// A copy of the ballot.
    pub fn duplicate(&self) -> (b: Ballot)
        ensures
            b@ == self@,
    {
        let mut voters: Vec<Entry> = Vec::new();
        let len = self.already_voted.len();
        let mut i: usize = 0;
        while i < len
            invariant
                len == self.already_voted.len(),
                0 <= i <= len,
                voters@ == self.already_voted@.subrange(0, i as int),
            decreases len - i,
        {
            voters.push(self.already_voted[i]);
            i = i + 1;
            assert(voters@ =~= self.already_voted@.subrange(0, i as int));
        }
        assert(voters@ =~= self.already_voted@);
        Ballot { votes: self.votes, ogmsg: self.ogmsg, already_voted: voters, finished: self.finished }
    }

    /// Adds `p` to the tally and returns the new tally.
    pub fn handle(&mut self, p: i16) -> (tally: i16)
        requires
            i16::MIN <= old(self).votes + p <= i16::MAX,
        ensures
            tally == old(self).votes + p,
            final(self)@ == (BallotView { votes: tally as int, ..old(self)@ }),
    {
        self.votes = self.votes + p;
        self.votes
    }

    /// Records that `member` voted `vote` and returns the factor that the
    /// ballot's sign is to be multiplied by before it is added to the tally.
    pub fn already_voted(&mut self, member: u64, vote: bool) -> (f: i16)
        ensures
            f == factor(old(self)@.voters, member, vote),
            final(self)@ == (BallotView { voters: record(old(self)@.voters, member, vote), ..old(self)@ }),
    {
        let len = self.already_voted.len();
        let mut i: usize = 0;
        while i < len
            invariant
                len == self.already_voted.len(),
                0 <= i <= len,
                forall|k: int| 0 <= k < i ==> self.already_voted@[k] != (member, vote),
            decreases len - i,
        {
            let e = self.already_voted[i];
            if e.0 == member && e.1 == vote {
                assert(self.already_voted@[i as int] == (member, vote));
                return 0;
            }
            i = i + 1;
        }
        assert(!self.already_voted@.contains((member, vote)));
        let ghost before = self.already_voted@;
        let mut found: bool = false;
        let mut j: usize = 0;
        while j < len
            invariant
                len == before.len(),
                0 <= j <= len,
                self.already_voted@ == before,
                found ==> j < len && before[j as int] == (member, !vote),
                forall|k: int| 0 <= k < j ==> before[k] != (member, !vote),
            ensures
                found ==> j < len && before[j as int] == (member, !vote),
                !found ==> forall|k: int| 0 <= k < len ==> before[k] != (member, !vote),
            decreases len - j,
        {
            let e = self.already_voted[j];
            if e.0 == member && e.1 == !vote {
                found = true;
                break;
            }
            j = j + 1;
        }
        let mut f: i16 = 1;
        proof {
            before.index_of_first_ensures((member, !vote));
        }
        if found {
            assert(before.contains((member, !vote)));
            assert(before.index_of_first((member, !vote)) == Some(j as int));
            self.already_voted.remove(j);
            f = 2;
        } else {
            assert(!before.contains((member, !vote)));
        }
        self.already_voted.push((member, vote));
        f
    }
}

} // verus!
