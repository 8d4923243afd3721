use vstd::prelude::*;
use crate::actions::VoteAction;
use crate::ballot::{
    BallotView, factor, record, sign, signed_sum, one_ballot_each, law_cast_moves_sum_by_weighted_sign,
    law_cast_keeps_one_ballot_each, law_repeated_ballot_is_ignored,
};
use crate::consts::{DEFAULT_NRQ, VOTER_ROLE};
use crate::interaction::{ButtonPress, press_of, read_custom_id};

verus! {

/// The bot's state for one session.
pub struct Data {
    /// The proposals of the session, in the order they were made; a vote's
    /// index in this list is the one its buttons carry.
    pub v: Vec<VoteAction>,
    /// Tally that a proposal needs to pass.
    pub nrq: i16,
    /// When the session started, in nanoseconds since the Unix epoch.
    pub started: i64,
    /// Colour of the session's announcements.
    pub color: (u8, u8, u8),
}

/// What became of a new proposal.
pub struct Registered {
    /// The vote's index, the one its buttons carry.
    pub index: usize,
    /// The tally right after the proposal was made.
    pub tally: i16,
    /// The proposal to carry out, when it passed at once.
    pub passed: Option<VoteAction>,
}

/// What a button press led to.
pub enum Reply {
    /// The button names no vote of this session: nothing is answered.
    NoSuchVote,
    /// The vote is already over: "This vote is over." is answered.
    VoteOver,
    /// The ballot was counted; `passed` holds the proposal to carry out
    /// when this ballot made the tally reach the quorum.
    Counted { tally: i16, nrq: i16, passed: Option<VoteAction> },
}

/// A ballot's state after `member` votes `yes` or no: the ballot is recorded
/// and its sign times its factor is added to the tally.
pub open spec fn cast(b: BallotView, member: u64, yes: bool) -> BallotView {
    BallotView {
        votes: b.votes + sign(yes) * factor(b.voters, member, yes),
        voters: record(b.voters, member, yes),
        ..b
    }
}

/// Whether the tally stays within `i16` when `member` votes `yes` or no.
pub open spec fn cast_fits(b: BallotView, member: u64, yes: bool) -> bool {
    i16::MIN <= cast(b, member, yes).votes <= i16::MAX
}

/// The tally that a session of `voters` members with the voter role needs:
/// half of them, rounded up, and at most `i16::MAX`.
pub open spec fn quorum(voters: nat) -> int {
    if (voters + 1) / 2 > i16::MAX {
        i16::MAX as int
    } else {
        ((voters + 1) / 2) as int
    }
}

/// How many of the members (each given by the ids of their roles) hold `role`.
pub open spec fn holders(members: Seq<Vec<u64>>, role: u64) -> nat
    decreases members.len(),
{
    if members.len() == 0 {
        0
    } else {
        holders(members.drop_last(), role) + if members.last()@.contains(role) {
            1nat
        } else {
            0nat
        }
    }
}

/// The voters counted for the quorum are the members whose role list
/// contains the role, wherever it stands in the list: the count is the
/// length of the list of those members.
pub proof fn law_holders_are_members_with_role(members: Seq<Vec<u64>>, role: u64)
    ensures
        holders(members, role) == members.filter(|m: Vec<u64>| m@.contains(role)).len(),
    decreases members.len(),
{
    reveal(Seq::filter);
    if members.len() > 0 {
        law_holders_are_members_with_role(members.drop_last(), role);
    }
}

/// The quorum is the smallest tally that is at least half of the voters,
/// as long as that fits in an `i16`, and `i16::MAX` beyond.
pub proof fn law_quorum_is_least_half(voters: nat)
    ensures
        voters <= 65534 ==> 2 * quorum(voters) >= voters && 2 * (quorum(voters) - 1) < voters,
        voters >= 65534 ==> quorum(voters) == i16::MAX,
        quorum(voters) >= 0,
{
}

/// The quorum for `voters` members with the voter role.
pub fn required_quorum(voters: usize) -> (q: i16)
    ensures
        q == quorum(voters as nat),
{
    let half = voters / 2 + voters % 2;
    if half > 32767 {
        32767
    } else {
        half as i16
    }
}

/// How many of the members hold the voter role.
pub fn count_voters(member_roles: &Vec<Vec<u64>>) -> (n: usize)
    ensures
        n == holders(member_roles@, VOTER_ROLE),
{
    let len = member_roles.len();
    let mut n: usize = 0;
    let mut i: usize = 0;
    while i < len
        invariant
            len == member_roles@.len(),
            0 <= i <= len,
            n == holders(member_roles@.subrange(0, i as int), VOTER_ROLE),
            n <= i,
        decreases len - i,
    {
        let roles = &member_roles[i];
        let mut has = false;
        let mut j: usize = 0;
        while j < roles.len()
            invariant
                0 <= j <= roles@.len(),
                has == exists|k: int| 0 <= k < j && roles@[k] == VOTER_ROLE,
            decreases roles@.len() - j,
        {
            if roles[j] == VOTER_ROLE {
                has = true;
            }
            j = j + 1;
        }
        let ghost prefix = member_roles@.subrange(0, i + 1);
        assert(prefix.drop_last() =~= member_roles@.subrange(0, i as int));
        assert(prefix.last() == member_roles@[i as int]);
        if has {
            n = n + 1;
        }
        i = i + 1;
    }
    assert(member_roles@.subrange(0, len as int) =~= member_roles@);
    n
}

/// How a proposal `va` made by `author` takes the session from `before` to
/// `after`, the vote's announcement having got the message id `ogmsg` (or
/// none when it could not be sent).
pub open spec fn propose_step(
    before: Data,
    after: Data,
    author: u64,
    va: VoteAction,
    ogmsg: Option<u64>,
    r: Registered,
) -> bool {
    let b = va.ballot()@;
    &&& r.index == before.v@.len()
    &&& after.v@.len() == before.v@.len() + 1
    &&& forall|j: int| 0 <= j < before.v@.len() ==> after.v@[j] == before.v@[j]
    &&& after.nrq == before.nrq
    &&& after.started == before.started
    &&& after.color == before.color
    &&& r.tally == b.votes
    &&& after.v@[r.index as int].with_ballot(va.ballot()) == va
    &&& after.v@[r.index as int].ballot()@ == (BallotView {
        ogmsg: match ogmsg {
            Some(m) => m,
            None => b.ogmsg,
        },
        voters: record(b.voters, author, true),
        finished: b.finished || r.tally >= before.nrq,
        ..b
    })
    &&& (r.passed is Some) == (r.tally >= before.nrq)
    &&& r.passed matches Some(a) ==> a.with_ballot(va.ballot()) == va && a.ballot()@ == (BallotView {
        finished: b.finished,
        ..after.v@[r.index as int].ballot()@
    })
}

/// How a button press by `user` takes the session from `before` to `after`
/// with the reply `r`.
pub open spec fn press_step(before: Data, after: Data, press: ButtonPress, user: u64, r: Reply) -> bool {
    let i = press.index as int;
    if press.index >= before.v@.len() {
        r is NoSuchVote && after == before
    } else if before.v@[i].ballot().finished {
        r is VoteOver && after == before
    } else {
        let vote = before.v@[i];
        let counted = cast(vote.ballot()@, user, press.yes);
        let passes = counted.votes >= before.nrq;
        &&& r matches Reply::Counted { tally, nrq, passed } && tally == counted.votes && nrq
            == before.nrq && (passed is Some) == passes && (passed matches Some(a) ==> a.with_ballot(
            vote.ballot(),
        ) == vote && a.ballot()@ == counted)
        &&& after.nrq == before.nrq
        &&& after.started == before.started
        &&& after.color == before.color
        &&& after.v@.len() == before.v@.len()
        &&& forall|j: int| 0 <= j < before.v@.len() && j != i ==> after.v@[j] == before.v@[j]
        &&& after.v@[i].with_ballot(vote.ballot()) == vote
        &&& after.v@[i].ballot()@ == (BallotView { finished: passes, ..counted })
    }
}

/// The difference between a vote's tally and the signed sum of its recorded
/// ballots.
pub open spec fn offset(b: BallotView) -> int {
    b.votes - signed_sum(b.voters)
}

/// Counting a ballot never changes the difference between a vote's tally
/// and the signed sum of its recorded ballots: every recorded yes counts +1
/// and every recorded no -1 on top of where the tally started.
pub proof fn law_cast_keeps_offset(b: BallotView, member: u64, yes: bool)
    ensures
        offset(cast(b, member, yes)) == offset(b),
{
    law_cast_moves_sum_by_weighted_sign(b.voters, member, yes);
}

/// A button press keeps, for every vote of the session, the difference
/// between its tally and the signed sum of its recorded ballots.
pub proof fn law_press_keeps_offsets(before: Data, after: Data, press: ButtonPress, user: u64, r: Reply)
    requires
        press_step(before, after, press, user, r),
    ensures
        after.v@.len() == before.v@.len(),
        forall|j: int|
            0 <= j < after.v@.len() ==> offset(#[trigger] after.v@[j].ballot()@) == offset(
                before.v@[j].ballot()@,
            ),
{
    if press.index < before.v@.len() && !before.v@[press.index as int].ballot().finished {
        law_cast_keeps_offset(before.v@[press.index as int].ballot()@, user, press.yes);
    }
}

/// Once a press makes a vote pass, the vote is over for good: any later
/// press on it is answered that the vote is over and changes nothing, so a
/// proposal is carried out at most once.
pub proof fn law_passed_vote_stays_over(
    d0: Data,
    d1: Data,
    d2: Data,
    p1: ButtonPress,
    u1: u64,
    r1: Reply,
    p2: ButtonPress,
    u2: u64,
    r2: Reply,
)
    requires
        press_step(d0, d1, p1, u1, r1),
        r1 matches Reply::Counted { passed, .. } && passed is Some,
        press_step(d1, d2, p2, u2, r2),
        p2.index == p1.index,
    ensures
        r2 is VoteOver,
        d2 == d1,
{
}

/// Pressing the same button twice counts once: unless the first press
/// ended the vote, the second one is answered with the same tally and
/// leaves the vote as it was.
pub proof fn law_same_press_counts_once(
    d0: Data,
    d1: Data,
    d2: Data,
    press: ButtonPress,
    user: u64,
    r1: Reply,
    r2: Reply,
)
    requires
        press_step(d0, d1, press, user, r1),
        press_step(d1, d2, press, user, r2),
        r1 is Counted,
    ensures
        r2 is VoteOver || (r2 matches Reply::Counted { tally, passed, .. } && r1 matches Reply::Counted {
            tally: t1,
            ..
        } && tally == t1 && passed is None && d2.v@[press.index as int].ballot()@ == d1.v@[press.index as int].ballot()@),
{
    let i = press.index as int;
    let b0 = d0.v@[i].ballot()@;
    law_repeated_ballot_is_ignored(b0.voters, user, press.yes);
    if !d1.v@[i].ballot().finished {
        assert(d1.v@[i].ballot()@.voters == record(b0.voters, user, press.yes));
    }
}

/// A vote opened on a proposal that nobody has voted on yet records its
/// author's yes ballot without counting it: from then on its tally is its
/// starting tally, minus one, plus the signed sum of its recorded ballots,
/// which button presses keep (see `law_press_keeps_offsets`).
pub proof fn law_new_vote_starts_one_below(
    before: Data,
    after: Data,
    author: u64,
    va: VoteAction,
    ogmsg: Option<u64>,
    r: Registered,
)
    requires
        propose_step(before, after, author, va, ogmsg, r),
        va.ballot()@.voters.len() == 0,
    ensures
        offset(after.v@[r.index as int].ballot()@) == va.ballot()@.votes - 1,
{
    let voters = after.v@[r.index as int].ballot()@.voters;
    assert(!va.ballot()@.voters.contains((author, true)));
    va.ballot()@.voters.index_of_first_ensures((author, false));
    assert(voters =~= seq![(author, true)]);
    assert(voters.drop_last() =~= Seq::<(u64, bool)>::empty());
    assert(signed_sum(voters.drop_last()) == 0);
    assert(signed_sum(voters) == 1);
}

impl Data {
    /// No member has more than one recorded ballot on any vote.
    pub open spec fn one_ballot_per_member(&self) -> bool {
        forall|i: int| 0 <= i < self.v@.len() ==> one_ballot_each(#[trigger] self.v@[i].ballot()@.voters)
    }
}

/// Button presses keep at most one recorded ballot per member on every vote.
pub proof fn law_press_keeps_one_ballot_per_member(
    before: Data,
    after: Data,
    press: ButtonPress,
    user: u64,
    r: Reply,
)
    requires
        press_step(before, after, press, user, r),
        before.one_ballot_per_member(),
    ensures
        after.one_ballot_per_member(),
{
    let i = press.index as int;
    if press.index < before.v@.len() && !before.v@[i].ballot().finished {
        law_cast_keeps_one_ballot_each(before.v@[i].ballot()@.voters, user, press.yes);
        assert forall|j: int| 0 <= j < after.v@.len() implies one_ballot_each(
            #[trigger] after.v@[j].ballot()@.voters,
        ) by {
            if j != i {
                assert(after.v@[j] == before.v@[j]);
            }
        }
    }
}

/// Making a proposal keeps at most one recorded ballot per member on every
/// vote, and records the author's yes ballot on the new one.
pub proof fn law_proposal_keeps_one_ballot_per_member(
    before: Data,
    after: Data,
    author: u64,
    va: VoteAction,
    ogmsg: Option<u64>,
    r: Registered,
)
    requires
        propose_step(before, after, author, va, ogmsg, r),
        before.one_ballot_per_member(),
        one_ballot_each(va.ballot()@.voters),
    ensures
        after.one_ballot_per_member(),
        after.v@[r.index as int].ballot()@.voters.contains((author, true)),
{
    law_cast_keeps_one_ballot_each(va.ballot()@.voters, author, true);
    assert forall|j: int| 0 <= j < after.v@.len() implies one_ballot_each(
        #[trigger] after.v@[j].ballot()@.voters,
    ) by {
        if j < before.v@.len() {
            assert(after.v@[j] == before.v@[j]);
        }
    }
}

impl Data {
    /// The state at the start of a session: no proposals, the default quorum.
    pub fn new(started: i64, color: (u8, u8, u8)) -> (d: Data)
        ensures
            d.v@.len() == 0,
            d.nrq == DEFAULT_NRQ,
            d.started == started,
            d.color == color,
    {
        Data { v: Vec::new(), nrq: DEFAULT_NRQ, started, color }
    }

    /// Recomputes the quorum from the roles of the server's members and
    /// returns it.
    pub fn sync(&mut self, member_roles: &Vec<Vec<u64>>) -> (nrq: i16)
        ensures
            nrq == quorum(holders(member_roles@, VOTER_ROLE)),
            *final(self) == (Data { nrq, ..*old(self) }),
    {
        let n = count_voters(member_roles);
        self.nrq = required_quorum(n);
        self.nrq
    }

    /// Whether the button press that `custom_id` encodes, made by `user`,
    /// can be counted without the tally leaving `i16`.
    pub open spec fn press_fits(&self, press: ButtonPress, user: u64) -> bool {
        press.index < self.v@.len() && !self.v@[press.index as int].ballot().finished ==> cast_fits(
            self.v@[press.index as int].ballot()@,
            user,
            press.yes,
        )
    }

    /// Whether `custom_id`, pressed by `user`, can be counted without the
    /// tally leaving `i16`.
    pub fn count_fits(&self, custom_id: &str, user: u64) -> (b: bool)
        requires
            custom_id@.contains('-'),
        ensures
            b == self.press_fits(press_of(custom_id@), user),
    {
        let press = read_custom_id(custom_id);
        if press.index >= self.v.len() {
            return true;
        }
        let a = &self.v[press.index];
        if a.is_finished() {
            return true;
        }
        let f = a.ballot_factor(user, press.yes);
        let votes = a.tally() as i32;
        let p: i32 = if press.yes { f as i32 } else { -(f as i32) };
        votes + p >= -32768 && votes + p <= 32767
    }

    /// Counts the ballot of a button press: `custom_id` is the pressed
    /// button's id and `user` the member who pressed it. A press on a vote
    /// that does not exist does nothing; one on a vote that is over does
    /// nothing but say so; otherwise the ballot is recorded and counted, and
    /// when the tally reaches the quorum the vote is over and a copy of the
    /// proposal, as it stood before it was marked over, is handed back to be
    /// carried out.
    pub fn interaction_create(&mut self, custom_id: &str, user: u64) -> (r: Reply)
        requires
            custom_id@.contains('-'),
            old(self).press_fits(press_of(custom_id@), user),
        ensures
            press_step(*old(self), *final(self), press_of(custom_id@), user, r),
    {
        let press = read_custom_id(custom_id);
        let index = press.index;
        if index >= self.v.len() {
            return Reply::NoSuchVote;
        }
        if self.v[index].is_finished() {
            return Reply::VoteOver;
        }
        let mut p: i16 = if press.yes { 1 } else { -1 };
        let f = self.v[index].already_voted(user, press.yes);
        assert(-2 <= p * f <= 2) by (nonlinear_arith)
            requires
                -1 <= p <= 1,
                0 <= f <= 2,
        ;
        p = p * f;
        let tally = self.v[index].handle_tally(p);
        let nrq = self.nrq;
        if tally >= nrq {
            let passed = self.v[index].dummy();
            self.v[index].set_finished();
            Reply::Counted { tally, nrq, passed: Some(passed) }
        } else {
            Reply::Counted { tally, nrq, passed: None }
        }
    }
}

/// Records a new proposal made by `author`: the vote is appended to the
/// session `data`, the id of the message that announced it (when sending it
/// worked) is kept, and the author's yes ballot is recorded without
/// being added to the tally. When the tally already reaches the quorum,
/// the vote is over at once and a copy of the proposal, as it stood
/// before it was marked over, is handed back to be carried out.
pub fn create_vote(data: &mut Data, author: u64, va: VoteAction, ogmsg: Option<u64>) -> (r: Registered)
    ensures
        propose_step(*old(data), *final(data), author, va, ogmsg, r),
{
    let index = data.v.len();
    let mut va = va;
    match ogmsg {
        Some(m) => va.set_ogmsg(m),
        None => {},
    }
    va.already_voted(author, true);
    let tally = va.handle_tally(0);
    if tally >= data.nrq {
        let passed = va.dummy();
        va.set_finished();
        data.v.push(va);
        Registered { index, tally, passed: Some(passed) }
    } else {
        data.v.push(va);
        Registered { index, tally, passed: None }
    }
}

} // verus!
