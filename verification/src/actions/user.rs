use vstd::prelude::*;
use crate::ballot::{Ballot, BallotView, fresh_ballot};
use crate::actions::{
    Proposal, VoteAction, role_mention, user_mention, append_role_mention, append_user_mention,
};

verus! {

/// A proposal to kick a member.
pub struct UserKick {
    pub member_id: u64,
    pub ballot: Ballot,
}

impl UserKick {
    /// A new proposal with a fresh ballot whose tally starts at 1.
    pub fn new(member_id: u64) -> (s: Self)
        ensures
            s.member_id == member_id,
            s.ballot@ == fresh_ballot(1),
    {
        UserKick { member_id, ballot: Ballot::new(1) }
    }

    /// Adds `p` to the tally and returns the new tally.
    pub fn handle(&mut self, p: i16) -> (tally: i16)
        requires
            i16::MIN <= old(self).ballot.votes + p <= i16::MAX,
        ensures
            tally == old(self).ballot.votes + p,
            final(self).ballot@ == (BallotView { votes: tally as int, ..old(self).ballot@ }),
            *final(self) == (UserKick { ballot: final(self).ballot, ..*old(self) }),
    {
        self.ballot.handle(p)
    }

    /// Wraps the proposal as a vote action.
    pub fn action(self) -> (a: VoteAction)
        ensures
            a == VoteAction::UserKick(self),
    {
        VoteAction::UserKick(self)
    }
}

/// A proposal to give a role to a member.
pub struct UserRoleAdd {
    pub member_id: u64,
    pub role_id: u64,
    pub ballot: Ballot,
}

impl UserRoleAdd {
    /// A new proposal with a fresh ballot whose tally starts at 1.
    pub fn new(member_id: u64, role_id: u64) -> (s: Self)
        ensures
            s.member_id == member_id,
            s.role_id == role_id,
            s.ballot@ == fresh_ballot(1),
    {
        UserRoleAdd { member_id, role_id, ballot: Ballot::new(1) }
    }

    /// Adds `p` to the tally and returns the new tally.
    pub fn handle(&mut self, p: i16) -> (tally: i16)
        requires
            i16::MIN <= old(self).ballot.votes + p <= i16::MAX,
        ensures
            tally == old(self).ballot.votes + p,
            final(self).ballot@ == (BallotView { votes: tally as int, ..old(self).ballot@ }),
            *final(self) == (UserRoleAdd { ballot: final(self).ballot, ..*old(self) }),
    {
        self.ballot.handle(p)
    }

    /// Wraps the proposal as a vote action.
    pub fn action(self) -> (a: VoteAction)
        ensures
            a == VoteAction::UserRoleAdd(self),
    {
        VoteAction::UserRoleAdd(self)
    }
}

/// A proposal to take a role from a member.
pub struct UserRoleRemove {
    pub member_id: u64,
    pub role_id: u64,
    pub ballot: Ballot,
}

impl UserRoleRemove {
    /// A new proposal with a fresh ballot whose tally starts at 1.
    pub fn new(member_id: u64, role_id: u64) -> (s: Self)
        ensures
            s.member_id == member_id,
            s.role_id == role_id,
            s.ballot@ == fresh_ballot(1),
    {
        UserRoleRemove { member_id, role_id, ballot: Ballot::new(1) }
    }

    /// Adds `p` to the tally and returns the new tally.
    pub fn handle(&mut self, p: i16) -> (tally: i16)
        requires
            i16::MIN <= old(self).ballot.votes + p <= i16::MAX,
        ensures
            tally == old(self).ballot.votes + p,
            final(self).ballot@ == (BallotView { votes: tally as int, ..old(self).ballot@ }),
            *final(self) == (UserRoleRemove { ballot: final(self).ballot, ..*old(self) }),
    {
        self.ballot.handle(p)
    }

    /// Wraps the proposal as a vote action.
    pub fn action(self) -> (a: VoteAction)
        ensures
            a == VoteAction::UserRoleRemove(self),
    {
        VoteAction::UserRoleRemove(self)
    }
}

/// Proposes to kick `member_id`.
pub fn user_kick(member_id: u64) -> (p: Proposal)
    ensures
        p matches Proposal::Vote(text, VoteAction::UserKick(m)),
        p matches Proposal::Vote(text, VoteAction::UserKick(m)) ==> {
            &&& text@ == "Kick "@ + user_mention(member_id)
            &&& m.member_id == member_id
            &&& m.ballot@ == fresh_ballot(1)
        },
{
    let mut text = String::from_str("Kick ");
    append_user_mention(&mut text, member_id);
    Proposal::Vote(text, UserKick::new(member_id).action())
}

/// Proposes to give `role_id` to `member_id`.
pub fn role_add(member_id: u64, role_id: u64) -> (p: Proposal)
    ensures
        p matches Proposal::Vote(text, VoteAction::UserRoleAdd(m)),
        p matches Proposal::Vote(text, VoteAction::UserRoleAdd(m)) ==> {
            &&& text@ == "Add role "@ + role_mention(role_id) + " to user "@ + user_mention(member_id)
            &&& m.member_id == member_id
            &&& m.role_id == role_id
            &&& m.ballot@ == fresh_ballot(1)
        },
{
    let mut text = String::from_str("Add role ");
    append_role_mention(&mut text, role_id);
    text.append(" to user ");
    append_user_mention(&mut text, member_id);
    Proposal::Vote(text, UserRoleAdd::new(member_id, role_id).action())
}

/// Proposes to take `role_id` from `member_id`.
pub fn role_remove(member_id: u64, role_id: u64) -> (p: Proposal)
    ensures
        p matches Proposal::Vote(text, VoteAction::UserRoleRemove(m)),
        p matches Proposal::Vote(text, VoteAction::UserRoleRemove(m)) ==> {
            &&& text@ == "Remove role "@ + role_mention(role_id) + " from user "@ + user_mention(member_id)
            &&& m.member_id == member_id
            &&& m.role_id == role_id
            &&& m.ballot@ == fresh_ballot(1)
        },
{
    let mut text = String::from_str("Remove role ");
    append_role_mention(&mut text, role_id);
    text.append(" from user ");
    append_user_mention(&mut text, member_id);
    Proposal::Vote(text, UserRoleRemove::new(member_id, role_id).action())
}

} // verus!
