use vstd::prelude::*;
use crate::ballot::{Ballot, BallotView, fresh_ballot};
use crate::actions::{
    Proposal, VoteAction, refused_with, role_mention, channel_mention, append_role_mention,
    append_channel_mention,
};
use crate::consts::{cannot_modify, cannot_modify_channel, protected_channel, protected_role};
use crate::text::{decimal, u64_text};

verus! {

/// A proposal to stop a role from seeing a channel.
pub struct CantView {
    pub channel_id: u64,
    pub role_id: u64,
    pub ballot: Ballot,
}

impl CantView {
    /// A new proposal with a fresh ballot whose tally starts at 1.
    pub fn new(channel_id: u64, role_id: u64) -> (s: Self)
        ensures
            s.channel_id == channel_id,
            s.role_id == role_id,
            s.ballot@ == fresh_ballot(1),
    {
        CantView { channel_id, role_id, ballot: Ballot::new(1) }
    }

    /// Adds `p` to the tally and returns the new tally.
    pub fn handle(&mut self, p: i16) -> (tally: i16)
        requires
            i16::MIN <= old(self).ballot.votes + p <= i16::MAX,
        ensures
            tally == old(self).ballot.votes + p,
            final(self).ballot@ == (BallotView { votes: tally as int, ..old(self).ballot@ }),
            *final(self) == (CantView { ballot: final(self).ballot, ..*old(self) }),
    {
        self.ballot.handle(p)
    }

    /// Wraps the proposal as a vote action.
    pub fn action(self) -> (a: VoteAction)
        ensures
            a == VoteAction::CantView(self),
    {
        VoteAction::CantView(self)
    }
}

/// A proposal to create a role.
pub struct RoleCreate {
    pub colour: u64,
    pub name: String,
    pub position: u8,
    pub ballot: Ballot,
}

impl RoleCreate {
    /// A new proposal with a fresh ballot whose tally starts at 0.
    pub fn new(colour: u64, name: String, position: u8) -> (s: Self)
        ensures
            s.colour == colour,
            s.name == name,
            s.position == position,
            s.ballot@ == fresh_ballot(0),
    {
        RoleCreate { colour, name, position, ballot: Ballot::new(0) }
    }

    /// Adds `p` to the tally and returns the new tally.
    pub fn handle(&mut self, p: i16) -> (tally: i16)
        requires
            i16::MIN <= old(self).ballot.votes + p <= i16::MAX,
        ensures
            tally == old(self).ballot.votes + p,
            final(self).ballot@ == (BallotView { votes: tally as int, ..old(self).ballot@ }),
            *final(self) == (RoleCreate { ballot: final(self).ballot, ..*old(self) }),
    {
        self.ballot.handle(p)
    }

    /// Wraps the proposal as a vote action.
    pub fn action(self) -> (a: VoteAction)
        ensures
            a == VoteAction::RoleCreate(self),
    {
        VoteAction::RoleCreate(self)
    }
}

/// A proposal to delete a role.
pub struct RoleDelete {
    pub role_id: u64,
    pub ballot: Ballot,
}

impl RoleDelete {
    /// A new proposal with a fresh ballot whose tally starts at 1.
    pub fn new(role_id: u64) -> (s: Self)
        ensures
            s.role_id == role_id,
            s.ballot@ == fresh_ballot(1),
    {
        RoleDelete { role_id, ballot: Ballot::new(1) }
    }

    /// Adds `p` to the tally and returns the new tally.
    pub fn handle(&mut self, p: i16) -> (tally: i16)
        requires
            i16::MIN <= old(self).ballot.votes + p <= i16::MAX,
        ensures
            tally == old(self).ballot.votes + p,
            final(self).ballot@ == (BallotView { votes: tally as int, ..old(self).ballot@ }),
            *final(self) == (RoleDelete { ballot: final(self).ballot, ..*old(self) }),
    {
        self.ballot.handle(p)
    }

    /// Wraps the proposal as a vote action.
    pub fn action(self) -> (a: VoteAction)
        ensures
            a == VoteAction::RoleDelete(self),
    {
        VoteAction::RoleDelete(self)
    }
}

/// A proposal to show or stop showing a role in the member list.
pub struct RoleHoist {
    pub role_id: u64,
    pub hoist: bool,
    pub ballot: Ballot,
}

impl RoleHoist {
    /// A new proposal with a fresh ballot whose tally starts at 0.
    pub fn new(role_id: u64, hoist: bool) -> (s: Self)
        ensures
            s.role_id == role_id,
            s.hoist == hoist,
            s.ballot@ == fresh_ballot(0),
    {
        RoleHoist { role_id, hoist, ballot: Ballot::new(0) }
    }

    /// Adds `p` to the tally and returns the new tally.
    pub fn handle(&mut self, p: i16) -> (tally: i16)
        requires
            i16::MIN <= old(self).ballot.votes + p <= i16::MAX,
        ensures
            tally == old(self).ballot.votes + p,
            final(self).ballot@ == (BallotView { votes: tally as int, ..old(self).ballot@ }),
            *final(self) == (RoleHoist { ballot: final(self).ballot, ..*old(self) }),
    {
        self.ballot.handle(p)
    }

    /// Wraps the proposal as a vote action.
    pub fn action(self) -> (a: VoteAction)
        ensures
            a == VoteAction::RoleHoist(self),
    {
        VoteAction::RoleHoist(self)
    }
}

/// A proposal to rename a role.
pub struct RoleRename {
    pub role_id: u64,
    pub new_name: String,
    pub ballot: Ballot,
}

impl RoleRename {
    /// A new proposal with a fresh ballot whose tally starts at 1.
    pub fn new(role_id: u64, new_name: String) -> (s: Self)
        ensures
            s.role_id == role_id,
            s.new_name == new_name,
            s.ballot@ == fresh_ballot(1),
    {
        RoleRename { role_id, new_name, ballot: Ballot::new(1) }
    }

    /// Adds `p` to the tally and returns the new tally.
    pub fn handle(&mut self, p: i16) -> (tally: i16)
        requires
            i16::MIN <= old(self).ballot.votes + p <= i16::MAX,
        ensures
            tally == old(self).ballot.votes + p,
            final(self).ballot@ == (BallotView { votes: tally as int, ..old(self).ballot@ }),
            *final(self) == (RoleRename { ballot: final(self).ballot, ..*old(self) }),
    {
        self.ballot.handle(p)
    }

    /// Wraps the proposal as a vote action.
    pub fn action(self) -> (a: VoteAction)
        ensures
            a == VoteAction::RoleRename(self),
    {
        VoteAction::RoleRename(self)
    }
}

/// A proposal to move a role.
pub struct RoleSetPosition {
    pub role_id: u64,
    pub position: u64,
    pub ballot: Ballot,
}

impl RoleSetPosition {
    /// A new proposal with a fresh ballot whose tally starts at 0.
    pub fn new(role_id: u64, position: u64) -> (s: Self)
        ensures
            s.role_id == role_id,
            s.position == position,
            s.ballot@ == fresh_ballot(0),
    {
        RoleSetPosition { role_id, position, ballot: Ballot::new(0) }
    }

    /// Adds `p` to the tally and returns the new tally.
    pub fn handle(&mut self, p: i16) -> (tally: i16)
        requires
            i16::MIN <= old(self).ballot.votes + p <= i16::MAX,
        ensures
            tally == old(self).ballot.votes + p,
            final(self).ballot@ == (BallotView { votes: tally as int, ..old(self).ballot@ }),
            *final(self) == (RoleSetPosition { ballot: final(self).ballot, ..*old(self) }),
    {
        self.ballot.handle(p)
    }

    /// Wraps the proposal as a vote action.
    pub fn action(self) -> (a: VoteAction)
        ensures
            a == VoteAction::RoleSetPosition(self),
    {
        VoteAction::RoleSetPosition(self)
    }
}

/// A proposal to allow or forbid a role to mention everyone.
pub struct UserCanPing {
    pub role_id: u64,
    pub can_ping: bool,
    pub ballot: Ballot,
}

impl UserCanPing {
    /// A new proposal with a fresh ballot whose tally starts at 1.
    pub fn new(role_id: u64, can_ping: bool) -> (s: Self)
        ensures
            s.role_id == role_id,
            s.can_ping == can_ping,
            s.ballot@ == fresh_ballot(1),
    {
        UserCanPing { role_id, can_ping, ballot: Ballot::new(1) }
    }

    /// Adds `p` to the tally and returns the new tally.
    pub fn handle(&mut self, p: i16) -> (tally: i16)
        requires
            i16::MIN <= old(self).ballot.votes + p <= i16::MAX,
        ensures
            tally == old(self).ballot.votes + p,
            final(self).ballot@ == (BallotView { votes: tally as int, ..old(self).ballot@ }),
            *final(self) == (UserCanPing { ballot: final(self).ballot, ..*old(self) }),
    {
        self.ballot.handle(p)
    }

    /// Wraps the proposal as a vote action.
    pub fn action(self) -> (a: VoteAction)
        ensures
            a == VoteAction::UserCanPing(self),
    {
        VoteAction::UserCanPing(self)
    }
}

/// Proposes to stop `role_id` from seeing `channel_id`. Protected roles and
/// protected channels are refused.
pub fn cant_view(role_id: u64, channel_id: u64) -> (p: Proposal)
    ensures
        protected_role(role_id) ==> refused_with(p, "You cannot modify this role."@),
        !protected_role(role_id) && protected_channel(channel_id) ==> refused_with(
            p,
            "You cannot delete these channels."@,
        ),
        !protected_role(role_id) && !protected_channel(channel_id) ==> {
            &&& p matches Proposal::Vote(text, VoteAction::CantView(m))
            &&& text@ == "Block role "@ + role_mention(role_id) + " from seeing "@ + channel_mention(channel_id)
            &&& m.channel_id == channel_id
            &&& m.role_id == role_id
            &&& m.ballot@ == fresh_ballot(1)
        },
{
    if cannot_modify(role_id) {
        Proposal::Refused(String::from_str("You cannot modify this role."))
    } else if cannot_modify_channel(channel_id) {
        Proposal::Refused(String::from_str("You cannot delete these channels."))
    } else {
        let mut text = String::from_str("Block role ");
        append_role_mention(&mut text, role_id);
        text.append(" from seeing ");
        append_channel_mention(&mut text, channel_id);
        Proposal::Vote(text, CantView::new(channel_id, role_id).action())
    }
}

/// `(red << 16) | (green << 8) | blue`, the colour value that serenity's
/// `Colour::from_rgb` builds.
pub open spec fn rgb(r: u8, g: u8, b: u8) -> int {
    r * 65536 + g * 256 + b
}

/// The colour value of red, green and blue components.
pub fn colour_from_rgb(r: u8, g: u8, b: u8) -> (c: u32)
    ensures
        c == rgb(r, g, b),
{
    (r as u32) * 65536 + (g as u32) * 256 + (b as u32)
}

/// Proposes to create a role with the given colour components, name and
/// position.
pub fn role_create(r: u8, g: u8, b: u8, name: String, position: u8) -> (p: Proposal)
    ensures
        p matches Proposal::Vote(text, VoteAction::RoleCreate(m)),
        p matches Proposal::Vote(text, VoteAction::RoleCreate(m)) ==> {
            &&& text@ == "Create role called "@ + name@
            &&& m.colour == rgb(r, g, b)
            &&& m.name == name
            &&& m.position == position
            &&& m.ballot@ == fresh_ballot(0)
        },
{
    let mut text = String::from_str("Create role called ");
    text.append(name.as_str());
    let colour = colour_from_rgb(r, g, b) as u64;
    Proposal::Vote(text, RoleCreate::new(colour, name, position).action())
}

/// Proposes to delete `role_id`; protected roles are refused.
pub fn role_delete(role_id: u64) -> (p: Proposal)
    ensures
        protected_role(role_id) ==> refused_with(p, "You cannot delete this role."@),
        !protected_role(role_id) ==> {
            &&& p matches Proposal::Vote(text, VoteAction::RoleDelete(m))
            &&& text@ == "Delete role "@ + role_mention(role_id)
            &&& m.role_id == role_id
            &&& m.ballot@ == fresh_ballot(1)
        },
{
    if cannot_modify(role_id) {
        Proposal::Refused(String::from_str("You cannot delete this role."))
    } else {
        let mut text = String::from_str("Delete role ");
        append_role_mention(&mut text, role_id);
        Proposal::Vote(text, RoleDelete::new(role_id).action())
    }
}

fn hoist_proposal(role_id: u64, hoist: bool) -> (p: Proposal)
    ensures
        protected_role(role_id) ==> refused_with(p, "You cannot modify this role."@),
        !protected_role(role_id) ==> {
            &&& p matches Proposal::Vote(text, VoteAction::RoleHoist(m))
            &&& text@ == (if hoist {
                "Proposal to hoist role "@
            } else {
                "Proposal to unhoist role "@
            }) + role_mention(role_id)
            &&& m.role_id == role_id
            &&& m.hoist == hoist
            &&& m.ballot@ == fresh_ballot(0)
        },
{
    if cannot_modify(role_id) {
        Proposal::Refused(String::from_str("You cannot modify this role."))
    } else {
        let mut text = if hoist {
            String::from_str("Proposal to hoist role ")
        } else {
            String::from_str("Proposal to unhoist role ")
        };
        append_role_mention(&mut text, role_id);
        Proposal::Vote(text, RoleHoist::new(role_id, hoist).action())
    }
}

/// Proposes to show `role_id` in the member list; protected roles are
/// refused.
pub fn role_hoist(role_id: u64) -> (p: Proposal)
    ensures
        protected_role(role_id) ==> refused_with(p, "You cannot modify this role."@),
        !protected_role(role_id) ==> {
            &&& p matches Proposal::Vote(text, VoteAction::RoleHoist(m))
            &&& text@ == "Proposal to hoist role "@ + role_mention(role_id)
            &&& m.role_id == role_id
            &&& m.hoist
            &&& m.ballot@ == fresh_ballot(0)
        },
{
    hoist_proposal(role_id, true)
}

/// Proposes to stop showing `role_id` in the member list; protected roles
/// are refused.
pub fn role_unhoist(role_id: u64) -> (p: Proposal)
    ensures
        protected_role(role_id) ==> refused_with(p, "You cannot modify this role."@),
        !protected_role(role_id) ==> {
            &&& p matches Proposal::Vote(text, VoteAction::RoleHoist(m))
            &&& text@ == "Proposal to unhoist role "@ + role_mention(role_id)
            &&& m.role_id == role_id
            &&& !m.hoist
            &&& m.ballot@ == fresh_ballot(0)
        },
{
    hoist_proposal(role_id, false)
}

/// Proposes to rename `role_id` to `new_name`; protected roles are refused.
pub fn role_rename(role_id: u64, new_name: String) -> (p: Proposal)
    ensures
        protected_role(role_id) ==> refused_with(p, "You cannot rename this role."@),
        !protected_role(role_id) ==> {
            &&& p matches Proposal::Vote(text, VoteAction::RoleRename(m))
            &&& text@ == "Rename role "@ + role_mention(role_id) + " to "@ + new_name@
            &&& m.role_id == role_id
            &&& m.new_name == new_name
            &&& m.ballot@ == fresh_ballot(1)
        },
{
    if cannot_modify(role_id) {
        Proposal::Refused(String::from_str("You cannot rename this role."))
    } else {
        let mut text = String::from_str("Rename role ");
        append_role_mention(&mut text, role_id);
        text.append(" to ");
        text.append(new_name.as_str());
        Proposal::Vote(text, RoleRename::new(role_id, new_name).action())
    }
}

/// Proposes to move `role_id` to `position`; protected roles are refused.
pub fn role_set_position(role_id: u64, position: u64) -> (p: Proposal)
    ensures
        protected_role(role_id) ==> refused_with(p, "You cannot modify this role."@),
        !protected_role(role_id) ==> {
            &&& p matches Proposal::Vote(text, VoteAction::RoleSetPosition(m))
            &&& text@ == "Move role "@ + role_mention(role_id) + " to Position("@ + decimal(
                position as nat,
            ) + ")"@
            &&& m.role_id == role_id
            &&& m.position == position
            &&& m.ballot@ == fresh_ballot(0)
        },
{
    if cannot_modify(role_id) {
        Proposal::Refused(String::from_str("You cannot modify this role."))
    } else {
        let mut text = String::from_str("Move role ");
        append_role_mention(&mut text, role_id);
        text.append(" to Position(");
        text.append(u64_text(position).as_str());
        text.append(")");
        Proposal::Vote(text, RoleSetPosition::new(role_id, position).action())
    }
}

fn ping_proposal(role_id: u64, can_ping: bool) -> (p: Proposal)
    ensures
        p matches Proposal::Vote(text, VoteAction::UserCanPing(m)),
        p matches Proposal::Vote(text, VoteAction::UserCanPing(m)) ==> {
            &&& text@ == "Make role "@ + role_mention(role_id) + (if can_ping {
                " able to ping everyone"@
            } else {
                " unable to ping everyone"@
            })
            &&& m.role_id == role_id
            &&& m.can_ping == can_ping
            &&& m.ballot@ == fresh_ballot(1)
        },
{
    let mut text = String::from_str("Make role ");
    append_role_mention(&mut text, role_id);
    if can_ping {
        text.append(" able to ping everyone");
    } else {
        text.append(" unable to ping everyone");
    }
    Proposal::Vote(text, UserCanPing::new(role_id, can_ping).action())
}

/// Proposes to let `role_id` mention everyone.
pub fn can_ping_everyone(role_id: u64) -> (p: Proposal)
    ensures
        p matches Proposal::Vote(text, VoteAction::UserCanPing(m)),
        p matches Proposal::Vote(text, VoteAction::UserCanPing(m)) ==> {
            &&& text@ == "Make role "@ + role_mention(role_id) + " able to ping everyone"@
            &&& m.role_id == role_id
            &&& m.can_ping
            &&& m.ballot@ == fresh_ballot(1)
        },
{
    ping_proposal(role_id, true)
}

/// Proposes to stop `role_id` from mentioning everyone.
pub fn cant_ping_everyone(role_id: u64) -> (p: Proposal)
    ensures
        p matches Proposal::Vote(text, VoteAction::UserCanPing(m)),
        p matches Proposal::Vote(text, VoteAction::UserCanPing(m)) ==> {
            &&& text@ == "Make role "@ + role_mention(role_id) + " unable to ping everyone"@
            &&& m.role_id == role_id
            &&& !m.can_ping
            &&& m.ballot@ == fresh_ballot(1)
        },
{
    ping_proposal(role_id, false)
}

} // verus!
