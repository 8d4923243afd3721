use vstd::prelude::*;
use crate::ballot::{Ballot, BallotView, record, factor};
use crate::text::{decimal, u64_text};

pub mod channel;
pub mod message;
pub mod role;
pub mod user;

pub use channel::{ChannelPurge, GuildChannelRename, TextChannelCreate, VoiceChannelCreate};
pub use message::{MessageCreateAction, MessageDelete};
pub use role::{
    CantView, RoleCreate, RoleDelete, RoleHoist, RoleRename, RoleSetPosition, UserCanPing,
};
pub use user::{UserKick, UserRoleAdd, UserRoleRemove};

verus! {

/// A proposal under vote, one variant per kind of proposal.
pub enum VoteAction {
    MessageCreate(MessageCreateAction),
    MessageDelete(MessageDelete),
    TextChannelCreate(TextChannelCreate),
    VoiceChannelCreate(VoiceChannelCreate),
    ChannelPurge(ChannelPurge),
    GuildChannelRename(GuildChannelRename),
    CantView(CantView),
    RoleCreate(RoleCreate),
    RoleDelete(RoleDelete),
    RoleHoist(RoleHoist),
    RoleRename(RoleRename),
    RoleSetPosition(RoleSetPosition),
    UserCanPing(UserCanPing),
    UserKick(UserKick),
    UserRoleAdd(UserRoleAdd),
    UserRoleRemove(UserRoleRemove),
}

impl VoteAction {
    /// The proposal's ballot.
    pub open spec fn ballot(&self) -> Ballot {
        match self {
            VoteAction::MessageCreate(m) => m.ballot,
            VoteAction::MessageDelete(m) => m.ballot,
            VoteAction::TextChannelCreate(m) => m.ballot,
            VoteAction::VoiceChannelCreate(m) => m.ballot,
            VoteAction::ChannelPurge(m) => m.ballot,
            VoteAction::GuildChannelRename(m) => m.ballot,
            VoteAction::CantView(m) => m.ballot,
            VoteAction::RoleCreate(m) => m.ballot,
            VoteAction::RoleDelete(m) => m.ballot,
            VoteAction::RoleHoist(m) => m.ballot,
            VoteAction::RoleRename(m) => m.ballot,
            VoteAction::RoleSetPosition(m) => m.ballot,
            VoteAction::UserCanPing(m) => m.ballot,
            VoteAction::UserKick(m) => m.ballot,
            VoteAction::UserRoleAdd(m) => m.ballot,
            VoteAction::UserRoleRemove(m) => m.ballot,
        }
    }

    /// The same proposal with its ballot replaced by `b`.
    pub open spec fn with_ballot(self, b: Ballot) -> VoteAction {
        match self {
            VoteAction::MessageCreate(m) => VoteAction::MessageCreate(MessageCreateAction { ballot: b, ..m }),
            VoteAction::MessageDelete(m) => VoteAction::MessageDelete(MessageDelete { ballot: b, ..m }),
            VoteAction::TextChannelCreate(m) => VoteAction::TextChannelCreate(TextChannelCreate { ballot: b, ..m }),
            VoteAction::VoiceChannelCreate(m) => VoteAction::VoiceChannelCreate(VoiceChannelCreate { ballot: b, ..m }),
            VoteAction::ChannelPurge(m) => VoteAction::ChannelPurge(ChannelPurge { ballot: b, ..m }),
            VoteAction::GuildChannelRename(m) => VoteAction::GuildChannelRename(GuildChannelRename { ballot: b, ..m }),
            VoteAction::CantView(m) => VoteAction::CantView(CantView { ballot: b, ..m }),
            VoteAction::RoleCreate(m) => VoteAction::RoleCreate(RoleCreate { ballot: b, ..m }),
            VoteAction::RoleDelete(m) => VoteAction::RoleDelete(RoleDelete { ballot: b, ..m }),
            VoteAction::RoleHoist(m) => VoteAction::RoleHoist(RoleHoist { ballot: b, ..m }),
            VoteAction::RoleRename(m) => VoteAction::RoleRename(RoleRename { ballot: b, ..m }),
            VoteAction::RoleSetPosition(m) => VoteAction::RoleSetPosition(RoleSetPosition { ballot: b, ..m }),
            VoteAction::UserCanPing(m) => VoteAction::UserCanPing(UserCanPing { ballot: b, ..m }),
            VoteAction::UserKick(m) => VoteAction::UserKick(UserKick { ballot: b, ..m }),
            VoteAction::UserRoleAdd(m) => VoteAction::UserRoleAdd(UserRoleAdd { ballot: b, ..m }),
            VoteAction::UserRoleRemove(m) => VoteAction::UserRoleRemove(UserRoleRemove { ballot: b, ..m }),
        }
    }

    fn ballot_ref(&self) -> (b: &Ballot)
        ensures
            *b == self.ballot(),
    {
        match self {
            VoteAction::MessageCreate(m) => &m.ballot,
            VoteAction::MessageDelete(m) => &m.ballot,
            VoteAction::TextChannelCreate(m) => &m.ballot,
            VoteAction::VoiceChannelCreate(m) => &m.ballot,
            VoteAction::ChannelPurge(m) => &m.ballot,
            VoteAction::GuildChannelRename(m) => &m.ballot,
            VoteAction::CantView(m) => &m.ballot,
            VoteAction::RoleCreate(m) => &m.ballot,
            VoteAction::RoleDelete(m) => &m.ballot,
            VoteAction::RoleHoist(m) => &m.ballot,
            VoteAction::RoleRename(m) => &m.ballot,
            VoteAction::RoleSetPosition(m) => &m.ballot,
            VoteAction::UserCanPing(m) => &m.ballot,
            VoteAction::UserKick(m) => &m.ballot,
            VoteAction::UserRoleAdd(m) => &m.ballot,
            VoteAction::UserRoleRemove(m) => &m.ballot,
        }
    }

    fn ballot_mut(&mut self) -> (b: &mut Ballot)
        ensures
            *b == old(self).ballot(),
            *final(self) == old(self).with_ballot(*final(b)),
    {
        match self {
            VoteAction::MessageCreate(m) => &mut m.ballot,
            VoteAction::MessageDelete(m) => &mut m.ballot,
            VoteAction::TextChannelCreate(m) => &mut m.ballot,
            VoteAction::VoiceChannelCreate(m) => &mut m.ballot,
            VoteAction::ChannelPurge(m) => &mut m.ballot,
            VoteAction::GuildChannelRename(m) => &mut m.ballot,
            VoteAction::CantView(m) => &mut m.ballot,
            VoteAction::RoleCreate(m) => &mut m.ballot,
            VoteAction::RoleDelete(m) => &mut m.ballot,
            VoteAction::RoleHoist(m) => &mut m.ballot,
            VoteAction::RoleRename(m) => &mut m.ballot,
            VoteAction::RoleSetPosition(m) => &mut m.ballot,
            VoteAction::UserCanPing(m) => &mut m.ballot,
            VoteAction::UserKick(m) => &mut m.ballot,
            VoteAction::UserRoleAdd(m) => &mut m.ballot,
            VoteAction::UserRoleRemove(m) => &mut m.ballot,
        }
    }

    /// A copy of the proposal, ballot included.
    pub fn dummy(&self) -> (d: VoteAction)
        ensures
            d.ballot()@ == self.ballot()@,
            d.with_ballot(self.ballot()) == *self,
    {
        match self {
            VoteAction::MessageCreate(m) => VoteAction::MessageCreate(MessageCreateAction { text: m.text.clone(), channel_id: m.channel_id, ballot: m.ballot.duplicate() }),
            VoteAction::MessageDelete(m) => VoteAction::MessageDelete(MessageDelete { channel_id: m.channel_id, message_id: m.message_id, ballot: m.ballot.duplicate() }),
            VoteAction::TextChannelCreate(m) => VoteAction::TextChannelCreate(TextChannelCreate { name: m.name.clone(), category_id: m.category_id, topic: m.topic.clone(), ballot: m.ballot.duplicate() }),
            VoteAction::VoiceChannelCreate(m) => VoteAction::VoiceChannelCreate(VoiceChannelCreate { name: m.name.clone(), category_id: m.category_id, ballot: m.ballot.duplicate() }),
            VoteAction::ChannelPurge(m) => VoteAction::ChannelPurge(ChannelPurge { channel_id: m.channel_id, limit: m.limit, ballot: m.ballot.duplicate() }),
            VoteAction::GuildChannelRename(m) => VoteAction::GuildChannelRename(GuildChannelRename { channel_id: m.channel_id, new_name: m.new_name.clone(), ballot: m.ballot.duplicate() }),
            VoteAction::CantView(m) => VoteAction::CantView(CantView { channel_id: m.channel_id, role_id: m.role_id, ballot: m.ballot.duplicate() }),
            VoteAction::RoleCreate(m) => VoteAction::RoleCreate(RoleCreate { colour: m.colour, name: m.name.clone(), position: m.position, ballot: m.ballot.duplicate() }),
            VoteAction::RoleDelete(m) => VoteAction::RoleDelete(RoleDelete { role_id: m.role_id, ballot: m.ballot.duplicate() }),
            VoteAction::RoleHoist(m) => VoteAction::RoleHoist(RoleHoist { role_id: m.role_id, hoist: m.hoist, ballot: m.ballot.duplicate() }),
            VoteAction::RoleRename(m) => VoteAction::RoleRename(RoleRename { role_id: m.role_id, new_name: m.new_name.clone(), ballot: m.ballot.duplicate() }),
            VoteAction::RoleSetPosition(m) => VoteAction::RoleSetPosition(RoleSetPosition { role_id: m.role_id, position: m.position, ballot: m.ballot.duplicate() }),
            VoteAction::UserCanPing(m) => VoteAction::UserCanPing(UserCanPing { role_id: m.role_id, can_ping: m.can_ping, ballot: m.ballot.duplicate() }),
            VoteAction::UserKick(m) => VoteAction::UserKick(UserKick { member_id: m.member_id, ballot: m.ballot.duplicate() }),
            VoteAction::UserRoleAdd(m) => VoteAction::UserRoleAdd(UserRoleAdd { member_id: m.member_id, role_id: m.role_id, ballot: m.ballot.duplicate() }),
            VoteAction::UserRoleRemove(m) => VoteAction::UserRoleRemove(UserRoleRemove { member_id: m.member_id, role_id: m.role_id, ballot: m.ballot.duplicate() }),
        }
    }

    /// Adds `p` to the tally and returns the new tally.
    pub fn handle_tally(&mut self, p: i16) -> (tally: i16)
        requires
            i16::MIN <= old(self).ballot().votes + p <= i16::MAX,
        ensures
            tally == old(self).ballot().votes + p,
            final(self).ballot()@ == (BallotView { votes: tally as int, ..old(self).ballot()@ }),
            final(self).with_ballot(old(self).ballot()) == *old(self),
    {
        let b = self.ballot_mut();
        b.handle(p)
    }

    /// The current tally.
    pub fn tally(&self) -> (t: i16)
        ensures
            t == self.ballot().votes,
    {
        self.ballot_ref().votes
    }

    /// The factor that `r` voting `vote` would get, without recording it.
    pub fn ballot_factor(&self, r: u64, vote: bool) -> (f: i16)
        ensures
            f == factor(self.ballot()@.voters, r, vote),
    {
        self.ballot_ref().factor_of(r, vote)
    }

    /// Whether the vote is over.
    pub fn is_finished(&self) -> (f: bool)
        ensures
            f == self.ballot().finished,
    {
        self.ballot_ref().finished
    }

    /// Marks the vote as over.
    pub fn set_finished(&mut self)
        ensures
            final(self).ballot()@ == (BallotView { finished: true, ..old(self).ballot()@ }),
            final(self).with_ballot(old(self).ballot()) == *old(self),
    {
        let b = self.ballot_mut();
        b.finished = true;
    }

    /// Records the id of the message that announced the vote.
    pub fn set_ogmsg(&mut self, ogmsg: u64)
        ensures
            final(self).ballot()@ == (BallotView { ogmsg, ..old(self).ballot()@ }),
            final(self).with_ballot(old(self).ballot()) == *old(self),
    {
        let b = self.ballot_mut();
        b.ogmsg = ogmsg;
    }

    /// Records that `r` voted `vote` and returns the factor that the
    /// ballot's sign is to be multiplied by before it is added to the tally:
    /// 0 if `r` already voted that way, 2 if `r` had voted the other way
    /// (that ballot is withdrawn), 1 otherwise.
    pub fn already_voted(&mut self, r: u64, vote: bool) -> (f: i16)
        ensures
            f == factor(old(self).ballot()@.voters, r, vote),
            final(self).ballot()@ == (BallotView {
                voters: record(old(self).ballot()@.voters, r, vote),
                ..old(self).ballot()@
            }),
            final(self).with_ballot(old(self).ballot()) == *old(self),
    {
        let b = self.ballot_mut();
        b.already_voted(r, vote)
    }
}

/// What carrying out a passed proposal asks of the server.
pub enum Effect {
    /// Post `text` in the channel.
    Say { channel_id: u64, text: String },
    /// Delete a message of the channel.
    DeleteMessage { channel_id: u64, message_id: u64 },
    /// Create a text channel (`voice` false, with a topic) or a voice
    /// channel (`voice` true, without one) in the server, under the
    /// category when one is given.
    CreateChannel { name: String, category_id: Option<u64>, voice: bool, topic: Option<String> },
    /// Delete the latest `limit` messages of the channel.
    Purge { channel_id: u64, limit: u64 },
    /// Rename the channel.
    RenameChannel { channel_id: u64, name: String },
    /// Deny the role the right to see the channel.
    HideChannel { channel_id: u64, role_id: u64 },
    /// Create a role in the server.
    CreateRole { colour: u64, name: String, position: u8 },
    /// Delete a role of the server.
    DeleteRole { role_id: u64 },
    /// Show (`hoist`) or stop showing the role in the member list.
    HoistRole { role_id: u64, hoist: bool },
    /// Rename the role, addressed in the server whose id is `guild_id`.
    RenameRole { guild_id: u64, role_id: u64, name: String },
    /// Move the role to a position.
    MoveRole { role_id: u64, new_position: u64 },
    /// Give the role the base permissions, with the right to mention
    /// everyone when `allowed`.
    MentionEveryone { role_id: u64, allowed: bool },
    /// Kick the member from the server.
    Kick { member_id: u64 },
    /// Give the role to the member.
    AddRole { member_id: u64, role_id: u64 },
    /// Take the role from the member.
    RemoveRole { member_id: u64, role_id: u64 },
}

/// What carrying out `a` asks of the server.
pub open spec fn effect_of(a: VoteAction) -> Effect {
    match a {
        VoteAction::MessageCreate(m) => Effect::Say { channel_id: m.channel_id, text: m.text },
        VoteAction::MessageDelete(m) => Effect::DeleteMessage {
            channel_id: m.channel_id,
            message_id: m.message_id,
        },
        VoteAction::TextChannelCreate(m) => Effect::CreateChannel {
            name: m.name,
            category_id: m.category_id,
            voice: false,
            topic: Some(m.topic),
        },
        VoteAction::VoiceChannelCreate(m) => Effect::CreateChannel {
            name: m.name,
            category_id: m.category_id,
            voice: true,
            topic: None,
        },
        VoteAction::ChannelPurge(m) => Effect::Purge { channel_id: m.channel_id, limit: m.limit },
        VoteAction::GuildChannelRename(m) => Effect::RenameChannel {
            channel_id: m.channel_id,
            name: m.new_name,
        },
        VoteAction::CantView(m) => Effect::HideChannel { channel_id: m.channel_id, role_id: m.role_id },
        VoteAction::RoleCreate(m) => Effect::CreateRole {
            colour: m.colour,
            name: m.name,
            position: m.position,
        },
        VoteAction::RoleDelete(m) => Effect::DeleteRole { role_id: m.role_id },
        VoteAction::RoleHoist(m) => Effect::HoistRole { role_id: m.role_id, hoist: m.hoist },
        VoteAction::RoleRename(m) => Effect::RenameRole {
            guild_id: m.role_id,
            role_id: m.role_id,
            name: m.new_name,
        },
        VoteAction::RoleSetPosition(m) => Effect::MoveRole {
            role_id: m.role_id,
            new_position: m.position,
        },
        VoteAction::UserCanPing(m) => Effect::MentionEveryone { role_id: m.role_id, allowed: m.can_ping },
        VoteAction::UserKick(m) => Effect::Kick { member_id: m.member_id },
        VoteAction::UserRoleAdd(m) => Effect::AddRole { member_id: m.member_id, role_id: m.role_id },
        VoteAction::UserRoleRemove(m) => Effect::RemoveRole { member_id: m.member_id, role_id: m.role_id },
    }
}

/// The proposal that asks for the effect `e`, with the ballot `b`: the
/// proposal read back from what it asks of the server.
pub open spec fn proposal_asking(e: Effect, b: Ballot) -> VoteAction {
    match e {
        Effect::Say { channel_id, text } => VoteAction::MessageCreate(
            MessageCreateAction { text, channel_id, ballot: b },
        ),
        Effect::DeleteMessage { channel_id, message_id } => VoteAction::MessageDelete(
            MessageDelete { channel_id, message_id, ballot: b },
        ),
        Effect::CreateChannel { name, category_id, voice, topic } => if voice {
            VoteAction::VoiceChannelCreate(VoiceChannelCreate { name, category_id, ballot: b })
        } else {
            VoteAction::TextChannelCreate(
                TextChannelCreate {
                    name,
                    category_id,
                    topic: match topic {
                        Some(t) => t,
                        None => vstd::pervasive::arbitrary(),
                    },
                    ballot: b,
                },
            )
        },
        Effect::Purge { channel_id, limit } => VoteAction::ChannelPurge(
            ChannelPurge { channel_id, limit, ballot: b },
        ),
        Effect::RenameChannel { channel_id, name } => VoteAction::GuildChannelRename(
            GuildChannelRename { channel_id, new_name: name, ballot: b },
        ),
        Effect::HideChannel { channel_id, role_id } => VoteAction::CantView(
            CantView { channel_id, role_id, ballot: b },
        ),
        Effect::CreateRole { colour, name, position } => VoteAction::RoleCreate(
            RoleCreate { colour, name, position, ballot: b },
        ),
        Effect::DeleteRole { role_id } => VoteAction::RoleDelete(RoleDelete { role_id, ballot: b }),
        Effect::HoistRole { role_id, hoist } => VoteAction::RoleHoist(
            RoleHoist { role_id, hoist, ballot: b },
        ),
        Effect::RenameRole { guild_id, role_id, name } => VoteAction::RoleRename(
            RoleRename { role_id, new_name: name, ballot: b },
        ),
        Effect::MoveRole { role_id, new_position } => VoteAction::RoleSetPosition(
            RoleSetPosition { role_id, position: new_position, ballot: b },
        ),
        Effect::MentionEveryone { role_id, allowed } => VoteAction::UserCanPing(
            UserCanPing { role_id, can_ping: allowed, ballot: b },
        ),
        Effect::Kick { member_id } => VoteAction::UserKick(UserKick { member_id, ballot: b }),
        Effect::AddRole { member_id, role_id } => VoteAction::UserRoleAdd(
            UserRoleAdd { member_id, role_id, ballot: b },
        ),
        Effect::RemoveRole { member_id, role_id } => VoteAction::UserRoleRemove(
            UserRoleRemove { member_id, role_id, ballot: b },
        ),
    }
}

/// Carrying out a proposal loses nothing of what was proposed: the
/// proposal, parameters and kind included (a voice channel under its
/// category, a text channel with its topic, ...), can be read back from the
/// effect it asks for.
pub proof fn law_effect_keeps_the_proposal(a: VoteAction)
    ensures
        proposal_asking(effect_of(a), a.ballot()) == a,
{
}

/// A role is renamed in the server whose id is the role's own id.
pub proof fn law_rename_addresses_the_role_id(m: RoleRename)
    ensures
        effect_of(VoteAction::RoleRename(m)) matches Effect::RenameRole { guild_id, role_id, .. }
            && guild_id == role_id && role_id == m.role_id,
{
}

/// Whether, once `a`'s effect succeeded, "Vote passed." is posted in the
/// vote channel as an answer to the vote's message. Sending a message,
/// hoisting and moving a role are carried out without that announcement.
pub open spec fn announces_passing(a: VoteAction) -> bool {
    match a {
        VoteAction::MessageCreate(_) => false,
        VoteAction::RoleHoist(_) => false,
        VoteAction::RoleSetPosition(_) => false,
        _ => true,
    }
}

/// "Vote passed." is announced for every proposal except those that post a
/// message, show or hide a role in the member list, or move a role.
pub proof fn law_announced_effects(a: VoteAction)
    ensures
        announces_passing(a) <==> !(effect_of(a) is Say || effect_of(a) is HoistRole
            || effect_of(a) is MoveRole),
{
}

impl VoteAction {
    /// What carrying out the proposal asks of the server.
    pub fn effect(&self) -> (e: Effect)
        ensures
            e == effect_of(*self),
    {
        match self {
            VoteAction::MessageCreate(m) => Effect::Say {
                channel_id: m.channel_id,
                text: m.text.clone(),
            },
            VoteAction::MessageDelete(m) => Effect::DeleteMessage {
                channel_id: m.channel_id,
                message_id: m.message_id,
            },
            VoteAction::TextChannelCreate(m) => Effect::CreateChannel {
                name: m.name.clone(),
                category_id: m.category_id,
                voice: false,
                topic: Some(m.topic.clone()),
            },
            VoteAction::VoiceChannelCreate(m) => Effect::CreateChannel {
                name: m.name.clone(),
                category_id: m.category_id,
                voice: true,
                topic: None,
            },
            VoteAction::ChannelPurge(m) => Effect::Purge { channel_id: m.channel_id, limit: m.limit },
            VoteAction::GuildChannelRename(m) => Effect::RenameChannel {
                channel_id: m.channel_id,
                name: m.new_name.clone(),
            },
            VoteAction::CantView(m) => Effect::HideChannel {
                channel_id: m.channel_id,
                role_id: m.role_id,
            },
            VoteAction::RoleCreate(m) => Effect::CreateRole {
                colour: m.colour,
                name: m.name.clone(),
                position: m.position,
            },
            VoteAction::RoleDelete(m) => Effect::DeleteRole { role_id: m.role_id },
            VoteAction::RoleHoist(m) => Effect::HoistRole { role_id: m.role_id, hoist: m.hoist },
            VoteAction::RoleRename(m) => Effect::RenameRole {
                guild_id: m.role_id,
                role_id: m.role_id,
                name: m.new_name.clone(),
            },
            VoteAction::RoleSetPosition(m) => Effect::MoveRole {
                role_id: m.role_id,
                new_position: m.position,
            },
            VoteAction::UserCanPing(m) => Effect::MentionEveryone {
                role_id: m.role_id,
                allowed: m.can_ping,
            },
            VoteAction::UserKick(m) => Effect::Kick { member_id: m.member_id },
            VoteAction::UserRoleAdd(m) => Effect::AddRole {
                member_id: m.member_id,
                role_id: m.role_id,
            },
            VoteAction::UserRoleRemove(m) => Effect::RemoveRole {
                member_id: m.member_id,
                role_id: m.role_id,
            },
        }
    }

    /// Whether "Vote passed." is announced once the effect succeeded.
    pub fn announces(&self) -> (b: bool)
        ensures
            b == announces_passing(*self),
    {
        match self {
            VoteAction::MessageCreate(_) => false,
            VoteAction::RoleHoist(_) => false,
            VoteAction::RoleSetPosition(_) => false,
            _ => true,
        }
    }

    /// The id of the message that announced the vote.
    pub fn ogmsg(&self) -> (m: u64)
        ensures
            m == self.ballot().ogmsg,
    {
        self.ballot_ref().ogmsg
    }
}

/// `p` refuses with the reply `reply`.
pub open spec fn refused_with(p: Proposal, reply: Seq<char>) -> bool {
    p matches Proposal::Refused(r) && r@ == reply
}

/// `"<@&{id}>"`, the mention of a role.
pub open spec fn role_mention(id: u64) -> Seq<char> {
    "<@&"@ + decimal(id as nat) + ">"@
}

/// `"<#{id}>"`, the mention of a channel.
pub open spec fn channel_mention(id: u64) -> Seq<char> {
    "<#"@ + decimal(id as nat) + ">"@
}

pub(crate) fn append_role_mention(s: &mut String, id: u64)
    ensures
        final(s)@ == old(s)@ + role_mention(id),
{
    s.append("<@&");
    s.append(u64_text(id).as_str());
    s.append(">");
}

pub(crate) fn append_channel_mention(s: &mut String, id: u64)
    ensures
        final(s)@ == old(s)@ + channel_mention(id),
{
    s.append("<#");
    s.append(u64_text(id).as_str());
    s.append(">");
}

/// `"<@{id}>"`, the mention of a member.
pub open spec fn user_mention(id: u64) -> Seq<char> {
    "<@"@ + decimal(id as nat) + ">"@
}

pub(crate) fn append_user_mention(s: &mut String, id: u64)
    ensures
        final(s)@ == old(s)@ + user_mention(id),
{
    s.append("<@");
    s.append(u64_text(id).as_str());
    s.append(">");
}

/// The answer to a proposal command: a refusal with the reply to give, or
/// the vote to open with the text that describes it.
pub enum Proposal {
    Refused(String),
    Vote(String, VoteAction),
}

} // verus!
