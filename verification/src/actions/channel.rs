use vstd::prelude::*;
use crate::ballot::{Ballot, BallotView, fresh_ballot};
use crate::actions::{Proposal, VoteAction, refused_with, channel_mention, append_channel_mention};
use crate::consts::{cannot_modify_channel, protected_channel};

verus! {

/// A proposal to create a text channel.
pub struct TextChannelCreate {
    pub name: String,
    pub category_id: Option<u64>,
    pub topic: String,
    pub ballot: Ballot,
}

impl TextChannelCreate {
    /// A new proposal with a fresh ballot whose tally starts at 0.
    pub fn new(name: String, category_id: Option<u64>, topic: String) -> (s: Self)
        ensures
            s.name == name,
            s.category_id == category_id,
            s.topic == topic,
            s.ballot@ == fresh_ballot(0),
    {
        TextChannelCreate { name, category_id, topic, ballot: Ballot::new(0) }
    }

    /// Adds `p` to the tally and returns the new tally.
    pub fn handle(&mut self, p: i16) -> (tally: i16)
        requires
            i16::MIN <= old(self).ballot.votes + p <= i16::MAX,
        ensures
            tally == old(self).ballot.votes + p,
            final(self).ballot@ == (BallotView { votes: tally as int, ..old(self).ballot@ }),
            *final(self) == (TextChannelCreate { ballot: final(self).ballot, ..*old(self) }),
    {
        self.ballot.handle(p)
    }

    /// Wraps the proposal as a vote action.
    pub fn action(self) -> (a: VoteAction)
        ensures
            a == VoteAction::TextChannelCreate(self),
    {
        VoteAction::TextChannelCreate(self)
    }
}

/// A proposal to create a voice channel.
pub struct VoiceChannelCreate {
    pub name: String,
    pub category_id: Option<u64>,
    pub ballot: Ballot,
}

impl VoiceChannelCreate {
    /// A new proposal with a fresh ballot whose tally starts at 1.
    pub fn new(name: String, category_id: Option<u64>) -> (s: Self)
        ensures
            s.name == name,
            s.category_id == category_id,
            s.ballot@ == fresh_ballot(1),
    {
        VoiceChannelCreate { name, category_id, ballot: Ballot::new(1) }
    }

    /// Adds `p` to the tally and returns the new tally.
    pub fn handle(&mut self, p: i16) -> (tally: i16)
        requires
            i16::MIN <= old(self).ballot.votes + p <= i16::MAX,
        ensures
            tally == old(self).ballot.votes + p,
            final(self).ballot@ == (BallotView { votes: tally as int, ..old(self).ballot@ }),
            *final(self) == (VoiceChannelCreate { ballot: final(self).ballot, ..*old(self) }),
    {
        self.ballot.handle(p)
    }

    /// Wraps the proposal as a vote action.
    pub fn action(self) -> (a: VoteAction)
        ensures
            a == VoteAction::VoiceChannelCreate(self),
    {
        VoteAction::VoiceChannelCreate(self)
    }
}

/// A proposal to delete the latest messages of a channel.
pub struct ChannelPurge {
    pub channel_id: u64,
    pub limit: u64,
    pub ballot: Ballot,
}

impl ChannelPurge {
    /// A new proposal with a fresh ballot whose tally starts at 1.
    pub fn new(channel_id: u64, limit: u64) -> (s: Self)
        ensures
            s.channel_id == channel_id,
            s.limit == limit,
            s.ballot@ == fresh_ballot(1),
    {
        ChannelPurge { channel_id, limit, ballot: Ballot::new(1) }
    }

    /// Adds `p` to the tally and returns the new tally.
    pub fn handle(&mut self, p: i16) -> (tally: i16)
        requires
            i16::MIN <= old(self).ballot.votes + p <= i16::MAX,
        ensures
            tally == old(self).ballot.votes + p,
            final(self).ballot@ == (BallotView { votes: tally as int, ..old(self).ballot@ }),
            *final(self) == (ChannelPurge { ballot: final(self).ballot, ..*old(self) }),
    {
        self.ballot.handle(p)
    }

    /// Wraps the proposal as a vote action.
    pub fn action(self) -> (a: VoteAction)
        ensures
            a == VoteAction::ChannelPurge(self),
    {
        VoteAction::ChannelPurge(self)
    }
}

/// A proposal to rename a channel.
pub struct GuildChannelRename {
    pub channel_id: u64,
    pub new_name: String,
    pub ballot: Ballot,
}

impl GuildChannelRename {
    /// A new proposal with a fresh ballot whose tally starts at 1.
    pub fn new(channel_id: u64, new_name: String) -> (s: Self)
        ensures
            s.channel_id == channel_id,
            s.new_name == new_name,
            s.ballot@ == fresh_ballot(1),
    {
        GuildChannelRename { channel_id, new_name, ballot: Ballot::new(1) }
    }

    /// Adds `p` to the tally and returns the new tally.
    pub fn handle(&mut self, p: i16) -> (tally: i16)
        requires
            i16::MIN <= old(self).ballot.votes + p <= i16::MAX,
        ensures
            tally == old(self).ballot.votes + p,
            final(self).ballot@ == (BallotView { votes: tally as int, ..old(self).ballot@ }),
            *final(self) == (GuildChannelRename { ballot: final(self).ballot, ..*old(self) }),
    {
        self.ballot.handle(p)
    }

    /// Wraps the proposal as a vote action.
    pub fn action(self) -> (a: VoteAction)
        ensures
            a == VoteAction::GuildChannelRename(self),
    {
        VoteAction::GuildChannelRename(self)
    }
}

/// Proposes to delete the latest `limit` messages of `channel_id`;
/// protected channels are refused. (The proposal's text always speaks of
/// 100 messages.)
pub fn channel_purge(channel_id: u64, limit: u64) -> (p: Proposal)
    ensures
        protected_channel(channel_id) ==> refused_with(p, "You cannot purge from these channels."@),
        !protected_channel(channel_id) ==> {
            &&& p matches Proposal::Vote(text, VoteAction::ChannelPurge(m))
            &&& text@ == "Purge 100 messages from the "@ + channel_mention(channel_id) + " channel"@
            &&& m.channel_id == channel_id
            &&& m.limit == limit
            &&& m.ballot@ == fresh_ballot(1)
        },
{
    if cannot_modify_channel(channel_id) {
        Proposal::Refused(String::from_str("You cannot purge from these channels."))
    } else {
        let mut text = String::from_str("Purge 100 messages from the ");
        append_channel_mention(&mut text, channel_id);
        text.append(" channel");
        Proposal::Vote(text, ChannelPurge::new(channel_id, limit).action())
    }
}

/// Proposes to rename `channel_id` to `new_name`; protected channels are
/// refused.
pub fn channel_rename(channel_id: u64, new_name: String) -> (p: Proposal)
    ensures
        protected_channel(channel_id) ==> refused_with(p, "You cannot modify these channels."@),
        !protected_channel(channel_id) ==> {
            &&& p matches Proposal::Vote(text, VoteAction::GuildChannelRename(m))
            &&& text@ == "Rename channel "@ + channel_mention(channel_id) + " to "@ + new_name@
            &&& m.channel_id == channel_id
            &&& m.new_name == new_name
            &&& m.ballot@ == fresh_ballot(1)
        },
{
    if cannot_modify_channel(channel_id) {
        Proposal::Refused(String::from_str("You cannot modify these channels."))
    } else {
        let mut text = String::from_str("Rename channel ");
        append_channel_mention(&mut text, channel_id);
        text.append(" to ");
        text.append(new_name.as_str());
        Proposal::Vote(text, GuildChannelRename::new(channel_id, new_name).action())
    }
}

/// Proposes to create a text channel, under `category_id` when given.
pub fn create_text(name: String, category_id: Option<u64>, topic: String) -> (p: Proposal)
    ensures
        p matches Proposal::Vote(text, VoteAction::TextChannelCreate(m)),
        p matches Proposal::Vote(text, VoteAction::TextChannelCreate(m)) ==> {
            &&& text@ == "Create channel called "@ + name@
            &&& m.name == name
            &&& m.category_id == category_id
            &&& m.topic == topic
            &&& m.ballot@ == fresh_ballot(0)
        },
{
    let mut text = String::from_str("Create channel called ");
    text.append(name.as_str());
    Proposal::Vote(text, TextChannelCreate::new(name, category_id, topic).action())
}

/// Proposes to create a voice channel, under `category_id` when given.
pub fn create_voice(name: String, category_id: Option<u64>) -> (p: Proposal)
    ensures
        p matches Proposal::Vote(text, VoteAction::VoiceChannelCreate(m)),
        p matches Proposal::Vote(text, VoteAction::VoiceChannelCreate(m)) ==> {
            &&& text@ == "Create channel called "@ + name@
            &&& m.name == name
            &&& m.category_id == category_id
            &&& m.ballot@ == fresh_ballot(1)
        },
{
    let mut text = String::from_str("Create channel called ");
    text.append(name.as_str());
    Proposal::Vote(text, VoiceChannelCreate::new(name, category_id).action())
}

} // verus!
