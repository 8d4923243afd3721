use vstd::prelude::*;
use crate::ballot::{Ballot, BallotView, fresh_ballot};
use crate::actions::{Proposal, VoteAction, channel_mention, append_channel_mention};
use crate::text::{decimal, parse_unsigned, parse_at_most, u64_text};

verus! {

/// A proposal to send a message to a channel.
pub struct MessageCreateAction {
    pub text: String,
    pub channel_id: u64,
    pub ballot: Ballot,
}

impl MessageCreateAction {
    /// A new proposal with a fresh ballot whose tally starts at 0.
    pub fn new(text: String, channel_id: u64) -> (s: Self)
        ensures
            s.text == text,
            s.channel_id == channel_id,
            s.ballot@ == fresh_ballot(0),
    {
        MessageCreateAction { text, channel_id, ballot: Ballot::new(0) }
    }

    /// Adds `p` to the tally and returns the new tally.
    pub fn handle(&mut self, p: i16) -> (tally: i16)
        requires
            i16::MIN <= old(self).ballot.votes + p <= i16::MAX,
        ensures
            tally == old(self).ballot.votes + p,
            final(self).ballot@ == (BallotView { votes: tally as int, ..old(self).ballot@ }),
            *final(self) == (MessageCreateAction { ballot: final(self).ballot, ..*old(self) }),
    {
        self.ballot.handle(p)
    }

    /// Wraps the proposal as a vote action.
    pub fn action(self) -> (a: VoteAction)
        ensures
            a == VoteAction::MessageCreate(self),
    {
        VoteAction::MessageCreate(self)
    }
}

/// A proposal to delete a message.
pub struct MessageDelete {
    pub channel_id: u64,
    pub message_id: u64,
    pub ballot: Ballot,
}

impl MessageDelete {
    /// A new proposal with a fresh ballot whose tally starts at 0.
    pub fn new(channel_id: u64, message_id: u64) -> (s: Self)
        ensures
            s.channel_id == channel_id,
            s.message_id == message_id,
            s.ballot@ == fresh_ballot(0),
    {
        MessageDelete { channel_id, message_id, ballot: Ballot::new(0) }
    }

    /// Adds `p` to the tally and returns the new tally.
    pub fn handle(&mut self, p: i16) -> (tally: i16)
        requires
            i16::MIN <= old(self).ballot.votes + p <= i16::MAX,
        ensures
            tally == old(self).ballot.votes + p,
            final(self).ballot@ == (BallotView { votes: tally as int, ..old(self).ballot@ }),
            *final(self) == (MessageDelete { ballot: final(self).ballot, ..*old(self) }),
    {
        self.ballot.handle(p)
    }

    /// Wraps the proposal as a vote action.
    pub fn action(self) -> (a: VoteAction)
        ensures
            a == VoteAction::MessageDelete(self),
    {
        VoteAction::MessageDelete(self)
    }
}

/// Proposes to post `message` in `channel_id`.
pub fn create(channel_id: u64, message: String) -> (p: Proposal)
    ensures
        p matches Proposal::Vote(text, VoteAction::MessageCreate(m)),
        p matches Proposal::Vote(text, VoteAction::MessageCreate(m)) ==> {
            &&& text@ == "Send message \""@ + message@ + "\" to the "@ + channel_mention(channel_id)
                + " channel"@
            &&& m.text == message
            &&& m.channel_id == channel_id
            &&& m.ballot@ == fresh_ballot(0)
        },
{
    let mut text = String::from_str("Send message \"");
    text.append(message.as_str());
    text.append("\" to the ");
    append_channel_mention(&mut text, channel_id);
    text.append(" channel");
    Proposal::Vote(text, MessageCreateAction::new(message, channel_id).action())
}

/// The id that a message id typed by a member stands for: its value when it
/// reads as a `u64`, else 0.
pub open spec fn typed_message_id(s: Seq<char>) -> u64 {
    match parse_unsigned(s, u64::MAX as nat) {
        Some(v) => v as u64,
        None => 0,
    }
}

/// Proposes to delete the message whose id a member typed as `message_id`
/// from `channel_id` of the server `guild_id`.
pub fn delete(guild_id: u64, channel_id: u64, message_id: &str) -> (p: Proposal)
    ensures
        p matches Proposal::Vote(text, VoteAction::MessageDelete(m)),
        p matches Proposal::Vote(text, VoteAction::MessageDelete(m)) ==> {
            &&& text@ == "Delete this message https://discord.com/channels/"@ + decimal(guild_id as nat)
                + "/"@ + decimal(channel_id as nat) + "/"@ + message_id@
            &&& m.channel_id == channel_id
            &&& m.message_id == typed_message_id(message_id@)
            &&& m.ballot@ == fresh_ballot(0)
        },
{
    let parsed_id = match parse_at_most(message_id, u64::MAX) {
        Some(m) => m,
        None => 0,
    };
    let mut text = String::from_str("Delete this message https://discord.com/channels/");
    text.append(u64_text(guild_id).as_str());
    text.append("/");
    text.append(u64_text(channel_id).as_str());
    text.append("/");
    text.append(message_id);
    Proposal::Vote(text, MessageDelete::new(channel_id, parsed_id).action())
}

} // verus!
