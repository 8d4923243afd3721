use vstd::prelude::*;

verus! {

pub const INFO_CHANNEL: u64 = 970418738023235584;
pub const GUILD_ID: u64 = 969011076144431165;
pub const VOTE_CHANNEL: u64 = 970108683746951178;
pub const LOG_CHANNEL: u64 = 970419838604439642;
/// Votes needed for a proposal to pass until the quorum is recomputed.
pub const DEFAULT_NRQ: i16 = 2;
pub const SESSION_NUMBER: u16 = 58;
pub const VOTER_ROLE: u64 = 1069130087116578908;
pub const PROPOSE_CHANNEL: u64 = 1090509087751536702;
/// The moderator role: it only has permissions while no session runs.
pub const GENERAL_SECRETARY_ROLE: u64 = 1069432736982499438;
/// The only member allowed to end a session.
pub const SESSION_ADMIN: u64 = 331431342438875137;
/// The permission bits that the moderator role gets back between sessions,
/// and that a role keeps when mentioning everyone is allowed or taken away.
pub const BASE_PERMISSIONS: u64 = 1071698529857;

/// Roles that cannot be deleted and whose permissions cannot be modified.
pub open spec fn protected_role(id: u64) -> bool {
    id == VOTER_ROLE || id == GENERAL_SECRETARY_ROLE
}

/// Channels that cannot be modified: the proposal and the vote channels.
pub open spec fn protected_channel(id: u64) -> bool {
    id == PROPOSE_CHANNEL || id == VOTE_CHANNEL
}

/// Whether `id` is one of the roles that cannot be modified.
pub fn cannot_modify(id: u64) -> (b: bool)
    ensures
        b == protected_role(id),
{
    id == VOTER_ROLE || id == GENERAL_SECRETARY_ROLE
}

/// Whether `id` is one of the channels that cannot be modified.
pub fn cannot_modify_channel(id: u64) -> (b: bool)
    ensures
        b == protected_channel(id),
{
    id == PROPOSE_CHANNEL || id == VOTE_CHANNEL
}

} // verus!
