use vstd::prelude::*;
use crate::clock::{div_toward_zero, elapsed_hours, format_instant, instant_text, NANOS_PER_HOUR};
use crate::consts::{PROPOSE_CHANNEL, SESSION_ADMIN};
use crate::interaction::{button_id, custom_id};
use crate::text::{decimal, signed_decimal, u64_text, i64_text};

verus! {

/// The message that opens a vote: its embed's title and description, and
/// the custom ids of its yes and no buttons.
pub struct VoteMessage {
    pub title: String,
    pub description: String,
    pub yes_id: String,
    pub no_id: String,
}

/// The message that opens the vote at `index` on `proposal`.
pub fn vote_message(proposal: &str, index: usize) -> (m: VoteMessage)
    ensures
        m.title@ == "Vote"@,
        m.description@ == "Proposal to "@ + proposal@ + "."@,
        m.yes_id@ == button_id(true, index as nat),
        m.no_id@ == button_id(false, index as nat),
{
    let mut description = String::from_str("Proposal to ");
    description.append(proposal);
    description.append(".");
    VoteMessage {
        title: String::from_str("Vote"),
        description,
        yes_id: custom_id(true, index),
        no_id: custom_id(false, index),
    }
}

/// The answer to a counted ballot: `{label} {tally}/{nrq}`.
pub fn tally_reply(label: &str, tally: i16, nrq: i16) -> (s: String)
    ensures
        s@ == label@ + " "@ + signed_decimal(tally as int) + "/"@ + signed_decimal(nrq as int),
{
    let mut s = String::from_str(label);
    s.append(" ");
    s.append(i64_text(tally as i64).as_str());
    s.append("/");
    s.append(i64_text(nrq as i64).as_str());
    s
}

/// The answer to a quorum update: `{label} {nrq}.`.
pub fn sync_reply(label: &str, nrq: i16) -> (s: String)
    ensures
        s@ == label@ + " "@ + signed_decimal(nrq as int) + "."@,
{
    let mut s = String::from_str(label);
    s.append(" ");
    s.append(i64_text(nrq as i64).as_str());
    s.append(".");
    s
}

/// The title of the announcements of session `n`: `Session {n}`.
pub fn session_title(n: u16) -> (s: String)
    ensures
        s@ == "Session "@ + decimal(n as nat),
{
    let mut s = String::from_str("Session ");
    s.append(u64_text(n as u64).as_str());
    s
}

/// Whether a command-line argument asks to post the update log at start:
/// it reads `UPDATE` once its ASCII letters are upper-cased.
pub open spec fn update_request(arg: Seq<char>) -> bool {
    arg.len() == 6 && forall|i: int| 0 <= i < 6 ==> #[trigger] upper(arg[i]) == "UPDATE"@[i]
}

/// `c` with an ASCII lower-case letter turned upper-case.
pub open spec fn upper(c: char) -> char {
    if 97 <= c as int <= 122 {
        (c as int - 32) as char
    } else {
        c
    }
}

/// Whether `arg` asks to post the update log when the session starts.
pub fn is_update_request(arg: &str) -> (b: bool)
    ensures
        b == update_request(arg@),
{
    proof {
        reveal_strlit("UPDATE");
    }
    let word = "UPDATE";
    assert(word@.len() == 6);
    if arg.unicode_len() != 6 {
        return false;
    }
    let mut i: usize = 0;
    while i < 6
        invariant
            arg@.len() == 6,
            word@ == "UPDATE"@,
            word@.len() == 6,
            0 <= i <= 6,
            forall|k: int| 0 <= k < i ==> #[trigger] upper(arg@[k]) == "UPDATE"@[k],
        decreases 6 - i,
    {
        let c = arg.get_char(i);
        let code = c as u32;
        let up = if code >= 97 && code <= 122 {
            code - 32
        } else {
            code
        };
        let w = word.get_char(i) as u32;
        if up != w {
            assert(upper(arg@[i as int]) != "UPDATE"@[i as int]);
            return false;
        }
        assert(upper(arg@[i as int]) == "UPDATE"@[i as int]);
        i = i + 1;
    }
    true
}

/// The members whose communication is to be enabled again when a session
/// starts: those (given as id and whether they are timed out) that are timed
/// out, in the order given.
pub open spec fn timed_out(members: Seq<(u64, bool)>) -> Seq<u64>
    decreases members.len(),
{
    if members.len() == 0 {
        Seq::empty()
    } else if members.last().1 {
        timed_out(members.drop_last()).push(members.last().0)
    } else {
        timed_out(members.drop_last())
    }
}

/// The ids of the timed-out members.
pub fn members_to_release(members: &Vec<(u64, bool)>) -> (ids: Vec<u64>)
    ensures
        ids@ == timed_out(members@),
{
    let mut ids: Vec<u64> = Vec::new();
    let len = members.len();
    let mut i: usize = 0;
    while i < len
        invariant
            len == members@.len(),
            0 <= i <= len,
            ids@ == timed_out(members@.subrange(0, i as int)),
        decreases len - i,
    {
        let ghost prefix = members@.subrange(0, i + 1);
        assert(prefix.drop_last() =~= members@.subrange(0, i as int));
        let m = members[i];
        if m.1 {
            ids.push(m.0);
        }
        i = i + 1;
    }
    assert(members@.subrange(0, len as int) =~= members@);
    ids
}

/// The description of the announcement that a session started:
/// `{intro}`, an empty line, then `_ _    {since} ({started})`, the start
/// written as `%Y-%m-%d %H:%M:%S UTC+0`.
pub fn session_start_text(intro: &str, since: &str, started: i64) -> (s: String)
    ensures
        s@ == intro@ + "\n\n_ _    "@ + since@ + " ("@ + instant_text(
            started as int,
            "%Y-%m-%d %H:%M:%S UTC+0"@,
        ) + ")"@,
{
    let pattern = "%Y-%m-%d %H:%M:%S UTC+0";
    let when = format_instant(started, pattern);
    let mut s = String::from_str(intro);
    s.append("\n\n_ _    ");
    s.append(since);
    s.append(" (");
    s.append(when.as_str());
    s.append(")");
    s
}

/// Only the session's administrator may end it.
pub fn may_end_session(author: u64) -> (b: bool)
    ensures
        b == (author == SESSION_ADMIN),
{
    author == SESSION_ADMIN
}

/// The words that the end-of-session announcement is written with.
pub struct SessionEndLabels {
    pub heading: String,
    pub started: String,
    pub lasted: String,
    pub hours: String,
    pub proposals: String,
    pub next: String,
    pub channel_end: String,
}

/// The description of the end-of-session announcement.
pub open spec fn session_end_spec(
    l: SessionEndLabels,
    started: Seq<char>,
    hours: int,
    proposals: nat,
) -> Seq<char> {
    "\n"@ + l.heading@ + " \n"@ + l.started@ + " "@ + started + " "@ + l.lasted@ + " "@
        + signed_decimal(hours) + " "@ + l.hours@ + " "@ + decimal(proposals) + " "@
        + l.proposals@ + "\n"@ + l.next@ + decimal(PROPOSE_CHANNEL as nat) + l.channel_end@
        + "\n                            "@
}

/// The description of the end-of-session announcement: when the session
/// started (written as `%Y-%m-%d at %H:%M:%S UTC+0`), how many whole hours
/// it lasted until `now` and how many proposals it saw. Instants are in
/// nanoseconds since the Unix epoch.
pub fn session_end_text(l: &SessionEndLabels, started: i64, now: i64, proposals: usize) -> (s: String)
    ensures
        s@ == session_end_spec(
            *l,
            instant_text(started as int, "%Y-%m-%d at %H:%M:%S UTC+0"@),
            div_toward_zero(now - started, NANOS_PER_HOUR as int),
            proposals as nat,
        ),
{
    let when = format_instant(started, "%Y-%m-%d at %H:%M:%S UTC+0");
    let hours = elapsed_hours(now, started);
    let mut s = String::from_str("\n");
    s.append(l.heading.as_str());
    s.append(" \n");
    s.append(l.started.as_str());
    s.append(" ");
    s.append(when.as_str());
    s.append(" ");
    s.append(l.lasted.as_str());
    s.append(" ");
    s.append(i64_text(hours).as_str());
    s.append(" ");
    s.append(l.hours.as_str());
    s.append(" ");
    s.append(u64_text(proposals as u64).as_str());
    s.append(" ");
    s.append(l.proposals.as_str());
    s.append("\n");
    s.append(l.next.as_str());
    s.append(u64_text(PROPOSE_CHANNEL).as_str());
    s.append(l.channel_end.as_str());
    s.append("\n                            ");
    s
}

/// The line of the constants file that holds the session number `n`.
pub fn session_number_line(n: u16) -> (s: String)
    ensures
        s@ == "pub const SESSION_NUMBER: u16 = "@ + decimal(n as nat) + ";"@,
{
    let mut s = String::from_str("pub const SESSION_NUMBER: u16 = ");
    s.append(u64_text(n as u64).as_str());
    s.append(";");
    s
}

} // verus!
