//! Direct-democracy bookkeeping for a community server: proposals become
//! votes, members cast yes/no ballots through buttons, and a proposal is
//! carried out once its tally reaches the quorum.

pub mod ballot;
pub mod consts;
pub mod actions;
pub mod text;
pub mod interaction;
pub mod session;
pub mod views;
pub mod locale;
pub mod messages;
pub mod clock;
