use vstd::prelude::*;

use super::{plain_command, CommandSpec};
use crate::text::text_of;

verus! {

/// What answering `/join` takes: the channel to connect to, the notice to
/// show once connected, and the outcome of the command.
pub struct JoinPlan {
    pub connect_to: Option<u64>,
    pub notice: Option<String>,
    pub outcome: Result<Option<String>, Option<String>>,
}

/// Answers `/join` for a user who sits in `user_channel`: the bot connects
/// to that channel and says it is done; a user outside voice channels gets
/// no message at all.
pub fn run(user_channel: Option<u64>) -> (r: JoinPlan)
    ensures
        r.connect_to == user_channel,
        match user_channel {
            Some(_) => (r.notice matches Some(n) && n@ == "Готово!"@) && r.outcome matches Ok(None),
            None => r.notice is None && r.outcome matches Err(None),
        },
{
    match user_channel {
        Some(channel) => JoinPlan {
            connect_to: Some(channel),
            notice: Some(text_of("Готово!")),
            outcome: Ok(None),
        },
        None => JoinPlan { connect_to: None, notice: None, outcome: Err(None) },
    }
}

/// The registration of `/join`.
pub fn register() -> (r: CommandSpec)
    ensures
        r.name@ == "join"@,
        r.description@ == "Join to your voice channel"@,
        r.options@.len() == 0,
{
    plain_command("join", "Join to your voice channel")
}

} // verus!
