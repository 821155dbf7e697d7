use vstd::prelude::*;

use super::{fail_with, not_in_voice_message, plain_command, succeed_with, CommandSpec};

verus! {

/// Answers `/pause`, given what pausing did: `None` where the bot has no
/// voice session in the guild, else whether the queue could pause.
pub fn run(paused: Option<bool>) -> (r: Result<Option<String>, Option<String>>)
    ensures
        match paused {
            None => r matches Err(Some(m)) && m@ == not_in_voice_message(),
            Some(false) => r matches Err(Some(m)) && m@ == "Нет треков в очереди"@,
            Some(true) => r matches Ok(Some(m)) && m@ == "Готово"@,
        },
{
    match paused {
        None => fail_with("Ты не в голосовом канале!"),
        Some(false) => fail_with("Нет треков в очереди"),
        Some(true) => succeed_with("Готово"),
    }
}

/// The registration of `/pause`.
pub fn register() -> (r: CommandSpec)
    ensures
        r.name@ == "pause"@,
        r.description@ == "Pause bot"@,
        r.options@.len() == 0,
{
    plain_command("pause", "Pause bot")
}

} // verus!
