use vstd::prelude::*;

use super::{fail_with, not_in_voice_message, plain_command, succeed_with, CommandSpec};

verus! {

/// Answers `/resume`, given what resuming did: `None` where the bot has no
/// voice session in the guild, else whether the queue could resume.
pub fn run(resumed: Option<bool>) -> (r: Result<Option<String>, Option<String>>)
    ensures
        match resumed {
            None => r matches Err(Some(m)) && m@ == not_in_voice_message(),
            Some(false) => r matches Err(Some(m)) && m@ == "Нет треков в очереди"@,
            Some(true) => r matches Ok(Some(m)) && m@ == "Готово"@,
        },
{
    match resumed {
        None => fail_with("Ты не в голосовом канале!"),
        Some(false) => fail_with("Нет треков в очереди"),
        Some(true) => succeed_with("Готово"),
    }
}

/// The registration of `/resume`.
pub fn register() -> (r: CommandSpec)
    ensures
        r.name@ == "resume"@,
        r.description@ == "Resume bot"@,
        r.options@.len() == 0,
{
    plain_command("resume", "Resume bot")
}

} // verus!
