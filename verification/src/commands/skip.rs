use vstd::prelude::*;

use super::{fail_with, not_in_voice_message, plain_command, succeed_with, CommandSpec};
use super::queue::empty_queue_message;
use crate::text::{push_text, text_of};
use crate::utils::track::{caption, described, length_text, spec_caption, TrackMeta};

verus! {

/// Answers `/skip`, given the guild's queue as it stands right after the
/// skip (`None` where the bot has no voice session in the guild). The
/// skipped track still heads the queue then, so the track that plays next
/// is the second.
pub fn run(queue_after_skip: Option<Vec<TrackMeta>>) -> (r: Result<Option<String>, Option<String>>)
    requires
        queue_after_skip matches Some(q) ==> (q@.len() > 1 ==> described(q@[1])),
    ensures
        match queue_after_skip {
            None => r matches Err(Some(m)) && m@ == not_in_voice_message(),
            Some(q) => if q@.len() > 1 {
                r matches Ok(Some(m)) && m@ == "🚀Теперь играет: "@ + spec_caption(q@[1]) && m@
                    == "🚀Теперь играет: "@ + q@[1].title->0@ + seq![' ', '('] + length_text(q@[1])
                    + seq![')']
            } else {
                r matches Ok(Some(m)) && m@ == empty_queue_message()
            },
        },
{
    match queue_after_skip {
        None => fail_with("Ты не в голосовом канале!"),
        Some(q) => {
            if q.len() > 1 {
                let mut m = text_of("🚀Теперь играет: ");
                let c = caption(&q[1]);
                push_text(&mut m, c.as_str());
                Ok(Some(m))
            } else {
                succeed_with("🚀Очередь пуста!")
            }
        },
    }
}

/// The registration of `/skip`.
pub fn register() -> (r: CommandSpec)
    ensures
        r.name@ == "skip"@,
        r.description@ == "Skip current track"@,
        r.options@.len() == 0,
{
    plain_command("skip", "Skip current track")
}

} // verus!
