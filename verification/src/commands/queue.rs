use vstd::prelude::*;

use super::{fail_with, not_in_voice_message, plain_command, succeed_with, CommandSpec};
use crate::text::{decimal, decimal_text, push_text, text_of};
use crate::utils::track::{caption, described, lemma_caption_keeps_title, length_text, spec_caption, TrackMeta};

verus! {

/// Every track of the queue has a title and a length.
pub open spec fn all_described(queue: Seq<TrackMeta>) -> bool {
    forall|i: int| 0 <= i < queue.len() ==> described(#[trigger] queue[i])
}

/// The line for the track at position `i` (counted from 0) in a listing:
/// its number counted from 1, a bracket, and its caption.
pub open spec fn listing_line(queue: Seq<TrackMeta>, i: int) -> Seq<char> {
    decimal((i + 1) as nat) + ") "@ + spec_caption(queue[i])
}

/// The lines for the first `n` tracks of the queue, one below the other.
pub open spec fn listing(queue: Seq<TrackMeta>, n: nat) -> Seq<char>
    decreases n,
{
    if n == 0 {
        seq![]
    } else if n == 1 {
        listing_line(queue, 0)
    } else {
        listing(queue, (n - 1) as nat) + "\n"@ + listing_line(queue, n - 1)
    }
}

/// The lines, one below the other: joined by single newline characters.
pub open spec fn joined_lines(lines: Seq<Seq<char>>) -> Seq<char>
    decreases lines.len(),
{
    if lines.len() == 0 {
        seq![]
    } else if lines.len() == 1 {
        lines[0]
    } else {
        joined_lines(lines.drop_last()) + seq!['\n'] + lines.last()
    }
}

/// The line of the track at position `i` (from 0): its number counted from
/// 1, a bracket and a space, its whole title, a space, its length in
/// brackets.
pub open spec fn track_line(queue: Seq<TrackMeta>, i: int) -> Seq<char> {
    decimal((i + 1) as nat) + seq![')', ' '] + queue[i].title->0@ + seq![' ', '('] + length_text(
        queue[i],
    ) + seq![')']
}

/// The lines of the first `n` tracks.
pub open spec fn track_lines(queue: Seq<TrackMeta>, n: nat) -> Seq<Seq<char>> {
    Seq::new(n, |i: int| track_line(queue, i))
}

/// A listing of `n` tracks is exactly `n` lines joined by newlines, line `i`
/// naming track `i` with its number, whole title and length.
pub proof fn lemma_listing_lines(queue: Seq<TrackMeta>, n: nat)
    requires
        n <= queue.len(),
        all_described(queue),
    ensures
        listing(queue, n) == joined_lines(track_lines(queue, n)),
        track_lines(queue, n).len() == n,
    decreases n,
{
    reveal_strlit(") ");
    reveal_strlit("\n");
    assert(") "@ =~= seq![')', ' ']);
    assert("\n"@ =~= seq!['\n']);
    if n > 0 {
        lemma_caption_keeps_title(queue[n - 1]);
        assert(listing_line(queue, n - 1) =~= track_line(queue, n - 1));
        if n > 1 {
            lemma_listing_lines(queue, (n - 1) as nat);
            assert(track_lines(queue, n).drop_last() =~= track_lines(queue, (n - 1) as nat));
        } else {
            assert(track_lines(queue, n)[0] == track_line(queue, 0));
        }
    }
}

/// The message that says the queue is empty.
pub open spec fn empty_queue_message() -> Seq<char> {
    "🚀Очередь пуста!"@
}

/// Lists the queue, one numbered line per track.
pub fn list_tracks(queue: &Vec<TrackMeta>) -> (r: String)
    requires
        all_described(queue@),
    ensures
        r@ == listing(queue@, queue@.len()),
        r@ == joined_lines(track_lines(queue@, queue@.len())),
{
    proof {
        lemma_listing_lines(queue@, queue@.len());
    }
    let mut r = String::new();
    let mut i: usize = 0;
    while i < queue.len()
        invariant
            i <= queue@.len(),
            all_described(queue@),
            r@ == listing(queue@, i as nat),
        decreases queue@.len() - i,
    {
        if i > 0 {
            push_text(&mut r, "\n");
        }
        let number = decimal_text(i + 1);
        push_text(&mut r, number.as_str());
        push_text(&mut r, ") ");
        assert(described(queue@[i as int]));
        let c = caption(&queue[i]);
        push_text(&mut r, c.as_str());
        assert(r@ =~= listing(queue@, (i + 1) as nat));
        i = i + 1;
    }
    r
}

/// Answers `/queue`, given the guild's queue (`None` where the bot has no
/// voice session in the guild).
pub fn run(queue: Option<Vec<TrackMeta>>) -> (r: Result<Option<String>, Option<String>>)
    requires
        queue matches Some(q) ==> all_described(q@),
    ensures
        match queue {
            None => r matches Err(Some(m)) && m@ == not_in_voice_message(),
            Some(q) => if q@.len() == 0 {
                r matches Ok(Some(m)) && m@ == empty_queue_message()
            } else {
                r matches Ok(Some(m)) && m@ == "🚀"@ + listing(q@, q@.len()) && m@ == seq!['🚀']
                    + joined_lines(track_lines(q@, q@.len()))
            },
        },
{
    proof {
        reveal_strlit("🚀");
        assert("🚀"@ =~= seq!['🚀']);
        if queue is Some {
            lemma_listing_lines(queue->0@, queue->0@.len());
        }
    }
    match queue {
        None => fail_with("Ты не в голосовом канале!"),
        Some(q) => {
            if q.len() == 0 {
                succeed_with("🚀Очередь пуста!")
            } else {
                let mut m = text_of("🚀");
                let lines = list_tracks(&q);
                push_text(&mut m, lines.as_str());
                Ok(Some(m))
            }
        },
    }
}

/// The registration of `/queue`.
pub fn register() -> (r: CommandSpec)
    ensures
        r.name@ == "queue"@,
        r.description@ == "Show queue"@,
        r.options@.len() == 0,
{
    plain_command("queue", "Show queue")
}

} // verus!
