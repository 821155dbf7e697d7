use vstd::prelude::*;

use super::{command_with_option, fail_with, succeed_with, CommandSpec, OptionKind, OptionValue};
use crate::text::{contains, decimal, decimal_text, has_infix, has_prefix, push_text, starts_with, text_of};
use crate::utils::track::{caption, described, lemma_caption_keeps_title, length_text, spec_caption, TrackMeta};
use crate::utils::yandex_music::{is_link, lemma_link_is_http_prefix};

verus! {

/// Where the audio for a `/play` query comes from.
pub enum Source {
    /// A link to the Yandex music service.
    Yandex(String),
    /// Any other link.
    Link(String),
    /// Words to search for.
    Search(String),
}

/// `source` is where the query `query` is played from: a link (text that
/// begins with `http`) that mentions `yandex` goes to the Yandex service,
/// another link is fetched as it is, and anything else is searched for; the
/// source carries the query itself.
pub open spec fn source_for(source: Source, query: Seq<char>) -> bool {
    match source {
        Source::Yandex(q) => q@ == query && has_prefix(query, "http"@) && has_infix(query, "yandex"@),
        Source::Link(q) => q@ == query && has_prefix(query, "http"@) && !has_infix(query, "yandex"@),
        Source::Search(q) => q@ == query && !has_prefix(query, "http"@),
    }
}

/// The characters `yandex` stand in `query` starting at position `i`.
pub open spec fn yandex_at(query: Seq<char>, i: int) -> bool {
    &&& 0 <= i && i + 6 <= query.len()
    &&& query[i] == 'y' && query[i + 1] == 'a' && query[i + 2] == 'n'
    &&& query[i + 3] == 'd' && query[i + 4] == 'e' && query[i + 5] == 'x'
}

/// `query` mentions `yandex` somewhere.
pub open spec fn mentions_yandex(query: Seq<char>) -> bool {
    exists|i: int| yandex_at(query, i)
}

/// The query a source carries.
pub open spec fn source_query(source: Source) -> Seq<char> {
    match source {
        Source::Yandex(q) => q@,
        Source::Link(q) => q@,
        Source::Search(q) => q@,
    }
}

/// Containing the text `yandex` is mentioning `yandex`.
proof fn lemma_yandex_infix(query: Seq<char>)
    ensures
        has_infix(query, "yandex"@) <==> mentions_yandex(query),
{
    reveal_strlit("yandex");
    if has_infix(query, "yandex"@) {
        let i = choose|i: int| crate::text::occurs_at(query, "yandex"@, i);
        let w = query.subrange(i, i + 6);
        assert(w[0] == query[i] && w[1] == query[i + 1] && w[2] == query[i + 2]);
        assert(w[3] == query[i + 3] && w[4] == query[i + 4] && w[5] == query[i + 5]);
        assert(yandex_at(query, i));
    }
    if mentions_yandex(query) {
        let i = choose|i: int| yandex_at(query, i);
        assert(query.subrange(i, i + 6) =~= "yandex"@);
        assert(crate::text::occurs_at(query, "yandex"@, i));
    }
}

/// Every query that begins with the four characters `http` is played as a
/// link (from the Yandex service when it mentions `yandex`, else fetched as
/// it is), only other queries are searched for, and the source carries the
/// query unchanged.
pub proof fn lemma_links_are_fetched(source: Source, query: Seq<char>)
    requires
        source_for(source, query),
    ensures
        source_query(source) == query,
        source is Search <==> !is_link(query),
        source is Yandex <==> is_link(query) && mentions_yandex(query),
        source is Link <==> is_link(query) && !mentions_yandex(query),
{
    lemma_link_is_http_prefix(query);
    lemma_yandex_infix(query);
}

/// Decides where the query is played from.
pub fn classify(query: &str) -> (r: Source)
    ensures
        source_for(r, query@),
        source_query(r) == query@,
        r is Search <==> !is_link(query@),
        r is Yandex <==> is_link(query@) && mentions_yandex(query@),
{
    proof {
        lemma_link_is_http_prefix(query@);
        lemma_yandex_infix(query@);
    }
    if starts_with(query, "http") {
        if contains(query, "yandex") {
            Source::Yandex(text_of(query))
        } else {
            Source::Link(text_of(query))
        }
    } else {
        Source::Search(text_of(query))
    }
}

/// Where answering `/play` stands.
pub enum PlayState {
    /// Looking for the voice channel of the user who asked.
    FindingChannel { query: String },
    /// Connecting to the user's voice channel.
    Joining { query: String },
    /// Looking for the guild's voice session.
    CheckingSession { query: String },
    /// Fetching the audio for the query.
    Fetching { query: String },
    /// Putting the fetched track on the queue.
    Enqueuing { meta: TrackMeta },
    /// The command has been answered.
    Finished,
}

/// What the outside world reports back.
pub enum PlayEvent {
    /// The voice channel the user sits in, if any.
    UserChannel(Option<u64>),
    /// How connecting to the channel went.
    Joined(Result<(), String>),
    /// Whether the guild has a voice session.
    Session(bool),
    /// The fetched track's metadata, or `None` where nothing could be fetched.
    Fetched(Option<TrackMeta>),
    /// The track is on the queue, which now holds `queue_len` tracks.
    Enqueued { queue_len: usize },
}

/// What answering `/play` asks for next.
pub enum PlayAction {
    FindUserChannel,
    Join(u64),
    FindSession,
    Fetch(Source),
    Enqueue,
    /// The command is answered with this outcome.
    Finish(Result<Option<String>, Option<String>>),
}

/// The reply once a track is on a queue of `queue_len` tracks: with its
/// caption and the queue's length where it has a title.
pub open spec fn enqueued_message(meta: TrackMeta, queue_len: nat) -> Seq<char> {
    if meta.title is Some {
        "🚀Включил "@ + spec_caption(meta) + ". Она "@ + decimal(queue_len) + " в очереди"@
    } else {
        "🚀Включил"@
    }
}

/// The reply for a titled track names the whole title and its length, then
/// the queue's length.
pub proof fn lemma_enqueued_message_names_track(meta: TrackMeta, queue_len: nat)
    requires
        described(meta),
    ensures
        enqueued_message(meta, queue_len) == "🚀Включил "@ + meta.title->0@ + seq![' ', '(']
            + length_text(meta) + seq![')'] + ". Она "@ + decimal(queue_len) + " в очереди"@,
{
    lemma_caption_keeps_title(meta);
}

impl PlayState {
    /// The events that can come in this state.
    pub open spec fn accepts(self, event: PlayEvent) -> bool {
        match self {
            PlayState::FindingChannel { .. } => event is UserChannel,
            PlayState::Joining { .. } => event is Joined,
            PlayState::CheckingSession { .. } => event is Session,
            PlayState::Fetching { .. } => event is Fetched,
            PlayState::Enqueuing { meta } => event is Enqueued && (meta.title is Some ==> described(
                meta,
            )),
            PlayState::Finished => false,
        }
    }

    /// How many more events can come at most.
    pub open spec fn steps_left(self) -> nat {
        match self {
            PlayState::FindingChannel { .. } => 5,
            PlayState::Joining { .. } => 4,
            PlayState::CheckingSession { .. } => 3,
            PlayState::Fetching { .. } => 2,
            PlayState::Enqueuing { .. } => 1,
            PlayState::Finished => 0,
        }
    }

    /// Starts answering `/play`, given the resolved values of its options:
    /// a text query goes on to find the user's voice channel, anything else
    /// is refused.
    pub fn begin(options: &Vec<Option<OptionValue>>) -> (r: (PlayState, PlayAction))
        requires
            options@.len() > 0,
            options@[0] is Some,
        ensures
            r.0 is Finished <==> r.1 is Finish,
            match options@[0]->0 {
                OptionValue::Text(q) => r.1 is FindUserChannel && (r.0 matches PlayState::FindingChannel {
                    query,
                } && query@ == q@),
                _ => r.1 matches PlayAction::Finish(Err(Some(m))) && m@ == "Не могу найти url"@,
            },
    {
        match &options[0] {
            Some(OptionValue::Text(q)) => (
                PlayState::FindingChannel { query: q.clone() },
                PlayAction::FindUserChannel,
            ),
            _ => (PlayState::Finished, PlayAction::Finish(fail_with("Не могу найти url"))),
        }
    }

    /// Takes one report and says what to do next.
    pub fn step(self, event: PlayEvent) -> (r: (PlayState, PlayAction))
        requires
            self.accepts(event),
        ensures
            r.0.steps_left() < self.steps_left(),
            r.0 is Finished <==> r.1 is Finish,
            match (self, event) {
                (PlayState::FindingChannel { query }, PlayEvent::UserChannel(None)) => r.1 matches PlayAction::Finish(
                    Err(Some(m)),
                ) && m@ == "Ты не в голосовом"@,
                (PlayState::FindingChannel { query }, PlayEvent::UserChannel(Some(channel))) => r.1
                    == PlayAction::Join(channel) && (r.0 matches PlayState::Joining { query: q } && q@
                    == query@),
                (PlayState::Joining { query }, PlayEvent::Joined(Err(why))) => r.1 matches PlayAction::Finish(
                    Err(Some(m)),
                ) && m@ == why@,
                (PlayState::Joining { query }, PlayEvent::Joined(Ok(()))) => r.1 is FindSession && (
                r.0 matches PlayState::CheckingSession { query: q } && q@ == query@),
                (PlayState::CheckingSession { query }, PlayEvent::Session(false)) => r.1 matches PlayAction::Finish(
                    Ok(Some(m)),
                ) && m@ == "🚀Включаю"@,
                (PlayState::CheckingSession { query }, PlayEvent::Session(true)) => (r.1 matches PlayAction::Fetch(
                    s,
                ) && source_for(s, query@)) && (r.0 matches PlayState::Fetching { query: q } && q@
                    == query@),
                (PlayState::Fetching { query }, PlayEvent::Fetched(None)) => r.1 matches PlayAction::Finish(
                    Err(Some(m)),
                ) && m@ == "Не могу найти "@ + query@,
                (PlayState::Fetching { query }, PlayEvent::Fetched(Some(meta))) => r.1 is Enqueue
                    && r.0 == (PlayState::Enqueuing { meta }),
                (PlayState::Enqueuing { meta }, PlayEvent::Enqueued { queue_len }) => r.1 matches PlayAction::Finish(
                    Ok(Some(m)),
                ) && m@ == enqueued_message(meta, queue_len as nat),
                _ => false,
            },
    {
        match self {
            PlayState::FindingChannel { query } => match event {
                PlayEvent::UserChannel(Some(channel)) => (
                    PlayState::Joining { query },
                    PlayAction::Join(channel),
                ),
                _ => (PlayState::Finished, PlayAction::Finish(fail_with("Ты не в голосовом"))),
            },
            PlayState::Joining { query } => match event {
                PlayEvent::Joined(Err(why)) => (
                    PlayState::Finished,
                    PlayAction::Finish(Err(Some(why))),
                ),
                _ => (PlayState::CheckingSession { query }, PlayAction::FindSession),
            },
            PlayState::CheckingSession { query } => match event {
                PlayEvent::Session(true) => {
                    let source = classify(query.as_str());
                    (PlayState::Fetching { query }, PlayAction::Fetch(source))
                },
                _ => (PlayState::Finished, PlayAction::Finish(succeed_with("🚀Включаю"))),
            },
            PlayState::Fetching { query } => match event {
                PlayEvent::Fetched(Some(meta)) => (PlayState::Enqueuing { meta }, PlayAction::Enqueue),
                _ => {
                    let mut m = text_of("Не могу найти ");
                    push_text(&mut m, query.as_str());
                    (PlayState::Finished, PlayAction::Finish(Err(Some(m))))
                },
            },
            PlayState::Enqueuing { meta } => match event {
                PlayEvent::Enqueued { queue_len } => {
                    let m = if meta.title.is_some() {
                        let mut m = text_of("🚀Включил ");
                        let c = caption(&meta);
                        push_text(&mut m, c.as_str());
                        push_text(&mut m, ". Она ");
                        let n = decimal_text(queue_len);
                        push_text(&mut m, n.as_str());
                        push_text(&mut m, " в очереди");
                        m
                    } else {
                        text_of("🚀Включил")
                    };
                    (PlayState::Finished, PlayAction::Finish(Ok(Some(m))))
                },
                _ => (PlayState::Finished, PlayAction::Finish(Ok(None))),
            },
            PlayState::Finished => (PlayState::Finished, PlayAction::Finish(Ok(None))),
        }
    }
}

/// An answered `/play` has no steps left and takes no further report; any
/// other state has steps left.
pub proof fn lemma_play_ends(state: PlayState, event: PlayEvent)
    ensures
        state.steps_left() == 0 <==> state is Finished,
        state is Finished ==> !state.accepts(event),
{
}

/// The registration of `/play`, with its required query option.
pub fn register() -> (r: CommandSpec)
    ensures
        r.name@ == "play"@,
        r.description@ == "Play music from youtube"@,
        r.options@.len() == 1,
        r.options@[0].name@ == "url_or_name"@,
        r.options@[0].description@ == "url to song or song name"@,
        r.options@[0].kind == OptionKind::Text,
        r.options@[0].required,
{
    command_with_option(
        "play",
        "Play music from youtube",
        "url_or_name",
        "url to song or song name",
        OptionKind::Text,
        true,
    )
}

} // verus!
