use vstd::prelude::*;

use crate::text::{push_text, text_of};

verus! {

/// A track's play time: whole seconds and the nanoseconds beyond them.
pub struct Length {
    pub secs: u64,
    pub nanos: u32,
}

/// What the player knows of a queued track.
pub struct TrackMeta {
    pub title: Option<String>,
    pub duration: Option<Length>,
}

/// The text that std's `Debug` formatting gives for the duration of `secs`
/// seconds and `nanos` nanoseconds.
pub uninterp spec fn duration_debug(secs: u64, nanos: u32) -> Seq<char>;

/// Formats `std::time::Duration::new(secs, nanos)` with `{:?}`. The contract
/// claims only that the text is the name `duration_debug` of the two numbers.
#[verifier::external_body]
fn duration_text(secs: u64, nanos: u32) -> (r: String)
    requires
        nanos < 1_000_000_000,
    ensures
        r@ == duration_debug(secs, nanos),
{
    format!("{:?}", std::time::Duration::new(secs, nanos))
}

/// The track has a title and a well-formed length, as a listing needs.
pub open spec fn described(meta: TrackMeta) -> bool {
    &&& meta.title is Some
    &&& meta.duration matches Some(l) && l.nanos < 1_000_000_000
}

/// How a track is named in replies: its title, then its length in brackets.
pub open spec fn spec_caption(meta: TrackMeta) -> Seq<char> {
    meta.title->0@ + " ("@ + duration_debug(meta.duration->0.secs, meta.duration->0.nanos)
        + ")"@
}

/// The duration text of a described track.
pub open spec fn length_text(meta: TrackMeta) -> Seq<char> {
    duration_debug(meta.duration->0.secs, meta.duration->0.nanos)
}

/// A caption is the whole title, verbatim whatever its length, then a
/// space, an opening bracket, the duration text and a closing bracket.
pub proof fn lemma_caption_keeps_title(meta: TrackMeta)
    requires
        described(meta),
    ensures
        spec_caption(meta) == meta.title->0@ + seq![' ', '('] + length_text(meta) + seq![')'],
        spec_caption(meta).len() == meta.title->0@.len() + length_text(meta).len() + 3,
        spec_caption(meta).subrange(0, meta.title->0@.len() as int) == meta.title->0@,
{
    reveal_strlit(" (");
    reveal_strlit(")");
    assert(" ("@ =~= seq![' ', '(']);
    assert(")"@ =~= seq![')']);
    let c = spec_caption(meta);
    assert(c.subrange(0, meta.title->0@.len() as int) =~= meta.title->0@);
}

/// Names a track as replies do.
pub fn caption(meta: &TrackMeta) -> (r: String)
    requires
        described(*meta),
    ensures
        r@ == spec_caption(*meta),
        r@ == meta.title->0@ + seq![' ', '('] + length_text(*meta) + seq![')'],
{
    proof {
        lemma_caption_keeps_title(*meta);
    }
    let title = meta.title.as_ref().unwrap();
    let length = meta.duration.as_ref().unwrap();
    let mut r = text_of(title.as_str());
    push_text(&mut r, " (");
    let d = duration_text(length.secs, length.nanos);
    push_text(&mut r, d.as_str());
    push_text(&mut r, ")");
    r
}

} // verus!
