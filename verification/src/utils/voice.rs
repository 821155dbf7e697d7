use std::collections::HashMap;

use vstd::prelude::*;

verus! {

/// The voice channel that `user` sits in, given the guild's voice states
/// (user id to the channel of that state, if any).
pub open spec fn spec_voice_channel(voice_states: Map<u64, Option<u64>>, user: u64) -> Option<u64> {
    if voice_states.contains_key(user) {
        voice_states[user]
    } else {
        None
    }
}

/// Finds the voice channel that `user` sits in: `None` when the user has no
/// voice state in the guild or the state names no channel.
pub fn get_voice_channel_for_user(voice_states: &HashMap<u64, Option<u64>>, user: u64) -> (r:
    Option<u64>)
    ensures
        r == spec_voice_channel(voice_states@, user),
{
    match voice_states.get(&user) {
        Some(state) => *state,
        None => None,
    }
}

} // verus!
