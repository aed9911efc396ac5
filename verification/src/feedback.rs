//! Audio cues for the start and the end of a recording.
//!
//! A cue is a command for the host to start in the background. Sound is
//! optional: the host ignores a cue that cannot be played.

use crate::command::{command, texts, Command, CommandView};
use vstd::prelude::*;

verus! {

/// The sound played when recording starts.
pub const SOUND_START: &'static str = "/usr/share/sounds/freedesktop/stereo/device-added.oga";

/// The sound played when recording stops.
pub const SOUND_STOP: &'static str = "/usr/share/sounds/freedesktop/stereo/complete.oga";

/// The command that plays the sound file at `path`.
pub open spec fn playing(path: Seq<char>) -> CommandView {
    CommandView { program: "paplay"@, args: seq![path] }
}

fn play_sound(path: &str) -> (cue: Command)
    ensures
        cue@ == playing(path@),
{
    let args = vec![path];
    assert(texts(args@) =~= playing(path@).args);
    command("paplay", &args)
}

/// The cue for the start of a recording.
pub fn play_start_sound() -> (cue: Command)
    ensures
        cue@ == playing(SOUND_START@),
{
    play_sound(SOUND_START)
}

/// The cue for the end of a recording.
pub fn play_stop_sound() -> (cue: Command)
    ensures
        cue@ == playing(SOUND_STOP@),
{
    play_sound(SOUND_STOP)
}

} // verus!
