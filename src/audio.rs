use vstd::prelude::*;
use vstd::string::*;

verus! {

/// Program through which the local audio facilities are run.
pub const PLAYER_PROGRAM: &'static str = "mac";

/// Facility that plays an audio file.
pub const PLAY_COMMAND: &'static str = "afplay";

/// Facility that speaks a text.
pub const SAY_COMMAND: &'static str = "say";

/// Plays audio files and speaks text through the local facilities.
#[derive(Debug, Clone, Copy, PartialEq, Eq, Structural)]
pub struct AudioPlayer;

impl Default for AudioPlayer {
    fn default() -> (r: AudioPlayer)
        ensures
            r == AudioPlayer,
    {
        AudioPlayer
    }
}

/// Why a playback did not happen.
#[derive(Debug, Clone, PartialEq, Eq)]
pub enum AudioError {
    /// The audio file does not exist.
    NotFound(String),
    /// The facility could not be started.
    Spawn(String),
    /// The facility exited unsuccessfully; its diagnostic output is kept.
    PlaybackFailed(String),
}

impl AudioPlayer {
    pub fn new() -> (r: AudioPlayer)
        ensures
            r == AudioPlayer,
    {
        AudioPlayer
    }

    /// Arguments that make the player program play the file at `path`.
    pub fn play_args(&self, path: &str) -> (r: Vec<String>)
        ensures
            r@.len() == 2,
            r@[0]@ == PLAY_COMMAND@,
            r@[1]@ == path@,
    {
        let mut v: Vec<String> = Vec::new();
        v.push(String::from_str(PLAY_COMMAND));
        v.push(String::from_str(path));
        v
    }

    /// Arguments that make the player program speak `text`.
    pub fn say_args(&self, text: &str) -> (r: Vec<String>)
        ensures
            r@.len() == 2,
            r@[0]@ == SAY_COMMAND@,
            r@[1]@ == text@,
    {
        let mut v: Vec<String> = Vec::new();
        v.push(String::from_str(SAY_COMMAND));
        v.push(String::from_str(text));
        v
    }

    /// The result of a foreground run from its exit status and its
    /// diagnostic output.
    pub fn foreground_outcome(&self, exited_ok: bool, stderr: String) -> (r: Result<(), AudioError>)
        ensures
            exited_ok ==> r is Ok,
            !exited_ok ==> r == Err::<(), AudioError>(AudioError::PlaybackFailed(stderr)),
    {
        if exited_ok {
            Ok(())
        } else {
            Err(AudioError::PlaybackFailed(stderr))
        }
    }
}

} // verus!
