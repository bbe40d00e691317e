//! The playback status vocabulary and its mapping from platform codes.

use vstd::prelude::*;

verus! {

/// The platform's code for a session that is playing.
pub const PLAYING_CODE: i32 = 4;

/// The platform's code for a session that is paused.
pub const PAUSED_CODE: i32 = 5;

/// What a snapshot says of playback: one of exactly three values.
#[derive(Clone, Copy, Debug, PartialEq, Eq, Structural)]
pub enum PlaybackStatus {
    Playing,
    Paused,
    Stopped,
}

impl PlaybackStatus {
    /// The status that a platform code stands for: the two designated codes
    /// are `Playing` and `Paused`, every other integer is `Stopped`.
    pub open spec fn of_code(code: int) -> PlaybackStatus {
        if code == PLAYING_CODE {
            PlaybackStatus::Playing
        } else if code == PAUSED_CODE {
            PlaybackStatus::Paused
        } else {
            PlaybackStatus::Stopped
        }
    }

    /// The status of a reading that may have failed: a missing code is
    /// `Stopped`.
    pub open spec fn of_reading(reading: Option<i32>) -> PlaybackStatus {
        match reading {
            Some(code) => Self::of_code(code as int),
            None => PlaybackStatus::Stopped,
        }
    }

    /// The text under which the status is published.
    pub open spec fn label_text(self) -> Seq<char> {
        match self {
            PlaybackStatus::Playing => "Playing"@,
            PlaybackStatus::Paused => "Paused"@,
            PlaybackStatus::Stopped => "Stopped"@,
        }
    }

    /// The status that a published text stands for, if it is one of the
    /// three.
    pub open spec fn of_label(text: Seq<char>) -> Option<PlaybackStatus> {
        if text == PlaybackStatus::Playing.label_text() {
            Some(PlaybackStatus::Playing)
        } else if text == PlaybackStatus::Paused.label_text() {
            Some(PlaybackStatus::Paused)
        } else if text == PlaybackStatus::Stopped.label_text() {
            Some(PlaybackStatus::Stopped)
        } else {
            None
        }
    }

    /// Maps a platform status code.
    pub fn from_code(code: i32) -> (status: PlaybackStatus)
        ensures
            status == Self::of_code(code as int),
    {
        if code == PLAYING_CODE {
            PlaybackStatus::Playing
        } else if code == PAUSED_CODE {
            PlaybackStatus::Paused
        } else {
            PlaybackStatus::Stopped
        }
    }

    /// Maps a status reading; one that could not be taken is `Stopped`.
    pub fn from_reading(reading: Option<i32>) -> (status: PlaybackStatus)
        ensures
            status == Self::of_reading(reading),
    {
        match reading {
            Some(code) => Self::from_code(code),
            None => PlaybackStatus::Stopped,
        }
    }

    /// The status as the published text: `Playing`, `Paused` or `Stopped`.
    pub fn label(&self) -> (text: String)
        ensures
            text@ == self.label_text(),
    {
        match self {
            PlaybackStatus::Playing => "Playing".to_string(),
            PlaybackStatus::Paused => "Paused".to_string(),
            PlaybackStatus::Stopped => "Stopped".to_string(),
        }
    }
}

impl PlaybackStatus {
    /// Reads a status back from its published text; any other text is none.
    pub fn from_label(text: &str) -> (status: Option<PlaybackStatus>)
        ensures
            status == Self::of_label(text@),
    {
        let text = text.to_string();
        if text == PlaybackStatus::Playing.label() {
            Some(PlaybackStatus::Playing)
        } else if text == PlaybackStatus::Paused.label() {
            Some(PlaybackStatus::Paused)
        } else if text == PlaybackStatus::Stopped.label() {
            Some(PlaybackStatus::Stopped)
        } else {
            None
        }
    }
}

/// The three published texts are distinct: reading a label back gives the
/// status it was written for.
pub proof fn lemma_label_reads_back(status: PlaybackStatus)
    ensures
        PlaybackStatus::of_label(status.label_text()) == Some(status),
{
    reveal_strlit("Playing");
    reveal_strlit("Paused");
    reveal_strlit("Stopped");
    assert("Playing"@.len() == 7 && "Paused"@.len() == 6 && "Stopped"@.len() == 7);
    assert("Playing"@[0] == 'P' && "Stopped"@[0] == 'S');
}

/// Every code maps to one of the three values; only the playing code gives
/// `Playing`, only the paused code gives `Paused`, and a failed reading gives
/// `Stopped`.
pub proof fn lemma_status_mapping(code: i32)
    ensures
        PlaybackStatus::of_code(code as int) == PlaybackStatus::Playing <==> code == PLAYING_CODE,
        PlaybackStatus::of_code(code as int) == PlaybackStatus::Paused <==> code == PAUSED_CODE,
        PlaybackStatus::of_code(code as int) == PlaybackStatus::Stopped <==> (code != PLAYING_CODE
            && code != PAUSED_CODE),
        PlaybackStatus::of_reading(Some(code)) == PlaybackStatus::of_code(code as int),
        PlaybackStatus::of_reading(None) == PlaybackStatus::Stopped,
{
}

} // verus!
