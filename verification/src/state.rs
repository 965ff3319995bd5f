//! The controller as a mathematical state machine.
//!
//! [`PlayerState`] is what an [`App`](crate::player::App) stands for in
//! contracts; each operation of the controller is one function from state to
//! state here. Commands for the worker and diagnostic messages are part of
//! the state, so a transition also says what was sent and what was logged.

use vstd::prelude::*;

use crate::debug::{log_push, MAX_MESSAGES};
use crate::decimal::decimal_text;
use crate::song::{CommandView, SongInfoView};

verus! {

/// The volume a controller starts with.
pub const INITIAL_VOLUME: i32 = 50;

/// The loudest volume.
pub const MAX_VOLUME: i32 = 100;

/// By how much one press of a volume key changes the volume.
pub const VOLUME_STEP: i32 = 5;

/// `level` brought into the range of volumes.
pub open spec fn clamp_volume(level: int) -> int {
    if level < 0 {
        0
    } else if level > MAX_VOLUME {
        MAX_VOLUME as int
    } else {
        level
    }
}

/// Whether `command` is one a controller may send: a volume it carries is
/// within the range of volumes.
pub open spec fn sendable(command: CommandView) -> bool {
    command matches CommandView::SetVolume(level) ==> level <= MAX_VOLUME
}

/// Everything a controller knows at one moment.
pub struct PlayerState {
    /// The playlist, in playing order.
    pub songs: Seq<SongInfoView>,
    /// Which song of the playlist is the current one.
    pub current_song_index: nat,
    /// Seconds since the current song started.
    pub progress: nat,
    /// The volume, as a percentage.
    pub volume: int,
    /// Whether playback is paused.
    pub pause: bool,
    /// Whether the user has asked to leave.
    pub quit: bool,
    /// The song handed to the worker last, if any has been.
    pub song_info: Option<SongInfoView>,
    /// The commands sent to the worker and not yet taken, oldest first.
    pub commands: Seq<CommandView>,
    /// The diagnostic log, oldest message first.
    pub messages: Seq<Seq<char>>,
}

impl PlayerState {
    /// The state of a controller that was just given `songs`.
    pub open spec fn init(songs: Seq<SongInfoView>) -> PlayerState {
        PlayerState {
            songs,
            current_song_index: 0,
            progress: 0,
            volume: INITIAL_VOLUME as int,
            pause: false,
            quit: false,
            song_info: None,
            commands: Seq::empty(),
            messages: Seq::empty(),
        }
    }

    /// What holds of every state a controller can be in: the current index
    /// lies within the playlist (and is 0 on an empty one), the progress
    /// within the current song, and the volume within its range; only a
    /// player that has played something can be paused; the song on show is
    /// the current one; no waiting command carries a volume out of range;
    /// and the log is within its limit.
    pub open spec fn wf(self) -> bool {
        &&& self.songs.len() == 0 ==> self.current_song_index == 0 && self.progress == 0
        &&& self.songs.len() > 0 ==> self.current_song_index < self.songs.len()
            && self.progress <= self.songs[self.current_song_index as int].duration
        &&& 0 <= self.volume <= MAX_VOLUME
        &&& self.pause ==> self.song_info is Some
        &&& self.song_info is Some ==> self.songs.len() > 0 && self.song_info == Some(
            self.songs[self.current_song_index as int],
        )
        &&& forall|i: int| 0 <= i < self.commands.len() ==> sendable(#[trigger] self.commands[i])
        &&& self.messages.len() <= MAX_MESSAGES
    }

    /// The same state with `command` sent after those already waiting.
    pub open spec fn send(self, command: CommandView) -> PlayerState {
        PlayerState { commands: self.commands.push(command), ..self }
    }

    /// The same state with `message` logged.
    pub open spec fn log(self, message: Seq<char>) -> PlayerState {
        PlayerState { messages: log_push(self.messages, message), ..self }
    }

    /// Pausing or resuming. Before any song was handed to the worker there
    /// is nothing to pause, and nothing happens.
    pub open spec fn toggle_pause_song(self) -> PlayerState {
        if self.song_info is None {
            self
        } else {
            PlayerState { pause: !self.pause, ..self }.send(CommandView::TogglePause)
        }
    }

    /// Starting the song at `index` from its beginning. The song becomes
    /// the current one and goes to the worker, as the one command of this
    /// event; a paused player is no longer paused, and the worker, which
    /// clears its own pause when it is told to play, need not be told. The
    /// index and a note are logged.
    pub open spec fn play(self, index: nat) -> PlayerState
        recommends
            index < self.songs.len(),
    {
        let song = self.songs[index as int];
        PlayerState {
            current_song_index: index,
            progress: 0,
            pause: false,
            song_info: Some(song),
            commands: self.commands.push(CommandView::PlayTrack(song)),
            messages: log_push(log_push(self.messages, decimal_text(index)), "plaing"@),
            ..self
        }
    }

    /// Restarting the current song. Nothing happens on an empty playlist.
    pub open spec fn try_play_current_song(self) -> PlayerState {
        if self.songs.len() == 0 {
            self
        } else {
            self.play(self.current_song_index)
        }
    }

    /// The index that follows the current one; the last song is followed by
    /// itself.
    pub open spec fn next_index(self) -> nat
        recommends
            self.songs.len() > 0,
    {
        if self.current_song_index + 1 < self.songs.len() {
            self.current_song_index + 1
        } else {
            (self.songs.len() - 1) as nat
        }
    }

    /// The index before the current one; the first song is preceded by
    /// itself.
    pub open spec fn previous_index(self) -> nat {
        if self.current_song_index == 0 {
            0
        } else {
            (self.current_song_index - 1) as nat
        }
    }

    /// Moving on to the next song and playing it. Nothing happens on an
    /// empty playlist.
    pub open spec fn try_play_next_song(self) -> PlayerState {
        if self.songs.len() == 0 {
            self
        } else {
            self.play(self.next_index())
        }
    }

    /// Moving back to the previous song and playing it. Nothing happens on
    /// an empty playlist.
    pub open spec fn try_play_previous_song(self) -> PlayerState {
        if self.songs.len() == 0 {
            self
        } else {
            self.play(self.previous_index())
        }
    }

    /// Changing the volume by `amount`, within the range of volumes. The
    /// worker is told the new level even if it is the old one.
    pub open spec fn change_volume(self, amount: int) -> PlayerState {
        let level = clamp_volume(self.volume + amount);
        PlayerState { volume: level, ..self }.send(CommandView::SetVolume(level as nat))
    }

    /// One second passing. A paused player and one without songs ignore it.
    /// Once the current song has run its length the next one starts.
    pub open spec fn on_tick(self) -> PlayerState {
        if self.pause || self.songs.len() == 0 {
            self
        } else if self.progress + 1 > self.songs[self.current_song_index as int].duration {
            PlayerState { progress: 0, ..self }.try_play_next_song()
        } else {
            PlayerState { progress: self.progress + 1, ..self }
        }
    }

    /// The user asking to leave.
    pub open spec fn request_quit(self) -> PlayerState {
        PlayerState { quit: true, ..self }
    }

    /// The user pressing `key`: `q` leaves, `j` and `k` move to the next and
    /// the previous song, `w` and `b` turn the volume up and down by
    /// [`VOLUME_STEP`], the space bar pauses or resumes. Other keys do
    /// nothing.
    pub open spec fn on_key(self, key: char) -> PlayerState {
        if key == 'q' {
            self.request_quit()
        } else if key == 'j' {
            self.try_play_next_song()
        } else if key == 'k' {
            self.try_play_previous_song()
        } else if key == 'w' {
            self.change_volume(VOLUME_STEP as int)
        } else if key == 'b' {
            self.change_volume(-VOLUME_STEP)
        } else if key == ' ' {
            self.toggle_pause_song()
        } else {
            self
        }
    }

    /// The waiting commands handed over.
    pub open spec fn take_commands(self) -> PlayerState {
        PlayerState { commands: Seq::empty(), ..self }
    }
}

} // verus!
