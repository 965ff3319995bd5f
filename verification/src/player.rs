//! The controller: playlist and transport state, driven by key presses and
//! timer ticks.

use vstd::prelude::*;

use crate::debug::Debugger;
use crate::decimal::decimal;
use crate::song::{lemma_views_push, song_view, views, Command, CommandView, SongInfo};
use crate::state::{sendable, PlayerState, INITIAL_VOLUME, MAX_VOLUME, VOLUME_STEP};

verus! {

/// The controller. It owns the playlist and knows what is playing; every
/// change the worker has to hear about is queued as a [`Command`], to be
/// collected with [`App::take_commands`].
pub struct App {
    progress: u32,
    volume: i32,
    songs: Vec<SongInfo>,
    song_info: Option<SongInfo>,
    debugger: Debugger,
    current_song_index: usize,
    pause: bool,
    quit: bool,
    commands: Vec<Command>,
}

impl View for App {
    type V = PlayerState;

    closed spec fn view(&self) -> PlayerState {
        PlayerState {
            songs: views(self.songs@),
            current_song_index: self.current_song_index as nat,
            progress: self.progress as nat,
            volume: self.volume as int,
            pause: self.pause,
            quit: self.quit,
            song_info: song_view(self.song_info),
            commands: views(self.commands@),
            messages: self.debugger@,
        }
    }
}

impl App {
    /// Every value of this type is in a valid state.
    #[verifier::type_invariant]
    pub open spec fn valid(self) -> bool {
        self@.wf()
    }

    /// A controller for `songs`, in the order given. The first song is the
    /// current one, nothing is playing yet, and nothing has been sent.
    pub fn new(songs: Vec<SongInfo>) -> (app: App)
        ensures
            app@ == PlayerState::init(views(songs@)),
            app@.wf(),
    {
        let app = App {
            progress: 0,
            volume: INITIAL_VOLUME,
            songs,
            song_info: None,
            debugger: Debugger::new(),
            current_song_index: 0,
            pause: false,
            quit: false,
            commands: Vec::new(),
        };
        assert(app@.commands =~= Seq::<CommandView>::empty());
        app
    }

    fn send(&mut self, command: Command)
        requires
            sendable(command@),
        ensures
            final(self)@ == old(self)@.send(command@),
    {
        proof {
            use_type_invariant(&*self);
        }
        // The queue grows outside `self` and is put back.
        let mut commands = Vec::new();
        std::mem::swap(&mut self.commands, &mut commands);
        proof {
            lemma_views_push(commands@, command);
        }
        commands.push(command);
        self.commands = commands;
    }

    /// Records `message` in the diagnostic log.
    pub fn log(&mut self, message: &str)
        ensures
            final(self)@ == old(self)@.log(message@),
            final(self)@.wf(),
    {
        proof {
            use_type_invariant(&*self);
        }
        // The log is written to outside `self` and is put back.
        let mut debugger = Debugger::new();
        std::mem::swap(&mut self.debugger, &mut debugger);
        debugger.print(message);
        self.debugger = debugger;
        proof {
            use_type_invariant(&*self);
        }
    }

    /// Pauses or resumes playback and tells the worker. Before any song has
    /// been played there is nothing to pause, and nothing happens.
    pub fn toggle_pause_song(&mut self)
        ensures
            final(self)@ == old(self)@.toggle_pause_song(),
            final(self)@.wf(),
    {
        proof {
            use_type_invariant(&*self);
        }
        if self.song_info.is_none() {
            return;
        }
        self.pause = !self.pause;
        self.send(Command::TogglePause);
        proof {
            use_type_invariant(&*self);
        }
    }

    fn play(&mut self, index: usize)
        requires
            index < old(self)@.songs.len(),
        ensures
            final(self)@ == old(self)@.play(index as nat),
            final(self)@.wf(),
    {
        proof {
            use_type_invariant(&*self);
        }
        let number = decimal(index);
        self.log(number.as_str());
        self.log("plaing");
        // The worker resumes by itself when it is told to play.
        self.pause = false;
        let song = self.songs[index].clone();
        let announced = song.clone();
        self.progress = 0;
        // Nothing is on show while the index moves.
        self.song_info = None;
        self.current_song_index = index;
        self.song_info = Some(song);
        self.send(Command::PlayTrack(announced));
        proof {
            use_type_invariant(&*self);
        }
    }

    /// Starts the current song from its beginning. Nothing happens on an
    /// empty playlist.
    pub fn try_play_current_song(&mut self)
        ensures
            final(self)@ == old(self)@.try_play_current_song(),
            final(self)@.wf(),
    {
        proof {
            use_type_invariant(&*self);
        }
        if self.current_song_index >= self.songs.len() {
            return;
        }
        self.play(self.current_song_index);
    }

    /// Moves on to the next song and plays it; on the last song, plays that
    /// one again. Nothing happens on an empty playlist.
    pub fn try_play_next_song(&mut self)
        ensures
            final(self)@ == old(self)@.try_play_next_song(),
            final(self)@.wf(),
    {
        proof {
            use_type_invariant(&*self);
        }
        if self.songs.len() == 0 {
            return;
        }
        let last = self.songs.len() - 1;
        let index = if self.current_song_index < last {
            self.current_song_index + 1
        } else {
            last
        };
        self.play(index);
    }

    /// Moves back to the previous song and plays it; on the first song,
    /// plays that one again. Nothing happens on an empty playlist.
    pub fn try_play_previous_song(&mut self)
        ensures
            final(self)@ == old(self)@.try_play_previous_song(),
            final(self)@.wf(),
    {
        proof {
            use_type_invariant(&*self);
        }
        if self.songs.len() == 0 {
            return;
        }
        let index = if self.current_song_index != 0 {
            self.current_song_index - 1
        } else {
            0
        };
        self.play(index);
    }

    /// Changes the volume by `amount`, stopping at silence and at full
    /// volume, and tells the worker the level that results.
    pub fn change_volume(&mut self, amount: i32)
        ensures
            final(self)@ == old(self)@.change_volume(amount as int),
            final(self)@.wf(),
    {
        proof {
            use_type_invariant(&*self);
        }
        let wanted = self.volume as i64 + amount as i64;
        let level: i32 = if wanted < 0 {
            0
        } else if wanted > MAX_VOLUME as i64 {
            MAX_VOLUME
        } else {
            wanted as i32
        };
        self.volume = level;
        self.send(Command::SetVolume(level as u8));
        proof {
            use_type_invariant(&*self);
        }
    }

    /// Lets one second pass. A paused controller and one without songs
    /// ignore it; when the current song has run its length, the next one is
    /// played.
    pub fn on_tick(&mut self)
        ensures
            final(self)@ == old(self)@.on_tick(),
            final(self)@.wf(),
    {
        proof {
            use_type_invariant(&*self);
        }
        if self.pause {
            return;
        }
        if self.current_song_index >= self.songs.len() {
            return;
        }
        if self.progress >= self.songs[self.current_song_index].duration {
            self.progress = 0;
            self.try_play_next_song();
        } else {
            self.progress += 1;
        }
    }

    /// Acts on the key the user pressed: `q` leaves, `j` and `k` move to the
    /// next and the previous song, `w` and `b` turn the volume up and down,
    /// the space bar pauses or resumes. Other keys are ignored.
    pub fn on_key(&mut self, key: char)
        ensures
            final(self)@ == old(self)@.on_key(key),
            final(self)@.wf(),
    {
        proof {
            use_type_invariant(&*self);
        }
        match key {
            'q' => self.request_quit(),
            'j' => self.try_play_next_song(),
            'k' => self.try_play_previous_song(),
            'w' => self.change_volume(VOLUME_STEP),
            'b' => self.change_volume(-VOLUME_STEP),
            ' ' => self.toggle_pause_song(),
            _ => {},
        }
    }

    /// Notes that the user wants to leave.
    pub fn request_quit(&mut self)
        ensures
            final(self)@ == old(self)@.request_quit(),
            final(self)@.wf(),
    {
        proof {
            use_type_invariant(&*self);
        }
        self.quit = true;
    }

    /// Hands over the commands that are waiting for the worker, oldest
    /// first, and leaves none behind.
    pub fn take_commands(&mut self) -> (commands: Vec<Command>)
        ensures
            views(commands@) == old(self)@.commands,
            final(self)@ == old(self)@.take_commands(),
            final(self)@.wf(),
    {
        proof {
            use_type_invariant(&*self);
        }
        let mut commands = Vec::new();
        std::mem::swap(&mut self.commands, &mut commands);
        assert(self@.commands =~= Seq::<CommandView>::empty());
        commands
    }

    /// The playlist, in playing order.
    pub fn songs(&self) -> (songs: &Vec<SongInfo>)
        ensures
            views(songs@) == self@.songs,
            self@.wf(),
    {
        proof {
            use_type_invariant(self);
        }
        &self.songs
    }

    /// The song that was handed to the worker last, if any has been.
    pub fn song_info(&self) -> (song: &Option<SongInfo>)
        ensures
            song_view(*song) == self@.song_info,
            self@.wf(),
    {
        proof {
            use_type_invariant(self);
        }
        &self.song_info
    }

    /// The position of the current song in the playlist.
    pub fn current_song_index(&self) -> (index: usize)
        ensures
            index == self@.current_song_index,
            self@.wf(),
    {
        proof {
            use_type_invariant(self);
        }
        self.current_song_index
    }

    /// Seconds since the current song started.
    pub fn progress(&self) -> (seconds: u32)
        ensures
            seconds == self@.progress,
            self@.wf(),
    {
        proof {
            use_type_invariant(self);
        }
        self.progress
    }

    /// The volume, as a percentage.
    pub fn volume(&self) -> (level: i32)
        ensures
            level == self@.volume,
            self@.wf(),
    {
        proof {
            use_type_invariant(self);
        }
        self.volume
    }

    /// Whether playback is paused.
    pub fn paused(&self) -> (paused: bool)
        ensures
            paused == self@.pause,
            self@.wf(),
    {
        proof {
            use_type_invariant(self);
        }
        self.pause
    }

    /// Whether the user has asked to leave.
    pub fn quit_requested(&self) -> (quit: bool)
        ensures
            quit == self@.quit,
            self@.wf(),
    {
        proof {
            use_type_invariant(self);
        }
        self.quit
    }

    /// The diagnostic log.
    pub fn debugger(&self) -> (debugger: &Debugger)
        ensures
            debugger@ == self@.messages,
            self@.wf(),
    {
        proof {
            use_type_invariant(self);
        }
        &self.debugger
    }
}

} // verus!
