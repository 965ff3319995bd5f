//! The playback worker: what it does to the audio sink for each command.
//!
//! The worker itself only decides. It is handed one command at a time, in
//! the order sent, and answers with the steps for the sink; whoever owns the
//! sink carries them out.

use vstd::prelude::*;

use crate::song::{song_view, views, Command, CommandView, SongInfo, SongInfoView};

verus! {

/// One step for the audio sink.
#[derive(Debug, PartialEq, Eq)]
pub enum SinkAction {
    /// Stop what is playing.
    Stop,
    /// Open this song and begin output from its start at this volume.
    Play(SongInfo, u8),
    /// Apply this volume to the output.
    SetVolume(u8),
    /// Suspend the output.
    Pause,
    /// Take the output up again.
    Resume,
}

/// What a [`SinkAction`] stands for in contracts.
pub enum SinkActionView {
    Stop,
    Play(SongInfoView, nat),
    SetVolume(nat),
    Pause,
    Resume,
}

impl View for SinkAction {
    type V = SinkActionView;

    open spec fn view(&self) -> SinkActionView {
        match *self {
            SinkAction::Stop => SinkActionView::Stop,
            SinkAction::Play(song, level) => SinkActionView::Play(song@, level as nat),
            SinkAction::SetVolume(level) => SinkActionView::SetVolume(level as nat),
            SinkAction::Pause => SinkActionView::Pause,
            SinkAction::Resume => SinkActionView::Resume,
        }
    }
}

/// The worker as a mathematical state machine: what a [`Worker`] stands for
/// in contracts.
pub struct WorkerState {
    /// The song that is loaded, if any.
    pub loaded: Option<SongInfoView>,
    /// The volume in force, or to be in force once a song is loaded.
    pub volume: nat,
    /// Whether the output is suspended.
    pub paused: bool,
}

impl WorkerState {
    /// A worker that has loaded nothing yet and will play at `volume`.
    pub open spec fn init(volume: nat) -> WorkerState {
        WorkerState { loaded: None, volume, paused: false }
    }

    /// What holds of every state a worker can be in: only a loaded song can
    /// be paused.
    pub open spec fn wf(self) -> bool {
        self.paused ==> self.loaded is Some
    }

    /// The state after `command`.
    pub open spec fn apply(self, command: CommandView) -> WorkerState {
        match command {
            CommandView::PlayTrack(song) => WorkerState {
                loaded: Some(song),
                paused: false,
                ..self
            },
            CommandView::SetVolume(level) => WorkerState { volume: level, ..self },
            CommandView::TogglePause => if self.loaded is Some {
                WorkerState { paused: !self.paused, ..self }
            } else {
                self
            },
        }
    }

    /// The steps for the sink that `command` calls for, in order.
    pub open spec fn actions(self, command: CommandView) -> Seq<SinkActionView> {
        match command {
            CommandView::PlayTrack(song) => if self.loaded is Some {
                seq![SinkActionView::Stop, SinkActionView::Play(song, self.volume)]
            } else {
                seq![SinkActionView::Play(song, self.volume)]
            },
            CommandView::SetVolume(level) => if self.loaded is Some {
                seq![SinkActionView::SetVolume(level)]
            } else {
                Seq::empty()
            },
            CommandView::TogglePause => if self.loaded is None {
                Seq::empty()
            } else if self.paused {
                seq![SinkActionView::Resume]
            } else {
                seq![SinkActionView::Pause]
            },
        }
    }

    /// The state after all of `commands`, applied one after the other.
    pub open spec fn run(self, commands: Seq<CommandView>) -> WorkerState
        decreases commands.len(),
    {
        if commands.len() == 0 {
            self
        } else {
            self.run(commands.drop_last()).apply(commands.last())
        }
    }
}

/// The playback worker's record of what the sink is doing.
pub struct Worker {
    loaded: Option<SongInfo>,
    volume: u8,
    paused: bool,
}

impl View for Worker {
    type V = WorkerState;

    closed spec fn view(&self) -> WorkerState {
        WorkerState {
            loaded: song_view(self.loaded),
            volume: self.volume as nat,
            paused: self.paused,
        }
    }
}

impl Worker {
    /// Every value of this type is in a valid state.
    #[verifier::type_invariant]
    pub open spec fn valid(self) -> bool {
        self@.wf()
    }

    /// A worker that has loaded nothing yet and will play at `volume`.
    pub fn new(volume: u8) -> (worker: Worker)
        ensures
            worker@ == WorkerState::init(volume as nat),
            worker@.wf(),
    {
        Worker { loaded: None, volume, paused: false }
    }

    /// Takes `command` into account and says what the sink has to do for it.
    pub fn apply(&mut self, command: Command) -> (actions: Vec<SinkAction>)
        ensures
            final(self)@ == old(self)@.apply(command@),
            views(actions@) == old(self)@.actions(command@),
            final(self)@.wf(),
    {
        proof {
            use_type_invariant(&*self);
        }
        let mut actions: Vec<SinkAction> = Vec::new();
        match command {
            Command::PlayTrack(song) => {
                if self.loaded.is_some() {
                    actions.push(SinkAction::Stop);
                }
                actions.push(SinkAction::Play(song.clone(), self.volume));
                self.paused = false;
                self.loaded = Some(song);
            },
            Command::SetVolume(level) => {
                if self.loaded.is_some() {
                    actions.push(SinkAction::SetVolume(level));
                }
                self.volume = level;
            },
            Command::TogglePause => {
                if self.loaded.is_some() {
                    if self.paused {
                        actions.push(SinkAction::Resume);
                    } else {
                        actions.push(SinkAction::Pause);
                    }
                    self.paused = !self.paused;
                }
            },
        }
        actions
    }

    /// The song that is loaded, if any.
    pub fn loaded(&self) -> (song: &Option<SongInfo>)
        ensures
            song_view(*song) == self@.loaded,
            self@.wf(),
    {
        proof {
            use_type_invariant(self);
        }
        &self.loaded
    }

    /// The volume in force, or to be in force once a song is loaded.
    pub fn volume(&self) -> (level: u8)
        ensures
            level == self@.volume,
            self@.wf(),
    {
        proof {
            use_type_invariant(self);
        }
        self.volume
    }

    /// Whether the output is suspended.
    pub fn paused(&self) -> (paused: bool)
        ensures
            paused == self@.paused,
            self@.wf(),
    {
        proof {
            use_type_invariant(self);
        }
        self.paused
    }
}

} // verus!
