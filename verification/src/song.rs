//! Tracks and the commands that travel from the controller to the worker.

use vstd::prelude::*;

verus! {

/// One playable file: where it lives, what to call it, and how long it runs
/// (in whole seconds).
#[derive(Debug, PartialEq, Eq)]
pub struct SongInfo {
    pub path: String,
    pub title: String,
    pub duration: u32,
}

/// What a [`SongInfo`] stands for in contracts.
pub struct SongInfoView {
    pub path: Seq<char>,
    pub title: Seq<char>,
    pub duration: nat,
}

impl View for SongInfo {
    type V = SongInfoView;

    open spec fn view(&self) -> SongInfoView {
        SongInfoView { path: self.path@, title: self.title@, duration: self.duration as nat }
    }
}

impl SongInfo {
    /// Describes the file at `path`, shown as `title`, that plays for
    /// `duration` seconds.
    pub fn new(path: String, title: String, duration: u32) -> (song: SongInfo)
        ensures
            song@ == (SongInfoView { path: path@, title: title@, duration: duration as nat }),
    {
        SongInfo { path, title, duration }
    }
}

impl Clone for SongInfo {
    fn clone(&self) -> (copy: Self)
        ensures
            copy == *self,
    {
        SongInfo { path: self.path.clone(), title: self.title.clone(), duration: self.duration }
    }
}

/// The only payload that crosses from the controller to the playback worker.
/// Each variant carries exactly the data its action needs.
#[derive(Debug, PartialEq, Eq)]
pub enum Command {
    /// Load this track and start it from the beginning.
    PlayTrack(SongInfo),
    /// Apply this volume (a percentage) to whatever is loaded.
    SetVolume(u8),
    /// Flip the worker's pause state.
    TogglePause,
}

/// What a [`Command`] stands for in contracts.
pub enum CommandView {
    PlayTrack(SongInfoView),
    SetVolume(nat),
    TogglePause,
}

impl View for Command {
    type V = CommandView;

    open spec fn view(&self) -> CommandView {
        match *self {
            Command::PlayTrack(song) => CommandView::PlayTrack(song@),
            Command::SetVolume(level) => CommandView::SetVolume(level as nat),
            Command::TogglePause => CommandView::TogglePause,
        }
    }
}

impl Clone for Command {
    fn clone(&self) -> (copy: Self)
        ensures
            copy == *self,
    {
        match self {
            Command::PlayTrack(song) => Command::PlayTrack(song.clone()),
            Command::SetVolume(level) => Command::SetVolume(*level),
            Command::TogglePause => Command::TogglePause,
        }
    }
}

/// The view of the song in `song`, if there is one.
pub open spec fn song_view(song: Option<SongInfo>) -> Option<SongInfoView> {
    match song {
        Some(song) => Some(song@),
        None => None,
    }
}

/// The views of the items of `items`, in order.
pub open spec fn views<T: View>(items: Seq<T>) -> Seq<T::V> {
    items.map_values(|item: T| item@)
}

/// Appending an item appends its view.
pub proof fn lemma_views_push<T: View>(items: Seq<T>, item: T)
    ensures
        views(items.push(item)) == views(items).push(item@),
{
    assert(views(items.push(item)) =~= views(items).push(item@));
}

} // verus!
