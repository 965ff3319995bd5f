//! What holds of the controller and the worker over whole runs.

use vstd::prelude::*;

use crate::debug::{log_push, MAX_MESSAGES};
use crate::song::{CommandView, SongInfoView};
use crate::state::{clamp_volume, PlayerState, INITIAL_VOLUME, MAX_VOLUME};
use crate::worker::WorkerState;

verus! {

/// One thing that can be asked of a controller.
pub enum Operation {
    PlayCurrent,
    PlayNext,
    PlayPrevious,
    ChangeVolume(int),
    TogglePause,
    Tick,
    Key(char),
    RequestQuit,
    TakeCommands,
}

/// The state after `operation`.
pub open spec fn step(state: PlayerState, operation: Operation) -> PlayerState {
    match operation {
        Operation::PlayCurrent => state.try_play_current_song(),
        Operation::PlayNext => state.try_play_next_song(),
        Operation::PlayPrevious => state.try_play_previous_song(),
        Operation::ChangeVolume(amount) => state.change_volume(amount),
        Operation::TogglePause => state.toggle_pause_song(),
        Operation::Tick => state.on_tick(),
        Operation::Key(key) => state.on_key(key),
        Operation::RequestQuit => state.request_quit(),
        Operation::TakeCommands => state.take_commands(),
    }
}

/// The state after all of `operations`, one after the other.
pub open spec fn run(state: PlayerState, operations: Seq<Operation>) -> PlayerState
    decreases operations.len(),
{
    if operations.len() == 0 {
        state
    } else {
        step(run(state, operations.drop_last()), operations.last())
    }
}

/// The state after `operation` has been asked for `times` times in a row.
pub open spec fn repeat(state: PlayerState, operation: Operation, times: nat) -> PlayerState
    decreases times,
{
    if times == 0 {
        state
    } else {
        step(repeat(state, operation, (times - 1) as nat), operation)
    }
}

/// A log never holds more than [`MAX_MESSAGES`] messages, and the message
/// logged last is its newest.
pub proof fn lemma_log_is_bounded(log: Seq<Seq<char>>, message: Seq<char>)
    ensures
        log_push(log, message).len() <= MAX_MESSAGES,
        log_push(log, message).last() == message,
{
}

/// No operation leads out of the valid states, and none touches the
/// playlist.
pub proof fn lemma_step_keeps_valid(state: PlayerState, operation: Operation)
    requires
        state.wf(),
    ensures
        step(state, operation).wf(),
        step(state, operation).songs == state.songs,
{
}

/// Whatever is asked of a controller, in whatever order, the current index
/// stays within the playlist; on an empty playlist it stays 0.
pub proof fn lemma_run_keeps_valid(state: PlayerState, operations: Seq<Operation>)
    requires
        state.wf(),
    ensures
        run(state, operations).wf(),
        run(state, operations).songs == state.songs,
        state.songs.len() > 0 ==> run(state, operations).current_song_index < state.songs.len(),
        state.songs.len() == 0 ==> run(state, operations).current_song_index == 0,
    decreases operations.len(),
{
    if operations.len() > 0 {
        lemma_run_keeps_valid(state, operations.drop_last());
        lemma_step_keeps_valid(run(state, operations.drop_last()), operations.last());
    }
}

/// On an empty playlist playing, moving, pausing and ticking change
/// nothing at all.
pub proof fn lemma_empty_playlist_is_inert(state: PlayerState)
    requires
        state.wf(),
        state.songs.len() == 0,
    ensures
        state.try_play_current_song() == state,
        state.try_play_next_song() == state,
        state.try_play_previous_song() == state,
        state.toggle_pause_song() == state,
        state.on_tick() == state,
{
}

/// Playing a song sends the worker exactly one command, to play that song,
/// whether the player was paused or not; afterwards it is not paused.
pub proof fn lemma_playing_sends_one_command(state: PlayerState)
    requires
        state.wf(),
        state.songs.len() > 0,
    ensures
        state.try_play_current_song().commands == state.commands.push(
            CommandView::PlayTrack(state.songs[state.current_song_index as int]),
        ),
        state.try_play_next_song().commands == state.commands.push(
            CommandView::PlayTrack(state.songs[state.next_index() as int]),
        ),
        state.try_play_previous_song().commands == state.commands.push(
            CommandView::PlayTrack(state.songs[state.previous_index() as int]),
        ),
        !state.try_play_current_song().pause,
        !state.try_play_next_song().pause,
        !state.try_play_previous_song().pause,
{
}

/// No operation sends more than one command: afterwards the queue is as
/// it was, or longer by one.
pub proof fn lemma_step_sends_at_most_one_command(state: PlayerState, operation: Operation)
    requires
        state.wf(),
        operation != Operation::TakeCommands,
    ensures
        step(state, operation).commands == state.commands || (exists|command: CommandView|
            step(state, operation).commands == #[trigger] state.commands.push(command)),
{
    let after = step(state, operation).commands;
    if after != state.commands {
        assert(after == state.commands.push(after.last()));
    }
}

/// Going back from the first song starts that song over: the index stays
/// 0, the progress returns to 0, and the worker is told to play it.
pub proof fn lemma_previous_on_first_song_restarts_it(state: PlayerState)
    requires
        state.wf(),
        state.songs.len() > 0,
        state.current_song_index == 0,
    ensures
        state.try_play_previous_song().current_song_index == 0,
        state.try_play_previous_song().progress == 0,
        state.try_play_previous_song().commands.last() == CommandView::PlayTrack(state.songs[0]),
{
}

/// Changing the volume by the same amount again and again ends where one
/// change by the whole sum would end, and each change is sent to the
/// worker.
pub proof fn lemma_volume_after_repeated_change(state: PlayerState, amount: int, times: nat)
    requires
        state.wf(),
    ensures
        repeat(state, Operation::ChangeVolume(amount), times).volume == clamp_volume(
            state.volume + times * amount,
        ),
        repeat(state, Operation::ChangeVolume(amount), times).commands.len()
            == state.commands.len() + times,
    decreases times,
{
    if times > 0 {
        let before = (times - 1) as nat;
        lemma_volume_after_repeated_change(state, amount, before);
        assert(before * amount + amount == times * amount) by (nonlinear_arith)
            requires
                before + 1 == times,
        ;
        assert(amount >= 0 ==> before * amount >= 0) by (nonlinear_arith);
        assert(amount <= 0 ==> before * amount <= 0) by (nonlinear_arith);
    }
}

/// A change that spans the whole range of volumes takes the volume to the
/// end of the range at once, and there it stays however often the change
/// is made again.
pub proof fn lemma_volume_settles(state: PlayerState, amount: int, times: nat)
    requires
        state.wf(),
        times >= 1,
    ensures
        amount >= MAX_VOLUME ==> repeat(state, Operation::ChangeVolume(amount), times).volume
            == MAX_VOLUME,
        amount <= -MAX_VOLUME ==> repeat(state, Operation::ChangeVolume(amount), times).volume
            == 0,
{
    lemma_volume_after_repeated_change(state, amount, times);
    assert(amount >= MAX_VOLUME ==> times * amount >= MAX_VOLUME) by (nonlinear_arith)
        requires
            times >= 1,
    ;
    assert(amount <= -MAX_VOLUME ==> times * amount <= -MAX_VOLUME) by (nonlinear_arith)
        requires
            times >= 1,
    ;
}

/// Toggling the pause twice restores it. If a song has been played, the
/// worker is sent two toggles; if none has, nothing is sent.
pub proof fn lemma_toggle_pause_twice(state: PlayerState)
    ensures
        state.toggle_pause_song().toggle_pause_song().pause == state.pause,
        state.song_info is Some ==> state.toggle_pause_song().toggle_pause_song()
            == state.send(CommandView::TogglePause).send(CommandView::TogglePause),
        state.song_info is None ==> state.toggle_pause_song().toggle_pause_song() == state,
{
}

/// While the current song has seconds left, ticks only count them.
pub proof fn lemma_ticks_within_song(state: PlayerState, seconds: nat)
    requires
        state.wf(),
        state.songs.len() > 0,
        !state.pause,
        state.progress + seconds <= state.songs[state.current_song_index as int].duration,
    ensures
        repeat(state, Operation::Tick, seconds) == (PlayerState {
            progress: state.progress + seconds,
            ..state
        }),
    decreases seconds,
{
    if seconds > 0 {
        lemma_ticks_within_song(state, (seconds - 1) as nat);
    }
}

/// A song that is not paused ends with the tick after its last second:
/// that tick, and no earlier one, moves on to the next song, resets the
/// progress to 0 and sends the worker exactly one command, to play that
/// song.
pub proof fn lemma_song_ends_after_its_length(state: PlayerState)
    requires
        state.wf(),
        state.songs.len() > 0,
        !state.pause,
    ensures
        ({
            let left = (state.songs[state.current_song_index as int].duration
                - state.progress) as nat;
            let ended = repeat(state, Operation::Tick, left + 1);
            &&& repeat(state, Operation::Tick, left).current_song_index
                == state.current_song_index
            &&& repeat(state, Operation::Tick, left).commands == state.commands
            &&& ended.current_song_index == state.next_index()
            &&& ended.progress == 0
            &&& ended.commands == state.commands.push(
                CommandView::PlayTrack(state.songs[state.next_index() as int]),
            )
        }),
{
    let left = (state.songs[state.current_song_index as int].duration - state.progress) as nat;
    lemma_ticks_within_song(state, left);
}

/// Asking to leave twice is the same as asking once.
pub proof fn lemma_request_quit_is_idempotent(state: PlayerState)
    ensures
        state.request_quit().quit,
        state.request_quit().request_quit() == state.request_quit(),
{
}

/// Whether a worker in state `worker` that still has the controller's
/// waiting commands to apply will then agree with the controller on what
/// is loaded, at what volume, and whether it is paused.
pub open spec fn in_step(state: PlayerState, worker: WorkerState) -> bool {
    let caught_up = worker.run(state.commands);
    &&& caught_up.loaded == state.song_info
    &&& caught_up.volume == state.volume
    &&& caught_up.paused == state.pause
}

/// A worker that starts at the controller's initial volume is in step with
/// a fresh controller.
pub proof fn lemma_in_step_at_start(songs: Seq<SongInfoView>)
    ensures
        in_step(PlayerState::init(songs), WorkerState::init(INITIAL_VOLUME as nat)),
{
}

/// Applying one more command after a run is running the longer sequence.
pub proof fn lemma_worker_run_push(
    worker: WorkerState,
    commands: Seq<CommandView>,
    command: CommandView,
)
    ensures
        worker.run(commands.push(command)) == worker.run(commands).apply(command),
{
    assert(commands.push(command).drop_last() =~= commands);
}

/// Controller and worker stay in step: the commands that an operation
/// sends are exactly those that take the worker to the controller's new
/// state. Handing over the waiting commands keeps them in step once the
/// worker has applied what was handed over.
pub proof fn lemma_step_keeps_in_step(
    state: PlayerState,
    worker: WorkerState,
    operation: Operation,
)
    requires
        state.wf(),
        in_step(state, worker),
    ensures
        operation != Operation::TakeCommands ==> in_step(step(state, operation), worker),
        in_step(state.take_commands(), worker.run(state.commands)),
{
    let toggle = CommandView::TogglePause;
    lemma_worker_run_push(worker, state.commands, toggle);
    if state.songs.len() > 0 {
        let rewound = PlayerState { progress: 0, ..state };
        lemma_play_keeps_in_step(state, worker, state.current_song_index);
        lemma_play_keeps_in_step(state, worker, state.next_index());
        lemma_play_keeps_in_step(state, worker, state.previous_index());
        lemma_play_keeps_in_step(rewound, worker, rewound.next_index());
    }
    assert forall|amount: int|
        in_step(#[trigger] state.change_volume(amount), worker) by {
        let level = clamp_volume(state.volume + amount);
        lemma_worker_run_push(worker, state.commands, CommandView::SetVolume(level as nat));
    }
}

/// The controller and the worker side by side after `operation`: the
/// worker is handed whatever the controller hands over, and applies it.
pub open spec fn step_together(
    state: PlayerState,
    worker: WorkerState,
    operation: Operation,
) -> (PlayerState, WorkerState) {
    if operation == Operation::TakeCommands {
        (state.take_commands(), worker.run(state.commands))
    } else {
        (step(state, operation), worker)
    }
}

/// The controller and the worker side by side after all of `operations`.
pub open spec fn run_together(
    state: PlayerState,
    worker: WorkerState,
    operations: Seq<Operation>,
) -> (PlayerState, WorkerState)
    decreases operations.len(),
{
    if operations.len() == 0 {
        (state, worker)
    } else {
        let before = run_together(state, worker, operations.drop_last());
        step_together(before.0, before.1, operations.last())
    }
}

/// However operations and hand-overs alternate, a controller and a worker
/// that were in step stay in step: once the worker has caught up it plays
/// what the controller shows, at the controller's volume, paused if and
/// only if the controller is.
pub proof fn lemma_run_keeps_in_step(
    state: PlayerState,
    worker: WorkerState,
    operations: Seq<Operation>,
)
    requires
        state.wf(),
        in_step(state, worker),
    ensures
        run_together(state, worker, operations).0 == run(state, operations),
        in_step(
            run_together(state, worker, operations).0,
            run_together(state, worker, operations).1,
        ),
    decreases operations.len(),
{
    if operations.len() > 0 {
        let earlier = operations.drop_last();
        let before = run_together(state, worker, earlier);
        lemma_run_keeps_in_step(state, worker, earlier);
        lemma_run_keeps_valid(state, earlier);
        lemma_step_keeps_in_step(before.0, before.1, operations.last());
    }
}

/// No command leads a worker out of its valid states.
pub proof fn lemma_worker_stays_valid(worker: WorkerState, commands: Seq<CommandView>)
    requires
        worker.wf(),
    ensures
        worker.run(commands).wf(),
    decreases commands.len(),
{
    if commands.len() > 0 {
        lemma_worker_stays_valid(worker, commands.drop_last());
    }
}

/// Commands delivered in two batches do to a worker what they do in one:
/// each is applied in full before the next.
pub proof fn lemma_worker_run_in_batches(
    worker: WorkerState,
    first: Seq<CommandView>,
    second: Seq<CommandView>,
)
    ensures
        worker.run(first + second) == worker.run(first).run(second),
    decreases second.len(),
{
    if second.len() == 0 {
        assert(first + second =~= first);
    } else {
        lemma_worker_run_in_batches(worker, first, second.drop_last());
        assert((first + second).drop_last() =~= first + second.drop_last());
    }
}

proof fn lemma_play_keeps_in_step(state: PlayerState, worker: WorkerState, index: nat)
    requires
        state.wf(),
        in_step(state, worker),
        index < state.songs.len(),
    ensures
        in_step(state.play(index), worker),
{
    lemma_worker_run_push(worker, state.commands, CommandView::PlayTrack(state.songs[index as int]));
}

} // verus!
