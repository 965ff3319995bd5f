use music_player::controller::{main_controller, poll_timeout, tick_due};
use music_player::player::App;
use music_player::song::{Command, SongInfo};

fn song(name: &str, duration: u32) -> SongInfo {
    SongInfo::new(format!("/music/{}.mp3", name), name.to_string(), duration)
}

fn three_songs() -> Vec<SongInfo> {
    vec![song("one", 10), song("two", 5), song("three", 8)]
}

fn log_of(app: &App) -> Vec<String> {
    app.debugger().messages().iter().cloned().collect()
}

#[test]
fn new_controller_starts_at_the_first_song_with_nothing_playing() {
    let mut app = App::new(three_songs());
    assert_eq!(app.songs(), &three_songs());
    assert_eq!(app.current_song_index(), 0);
    assert_eq!(app.progress(), 0);
    assert_eq!(app.volume(), 50);
    assert!(!app.paused());
    assert!(!app.quit_requested());
    assert_eq!(app.song_info(), &None);
    assert!(app.debugger().messages().is_empty());
    assert!(app.take_commands().is_empty());
}

#[test]
fn next_moves_forward_and_stops_at_the_last_song() {
    let mut app = App::new(three_songs());
    app.try_play_next_song();
    assert_eq!(app.current_song_index(), 1);
    assert_eq!(app.song_info(), &Some(song("two", 5)));
    app.try_play_next_song();
    assert_eq!(app.current_song_index(), 2);
    app.try_play_next_song();
    assert_eq!(app.current_song_index(), 2);
    assert_eq!(app.song_info(), &Some(song("three", 8)));
    assert_eq!(
        app.take_commands(),
        vec![
            Command::PlayTrack(song("two", 5)),
            Command::PlayTrack(song("three", 8)),
            Command::PlayTrack(song("three", 8)),
        ]
    );
}

#[test]
fn previous_moves_back_and_stops_at_the_first_song() {
    let mut app = App::new(three_songs());
    app.try_play_next_song();
    app.try_play_next_song();
    app.take_commands();
    app.try_play_previous_song();
    assert_eq!(app.current_song_index(), 1);
    app.try_play_previous_song();
    assert_eq!(app.current_song_index(), 0);
    app.try_play_previous_song();
    assert_eq!(app.current_song_index(), 0);
    assert_eq!(
        app.take_commands(),
        vec![
            Command::PlayTrack(song("two", 5)),
            Command::PlayTrack(song("one", 10)),
            Command::PlayTrack(song("one", 10)),
        ]
    );
}

#[test]
fn index_stays_within_the_playlist_over_a_long_walk() {
    let mut app = App::new(three_songs());
    let walk = [
        true, true, true, true, false, true, false, false, false, false, false, true, true, false,
        true, true, true,
    ];
    for forward in walk {
        if forward {
            app.try_play_next_song();
        } else {
            app.try_play_previous_song();
        }
        assert!(app.current_song_index() < 3);
        assert_eq!(
            app.song_info(),
            &Some(three_songs().remove(app.current_song_index()))
        );
    }
    assert_eq!(app.current_song_index(), 2);
    assert_eq!(app.take_commands().len(), walk.len());
}

#[test]
fn empty_playlist_ignores_every_transport_operation() {
    let mut app = App::new(Vec::new());
    for _ in 0..3 {
        app.try_play_next_song();
        app.try_play_previous_song();
        app.try_play_current_song();
        app.toggle_pause_song();
        app.on_tick();
    }
    assert!(app.songs().is_empty());
    assert_eq!(app.current_song_index(), 0);
    assert_eq!(app.progress(), 0);
    assert!(!app.paused());
    assert_eq!(app.song_info(), &None);
    assert!(app.debugger().messages().is_empty());
    assert!(app.take_commands().is_empty());
}

#[test]
fn empty_playlist_still_has_a_volume() {
    let mut app = App::new(Vec::new());
    app.change_volume(5);
    assert_eq!(app.volume(), 55);
    assert_eq!(app.take_commands(), vec![Command::SetVolume(55)]);
}

#[test]
fn play_current_restarts_the_current_song() {
    let mut app = App::new(three_songs());
    app.try_play_next_song();
    app.on_tick();
    app.on_tick();
    assert_eq!(app.progress(), 2);
    app.take_commands();
    app.try_play_current_song();
    assert_eq!(app.current_song_index(), 1);
    assert_eq!(app.progress(), 0);
    assert_eq!(app.take_commands(), vec![Command::PlayTrack(song("two", 5))]);
}

#[test]
fn previous_on_the_first_song_restarts_it() {
    let mut app = App::new(three_songs());
    app.try_play_current_song();
    app.on_tick();
    app.on_tick();
    app.on_tick();
    assert_eq!(app.progress(), 3);
    app.take_commands();
    app.try_play_previous_song();
    assert_eq!(app.current_song_index(), 0);
    assert_eq!(app.progress(), 0);
    assert_eq!(app.song_info(), &Some(song("one", 10)));
    assert_eq!(app.take_commands(), vec![Command::PlayTrack(song("one", 10))]);
}

#[test]
fn playing_while_paused_sends_one_command() {
    let mut app = App::new(three_songs());
    app.try_play_current_song();
    app.toggle_pause_song();
    assert!(app.paused());
    app.take_commands();
    app.try_play_next_song();
    assert!(!app.paused());
    assert_eq!(app.current_song_index(), 1);
    assert_eq!(app.take_commands(), vec![Command::PlayTrack(song("two", 5))]);
}

#[test]
fn restarting_while_paused_sends_one_command() {
    let mut app = App::new(three_songs());
    app.try_play_current_song();
    app.on_tick();
    app.toggle_pause_song();
    app.take_commands();
    app.try_play_current_song();
    assert!(!app.paused());
    assert_eq!(app.progress(), 0);
    assert_eq!(app.take_commands(), vec![Command::PlayTrack(song("one", 10))]);
    app.toggle_pause_song();
    app.take_commands();
    app.on_key('k');
    assert!(!app.paused());
    assert_eq!(app.take_commands(), vec![Command::PlayTrack(song("one", 10))]);
}

#[test]
fn playing_logs_the_index_and_a_note() {
    let mut app = App::new(three_songs());
    app.try_play_next_song();
    assert_eq!(log_of(&app), vec!["1".to_string(), "plaing".to_string()]);
    app.try_play_previous_song();
    assert_eq!(
        log_of(&app),
        vec![
            "1".to_string(),
            "plaing".to_string(),
            "0".to_string(),
            "plaing".to_string()
        ]
    );
}

#[test]
fn log_keeps_the_ten_newest_messages() {
    let mut app = App::new(three_songs());
    for _ in 0..6 {
        app.try_play_next_song();
    }
    let log = log_of(&app);
    assert_eq!(log.len(), 10);
    assert_eq!(
        log,
        vec!["2", "plaing", "2", "plaing", "2", "plaing", "2", "plaing", "2", "plaing"]
    );
}

#[test]
fn messages_can_be_logged_from_outside() {
    let mut app = App::new(three_songs());
    app.log("cannot open \"/music/one.mp3\"");
    app.log("");
    assert_eq!(
        log_of(&app),
        vec!["cannot open \"/music/one.mp3\"".to_string(), String::new()]
    );
    assert_eq!(app.debugger().text(), "cannot open \"/music/one.mp3\"\n\n");
    assert!(app.take_commands().is_empty());
}

#[test]
fn volume_changes_by_the_amount() {
    let mut app = App::new(three_songs());
    app.change_volume(5);
    assert_eq!(app.volume(), 55);
    app.change_volume(-15);
    assert_eq!(app.volume(), 40);
    app.change_volume(0);
    assert_eq!(app.volume(), 40);
    assert_eq!(
        app.take_commands(),
        vec![
            Command::SetVolume(55),
            Command::SetVolume(40),
            Command::SetVolume(40)
        ]
    );
}

#[test]
fn volume_settles_at_full() {
    let mut app = App::new(three_songs());
    for _ in 0..4 {
        app.change_volume(1000);
        assert_eq!(app.volume(), 100);
    }
    assert_eq!(
        app.take_commands(),
        vec![
            Command::SetVolume(100),
            Command::SetVolume(100),
            Command::SetVolume(100),
            Command::SetVolume(100)
        ]
    );
}

#[test]
fn volume_settles_at_silence() {
    let mut app = App::new(three_songs());
    for _ in 0..4 {
        app.change_volume(-1000);
        assert_eq!(app.volume(), 0);
    }
    assert_eq!(
        app.take_commands(),
        vec![
            Command::SetVolume(0),
            Command::SetVolume(0),
            Command::SetVolume(0),
            Command::SetVolume(0)
        ]
    );
}

#[test]
fn volume_reaches_the_ends_in_small_steps() {
    let mut app = App::new(three_songs());
    for _ in 0..9 {
        app.change_volume(5);
    }
    assert_eq!(app.volume(), 95);
    app.change_volume(5);
    assert_eq!(app.volume(), 100);
    app.change_volume(5);
    assert_eq!(app.volume(), 100);
    for _ in 0..25 {
        app.change_volume(-5);
    }
    assert_eq!(app.volume(), 0);
}

#[test]
fn volume_survives_the_largest_amounts() {
    let mut app = App::new(three_songs());
    app.change_volume(i32::MAX);
    assert_eq!(app.volume(), 100);
    app.change_volume(i32::MAX);
    assert_eq!(app.volume(), 100);
    app.change_volume(i32::MIN);
    assert_eq!(app.volume(), 0);
    app.change_volume(i32::MIN);
    assert_eq!(app.volume(), 0);
}

#[test]
fn pause_needs_a_song_that_was_played() {
    let mut app = App::new(three_songs());
    app.toggle_pause_song();
    app.toggle_pause_song();
    assert!(!app.paused());
    assert!(app.take_commands().is_empty());
}

#[test]
fn toggling_pause_twice_restores_it() {
    let mut app = App::new(three_songs());
    app.try_play_current_song();
    app.take_commands();
    app.toggle_pause_song();
    assert!(app.paused());
    app.toggle_pause_song();
    assert!(!app.paused());
    assert_eq!(
        app.take_commands(),
        vec![Command::TogglePause, Command::TogglePause]
    );
    app.toggle_pause_song();
    app.take_commands();
    app.toggle_pause_song();
    app.toggle_pause_song();
    assert!(app.paused());
    assert_eq!(
        app.take_commands(),
        vec![Command::TogglePause, Command::TogglePause]
    );
}

#[test]
fn ticks_are_ignored_while_paused() {
    let mut app = App::new(three_songs());
    app.try_play_current_song();
    app.on_tick();
    app.toggle_pause_song();
    for _ in 0..20 {
        app.on_tick();
    }
    assert_eq!(app.progress(), 1);
    assert_eq!(app.current_song_index(), 0);
    app.toggle_pause_song();
    app.on_tick();
    assert_eq!(app.progress(), 2);
}

#[test]
fn single_song_ends_with_the_tick_after_its_last_second() {
    let mut app = App::new(vec![song("only", 7)]);
    for second in 1..=7 {
        app.on_tick();
        assert_eq!(app.progress(), second);
        assert!(app.take_commands().is_empty());
    }
    app.on_tick();
    assert_eq!(app.progress(), 0);
    assert_eq!(app.current_song_index(), 0);
    assert_eq!(app.take_commands(), vec![Command::PlayTrack(song("only", 7))]);
}

#[test]
fn song_without_length_ends_with_every_tick() {
    let mut app = App::new(vec![song("blip", 0), song("next", 3)]);
    app.on_tick();
    assert_eq!(app.current_song_index(), 1);
    assert_eq!(app.progress(), 0);
    assert_eq!(app.take_commands(), vec![Command::PlayTrack(song("next", 3))]);
}

#[test]
fn longest_song_does_not_overflow_the_progress() {
    let mut app = App::new(vec![song("endless", u32::MAX)]);
    for _ in 0..1000 {
        app.on_tick();
    }
    assert_eq!(app.progress(), 1000);
    assert!(app.take_commands().is_empty());
}

#[test]
fn three_songs_advance_as_they_end() {
    let mut app = App::new(three_songs());
    for _ in 0..10 {
        app.on_tick();
    }
    assert_eq!(app.current_song_index(), 0);
    assert_eq!(app.progress(), 10);
    app.on_tick();
    assert_eq!(app.current_song_index(), 1);
    assert_eq!(app.progress(), 0);
    app.on_tick();
    assert_eq!(app.current_song_index(), 1);
    assert_eq!(app.progress(), 1);
    for _ in 0..4 {
        app.on_tick();
    }
    assert_eq!(app.current_song_index(), 1);
    assert_eq!(app.progress(), 5);
    app.on_tick();
    assert_eq!(app.current_song_index(), 2);
    assert_eq!(app.progress(), 0);
    app.on_tick();
    assert_eq!(app.current_song_index(), 2);
    assert_eq!(app.progress(), 1);
    assert_eq!(
        app.take_commands(),
        vec![
            Command::PlayTrack(song("two", 5)),
            Command::PlayTrack(song("three", 8))
        ]
    );
}

#[test]
fn last_song_repeats_when_it_ends() {
    let mut app = App::new(three_songs());
    app.try_play_next_song();
    app.try_play_next_song();
    app.take_commands();
    for _ in 0..9 {
        app.on_tick();
    }
    assert_eq!(app.current_song_index(), 2);
    assert_eq!(app.progress(), 0);
    assert_eq!(app.take_commands(), vec![Command::PlayTrack(song("three", 8))]);
}

#[test]
fn quit_is_asked_for_once_and_for_all() {
    let mut app = App::new(three_songs());
    app.request_quit();
    assert!(app.quit_requested());
    app.request_quit();
    assert!(app.quit_requested());
    assert!(app.take_commands().is_empty());
}

#[test]
fn taking_commands_leaves_none() {
    let mut app = App::new(three_songs());
    app.change_volume(5);
    app.try_play_current_song();
    assert_eq!(app.take_commands().len(), 2);
    assert!(app.take_commands().is_empty());
    assert_eq!(app.volume(), 55);
    assert_eq!(app.song_info(), &Some(song("one", 10)));
}

#[test]
fn keys_map_to_operations() {
    let mut app = App::new(three_songs());
    app.on_key('j');
    assert_eq!(app.current_song_index(), 1);
    app.on_key('k');
    assert_eq!(app.current_song_index(), 0);
    app.on_key('w');
    assert_eq!(app.volume(), 55);
    app.on_key('b');
    app.on_key('b');
    assert_eq!(app.volume(), 45);
    app.on_key(' ');
    assert!(app.paused());
    app.on_key(' ');
    assert!(!app.paused());
    assert!(!app.quit_requested());
    app.on_key('q');
    assert!(app.quit_requested());
    assert_eq!(
        app.take_commands(),
        vec![
            Command::PlayTrack(song("two", 5)),
            Command::PlayTrack(song("one", 10)),
            Command::SetVolume(55),
            Command::SetVolume(50),
            Command::SetVolume(45),
            Command::TogglePause,
            Command::TogglePause,
        ]
    );
}

#[test]
fn other_keys_do_nothing() {
    let mut app = App::new(three_songs());
    for key in ['a', 'J', 'K', 'Q', 'W', 'B', '\n', '0', 'é'] {
        app.on_key(key);
    }
    assert_eq!(app.current_song_index(), 0);
    assert_eq!(app.volume(), 50);
    assert!(!app.paused());
    assert!(!app.quit_requested());
    assert!(app.debugger().messages().is_empty());
    assert!(app.take_commands().is_empty());
}

#[test]
fn poll_timeout_is_what_is_left_of_the_tick() {
    assert_eq!(poll_timeout(1_000_000_000, 0), 1_000_000_000);
    assert_eq!(poll_timeout(1_000_000_000, 250_000_000), 750_000_000);
    assert_eq!(poll_timeout(1_000_000_000, 1_000_000_000), 0);
    assert_eq!(poll_timeout(1_000_000_000, 5_000_000_000), 0);
    assert_eq!(poll_timeout(0, 0), 0);
    assert_eq!(poll_timeout(u128::MAX, 1), u128::MAX - 1);
}

#[test]
fn tick_is_due_once_the_rate_has_elapsed() {
    assert!(!tick_due(1_000_000_000, 0));
    assert!(!tick_due(1_000_000_000, 999_999_999));
    assert!(tick_due(1_000_000_000, 1_000_000_000));
    assert!(tick_due(1_000_000_000, 1_000_000_001));
    assert!(tick_due(0, 0));
}

#[test]
fn round_handles_the_key_before_the_tick() {
    let mut app = App::new(three_songs());
    for _ in 0..10 {
        assert!(main_controller(&mut app, None, 1_000, 1_000));
    }
    assert_eq!(app.progress(), 10);
    // The key restarts the song, then the second is counted.
    assert!(main_controller(&mut app, Some('k'), 1_000, 2_000));
    assert_eq!(app.current_song_index(), 0);
    assert_eq!(app.progress(), 1);
    assert_eq!(app.take_commands(), vec![Command::PlayTrack(song("one", 10))]);
}

#[test]
fn round_without_key_or_tick_changes_nothing() {
    let mut app = App::new(three_songs());
    assert!(!main_controller(&mut app, None, 1_000, 999));
    assert_eq!(app.progress(), 0);
    assert!(!main_controller(&mut app, Some('w'), 1_000, 0));
    assert_eq!(app.progress(), 0);
    assert_eq!(app.volume(), 55);
    assert_eq!(app.take_commands(), vec![Command::SetVolume(55)]);
}
