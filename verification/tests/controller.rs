use music_player::controller::{
    key_command, poll_timeout, tick_due, App, AppMode, Command, Effect, Key, TICK_MILLIS,
};
use music_player::player::{AudioPlayer, LoadOutcome, PlaybackState, PlayerError, SinkCommand};
use music_player::playlist::{FoundEntry, Playlist};

fn app_of(paths: &[&str]) -> App {
    let entries = paths.iter().map(|p| FoundEntry { path: p.to_string(), is_file: true }).collect();
    let playlist = Playlist::new_from_dir(entries).unwrap();
    let player = AudioPlayer::new(true).unwrap();
    App::new(playlist, player)
}

fn playing_app(paths: &[&str]) -> App {
    let mut app = app_of(paths);
    app.load_finished(LoadOutcome::Loaded).unwrap();
    app.take_commands();
    app
}

#[test]
fn new_app_shows_player_with_first_row() {
    let app = app_of(&["b.mp3", "a.mp3"]);
    assert_eq!(app.mode(), AppMode::Player);
    assert_eq!(app.selected(), 0);
    assert_eq!(app.playlist().current_index(), 0);
    assert_eq!(app.player().get_state(), PlaybackState::Stopped);
}

#[test]
fn tick_while_playing_and_finished_advances() {
    let mut app = playing_app(&["a.mp3", "b.mp3", "c.mp3"]);
    let effect = app.on_tick(true);
    assert_eq!(effect, Effect::Load(1));
    assert_eq!(app.playlist().current_index(), 1);
    assert_eq!(app.playlist().current().unwrap().path(), "b.mp3");
    assert_eq!(app.selected(), 1);
    assert_eq!(app.load_finished(LoadOutcome::Loaded), Ok(()));
    assert_eq!(app.player().get_state(), PlaybackState::Playing);
    assert_eq!(
        app.take_commands(),
        vec![SinkCommand::Stop, SinkCommand::Append, SinkCommand::SetVolume(50)]
    );
}

#[test]
fn tick_while_paused_and_finished_does_nothing() {
    let mut app = playing_app(&["a.mp3", "b.mp3", "c.mp3"]);
    app.apply(Command::TogglePause);
    app.take_commands();
    let effect = app.on_tick(true);
    assert_eq!(effect, Effect::Idle);
    assert_eq!(app.playlist().current_index(), 0);
    assert_eq!(app.selected(), 0);
    assert_eq!(app.player().get_state(), PlaybackState::Paused);
    assert!(app.take_commands().is_empty());
}

#[test]
fn tick_while_stopped_does_nothing() {
    let mut app = app_of(&["a.mp3", "b.mp3"]);
    assert_eq!(app.on_tick(true), Effect::Idle);
    assert_eq!(app.playlist().current_index(), 0);
    assert_eq!(app.player().get_state(), PlaybackState::Stopped);
}

#[test]
fn tick_while_track_still_sounds_does_nothing() {
    let mut app = playing_app(&["a.mp3", "b.mp3"]);
    assert_eq!(app.on_tick(false), Effect::Idle);
    assert_eq!(app.playlist().current_index(), 0);
    assert_eq!(app.player().get_state(), PlaybackState::Playing);
    assert!(app.take_commands().is_empty());
}

#[test]
fn tick_on_single_track_restarts_it() {
    let mut app = playing_app(&["only.mp3"]);
    assert_eq!(app.on_tick(true), Effect::Load(0));
    assert_eq!(app.playlist().current_index(), 0);
    app.load_finished(LoadOutcome::Loaded).unwrap();
    assert_eq!(app.player().get_state(), PlaybackState::Playing);
}

#[test]
fn tick_from_last_track_wraps() {
    let mut app = playing_app(&["a.mp3", "b.mp3"]);
    app.apply(Command::NextTrack);
    assert_eq!(app.on_tick(true), Effect::Load(0));
    assert_eq!(app.playlist().current_index(), 0);
}

#[test]
fn failed_load_after_tick_keeps_cursor_and_state() {
    let mut app = playing_app(&["a.mp3", "b.mp3"]);
    assert_eq!(app.on_tick(true), Effect::Load(1));
    assert_eq!(app.load_finished(LoadOutcome::DecodeFailed), Err(PlayerError::Decode));
    assert_eq!(app.playlist().current_index(), 1);
    assert_eq!(app.player().get_state(), PlaybackState::Playing);
    assert_eq!(app.take_commands(), vec![SinkCommand::Stop]);
    assert_eq!(app.load_finished(LoadOutcome::OpenFailed), Err(PlayerError::Io));
}

#[test]
fn next_and_prev_track_ask_for_a_load() {
    let mut app = app_of(&["a.mp3", "b.mp3", "c.mp3"]);
    assert_eq!(app.next_track(), Effect::Load(1));
    assert_eq!(app.selected(), 1);
    assert_eq!(app.prev_track(), Effect::Load(0));
    assert_eq!(app.prev_track(), Effect::Load(2));
    assert_eq!(app.selected(), 2);
    assert_eq!(app.playlist().current_index(), 2);
    assert_eq!(app.next_track(), Effect::Load(0));
}

#[test]
fn scrolling_wraps_both_ways() {
    let mut app = app_of(&["a.mp3", "b.mp3", "c.mp3"]);
    app.scroll_up();
    assert_eq!(app.selected(), 2);
    app.scroll_down();
    assert_eq!(app.selected(), 0);
    app.scroll_down();
    assert_eq!(app.selected(), 1);
    app.scroll_up();
    assert_eq!(app.selected(), 0);
    assert_eq!(app.playlist().current_index(), 0);
}

#[test]
fn play_selected_moves_cursor_to_row() {
    let mut app = app_of(&["a.mp3", "b.mp3", "c.mp3"]);
    app.scroll_down();
    app.scroll_down();
    assert_eq!(app.play_selected(), Effect::Load(2));
    assert_eq!(app.playlist().current_index(), 2);
    assert_eq!(app.selected(), 2);
}

#[test]
fn play_number_counts_from_one() {
    let mut app = app_of(&["a.mp3", "b.mp3", "c.mp3"]);
    assert_eq!(app.play_number(3), Effect::Load(2));
    assert_eq!(app.playlist().current_index(), 2);
    assert_eq!(app.selected(), 2);
    assert_eq!(app.play_number(4), Effect::Idle);
    assert_eq!(app.play_number(0), Effect::Idle);
    assert_eq!(app.playlist().current_index(), 2);
    assert_eq!(app.selected(), 2);
    assert_eq!(app.play_number(1), Effect::Load(0));
}

#[test]
fn player_screen_keys() {
    let m = AppMode::Player;
    assert_eq!(key_command(m, Key::Char('q')), Command::Quit);
    assert_eq!(key_command(m, Key::Esc), Command::Quit);
    assert_eq!(key_command(m, Key::Char(' ')), Command::TogglePause);
    assert_eq!(key_command(m, Key::Char('p')), Command::TogglePause);
    assert_eq!(key_command(m, Key::Char('n')), Command::NextTrack);
    assert_eq!(key_command(m, Key::Right), Command::NextTrack);
    assert_eq!(key_command(m, Key::Char('b')), Command::PrevTrack);
    assert_eq!(key_command(m, Key::Left), Command::PrevTrack);
    assert_eq!(key_command(m, Key::Char('+')), Command::VolumeUp);
    assert_eq!(key_command(m, Key::Char('=')), Command::VolumeUp);
    assert_eq!(key_command(m, Key::Char('-')), Command::VolumeDown);
    assert_eq!(key_command(m, Key::Char('l')), Command::ShowPlaylist);
    assert_eq!(key_command(m, Key::Tab), Command::ShowPlaylist);
    assert_eq!(key_command(m, Key::Char('h')), Command::ShowHelp);
    assert_eq!(key_command(m, Key::F(1)), Command::ShowHelp);
    assert_eq!(key_command(m, Key::F(2)), Command::Nothing);
    assert_eq!(key_command(m, Key::Char('1')), Command::PlayNumber(1));
    assert_eq!(key_command(m, Key::Char('5')), Command::PlayNumber(5));
    assert_eq!(key_command(m, Key::Char('9')), Command::PlayNumber(9));
    assert_eq!(key_command(m, Key::Char('0')), Command::Nothing);
    assert_eq!(key_command(m, Key::Char('Q')), Command::Nothing);
    assert_eq!(key_command(m, Key::Char('k')), Command::Nothing);
    assert_eq!(key_command(m, Key::Up), Command::Nothing);
    assert_eq!(key_command(m, Key::Down), Command::Nothing);
    assert_eq!(key_command(m, Key::Enter), Command::Nothing);
    assert_eq!(key_command(m, Key::Other), Command::Nothing);
}

#[test]
fn playlist_screen_keys() {
    let m = AppMode::Playlist;
    assert_eq!(key_command(m, Key::Char('q')), Command::ShowPlayer);
    assert_eq!(key_command(m, Key::Esc), Command::ShowPlayer);
    assert_eq!(key_command(m, Key::Tab), Command::ShowPlayer);
    assert_eq!(key_command(m, Key::Up), Command::ScrollUp);
    assert_eq!(key_command(m, Key::Char('k')), Command::ScrollUp);
    assert_eq!(key_command(m, Key::Down), Command::ScrollDown);
    assert_eq!(key_command(m, Key::Char('j')), Command::ScrollDown);
    assert_eq!(key_command(m, Key::Enter), Command::PlaySelected);
    assert_eq!(key_command(m, Key::Char('n')), Command::Nothing);
    assert_eq!(key_command(m, Key::Char('1')), Command::Nothing);
    assert_eq!(key_command(m, Key::Char(' ')), Command::Nothing);
    assert_eq!(key_command(m, Key::Left), Command::Nothing);
    assert_eq!(key_command(m, Key::F(1)), Command::Nothing);
}

#[test]
fn help_screen_keys() {
    let m = AppMode::Help;
    assert_eq!(key_command(m, Key::Char('q')), Command::ShowPlayer);
    assert_eq!(key_command(m, Key::Char('h')), Command::ShowPlayer);
    assert_eq!(key_command(m, Key::Esc), Command::ShowPlayer);
    assert_eq!(key_command(m, Key::Tab), Command::Nothing);
    assert_eq!(key_command(m, Key::Enter), Command::Nothing);
    assert_eq!(key_command(m, Key::Char('n')), Command::Nothing);
}

#[test]
fn quit_key_leaves_the_loop_without_change() {
    let mut app = playing_app(&["a.mp3", "b.mp3"]);
    assert_eq!(app.handle_key(Key::Char('q')), Effect::Quit);
    assert_eq!(app.mode(), AppMode::Player);
    assert_eq!(app.playlist().current_index(), 0);
    assert_eq!(app.player().get_state(), PlaybackState::Playing);
}

#[test]
fn pause_key_toggles_the_player() {
    let mut app = playing_app(&["a.mp3"]);
    assert_eq!(app.handle_key(Key::Char(' ')), Effect::Idle);
    assert_eq!(app.player().get_state(), PlaybackState::Paused);
    assert_eq!(app.take_commands(), vec![SinkCommand::Pause]);
    assert_eq!(app.handle_key(Key::Char('p')), Effect::Idle);
    assert_eq!(app.player().get_state(), PlaybackState::Playing);
    assert_eq!(app.take_commands(), vec![SinkCommand::Play]);
}

#[test]
fn volume_keys_step_the_level() {
    let mut app = app_of(&["a.mp3"]);
    assert_eq!(app.handle_key(Key::Char('+')), Effect::Idle);
    assert_eq!(app.player().get_volume(), 60);
    assert_eq!(app.handle_key(Key::Char('=')), Effect::Idle);
    assert_eq!(app.player().get_volume(), 70);
    assert_eq!(app.handle_key(Key::Char('-')), Effect::Idle);
    assert_eq!(app.player().get_volume(), 60);
    assert_eq!(
        app.take_commands(),
        vec![SinkCommand::SetVolume(60), SinkCommand::SetVolume(70), SinkCommand::SetVolume(60)]
    );
}

#[test]
fn track_keys_move_the_cursor() {
    let mut app = app_of(&["a.mp3", "b.mp3", "c.mp3"]);
    assert_eq!(app.handle_key(Key::Char('n')), Effect::Load(1));
    assert_eq!(app.handle_key(Key::Right), Effect::Load(2));
    assert_eq!(app.handle_key(Key::Char('b')), Effect::Load(1));
    assert_eq!(app.handle_key(Key::Left), Effect::Load(0));
    assert_eq!(app.handle_key(Key::Left), Effect::Load(2));
    assert_eq!(app.playlist().current_index(), 2);
    assert_eq!(app.selected(), 2);
}

#[test]
fn digit_keys_pick_a_track() {
    let mut app = app_of(&["a.mp3", "b.mp3", "c.mp3"]);
    assert_eq!(app.handle_key(Key::Char('2')), Effect::Load(1));
    assert_eq!(app.playlist().current_index(), 1);
    assert_eq!(app.selected(), 1);
    assert_eq!(app.handle_key(Key::Char('7')), Effect::Idle);
    assert_eq!(app.handle_key(Key::Char('0')), Effect::Idle);
    assert_eq!(app.playlist().current_index(), 1);
    assert_eq!(app.selected(), 1);
}

#[test]
fn screens_switch_by_key() {
    let mut app = app_of(&["a.mp3", "b.mp3"]);
    assert_eq!(app.handle_key(Key::Tab), Effect::Idle);
    assert_eq!(app.mode(), AppMode::Playlist);
    assert_eq!(app.handle_key(Key::Char('q')), Effect::Idle);
    assert_eq!(app.mode(), AppMode::Player);
    assert_eq!(app.handle_key(Key::Char('h')), Effect::Idle);
    assert_eq!(app.mode(), AppMode::Help);
    assert_eq!(app.handle_key(Key::Char('n')), Effect::Idle);
    assert_eq!(app.mode(), AppMode::Help);
    assert_eq!(app.playlist().current_index(), 0);
    assert_eq!(app.handle_key(Key::Esc), Effect::Idle);
    assert_eq!(app.mode(), AppMode::Player);
    assert_eq!(app.handle_key(Key::Char('l')), Effect::Idle);
    assert_eq!(app.mode(), AppMode::Playlist);
}

#[test]
fn enter_in_list_plays_selection_and_returns() {
    let mut app = app_of(&["a.mp3", "b.mp3", "c.mp3"]);
    app.handle_key(Key::Tab);
    assert_eq!(app.handle_key(Key::Down), Effect::Idle);
    assert_eq!(app.handle_key(Key::Char('j')), Effect::Idle);
    assert_eq!(app.selected(), 2);
    assert_eq!(app.playlist().current_index(), 0);
    assert_eq!(app.handle_key(Key::Enter), Effect::Load(2));
    assert_eq!(app.mode(), AppMode::Player);
    assert_eq!(app.playlist().current_index(), 2);
    app.handle_key(Key::Tab);
    assert_eq!(app.handle_key(Key::Up), Effect::Idle);
    assert_eq!(app.handle_key(Key::Char('k')), Effect::Idle);
    assert_eq!(app.selected(), 0);
}

#[test]
fn poll_timeout_is_rest_of_period() {
    assert_eq!(TICK_MILLIS, 50);
    assert_eq!(poll_timeout(50, 0), 50);
    assert_eq!(poll_timeout(50, 20), 30);
    assert_eq!(poll_timeout(50, 49), 1);
    assert_eq!(poll_timeout(50, 50), 0);
    assert_eq!(poll_timeout(50, 5000), 0);
    assert_eq!(poll_timeout(0, 0), 0);
    assert_eq!(poll_timeout(u64::MAX, 1), u64::MAX - 1);
}

#[test]
fn tick_is_due_after_a_full_period() {
    assert!(!tick_due(50, 0));
    assert!(!tick_due(50, 49));
    assert!(tick_due(50, 50));
    assert!(tick_due(50, 51));
    assert!(tick_due(0, 0));
}
