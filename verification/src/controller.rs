//! The interactive session: one playlist, one player, and the rules that
//! turn key presses and timer ticks into changes of both.
//!
//! Nothing here waits, reads keys or decodes audio. The caller runs the
//! loop: it hands each key press and each tick to the session, and does
//! what the returned [`Effect`] asks.

use vstd::prelude::*;
use crate::player::{AudioPlayer, LoadOutcome, PlaybackState, PlayerError, PlayerView, SinkCommand, load_error};
use crate::playlist::{Playlist, PlaylistView, lemma_moves_keep_wf};

verus! {

/// The period of the timer that checks whether the track has ended, in
/// milliseconds.
pub const TICK_MILLIS: u64 = 50;

/// Which screen is shown, and so what the keys mean.
#[derive(Debug, Clone, Copy, PartialEq, Eq, Structural)]
pub enum AppMode {
    Player,
    Playlist,
    Help,
}

/// A key press, as far as the session tells keys apart.
#[derive(Debug, Clone, Copy, PartialEq, Eq, Structural)]
pub enum Key {
    Char(char),
    Esc,
    Left,
    Right,
    Up,
    Down,
    Enter,
    Tab,
    /// A function key, by its number.
    F(u8),
    /// Any key that has no meaning on any screen.
    Other,
}

/// What a key press asks for.
#[derive(Debug, Clone, Copy, PartialEq, Eq, Structural)]
pub enum Command {
    Quit,
    TogglePause,
    NextTrack,
    PrevTrack,
    VolumeUp,
    VolumeDown,
    ShowPlaylist,
    ShowHelp,
    ShowPlayer,
    /// Play the track with this number, counted from one.
    PlayNumber(usize),
    ScrollUp,
    ScrollDown,
    /// Play the track that is selected in the list, and go back to the
    /// player screen.
    PlaySelected,
    Nothing,
}

/// What the caller has to do after a step of the session.
#[derive(Debug, Clone, Copy, PartialEq, Eq, Structural)]
pub enum Effect {
    /// Nothing beyond carrying out the player's commands.
    Idle,
    /// Leave the loop.
    Quit,
    /// Open and decode the track at this position, which is where the
    /// cursor now stands, and report how that went.
    Load(usize),
}

/// The number that a digit key stands for.
pub open spec fn digit_value(c: char) -> int {
    c as int - '0' as int
}

/// The meaning of a character key on the player screen.
pub open spec fn player_char_command(c: char) -> Command {
    if c == 'q' {
        Command::Quit
    } else if c == ' ' || c == 'p' {
        Command::TogglePause
    } else if c == 'n' {
        Command::NextTrack
    } else if c == 'b' {
        Command::PrevTrack
    } else if c == '+' || c == '=' {
        Command::VolumeUp
    } else if c == '-' {
        Command::VolumeDown
    } else if c == 'l' {
        Command::ShowPlaylist
    } else if c == 'h' {
        Command::ShowHelp
    } else if '1' <= c && c <= '9' {
        Command::PlayNumber(digit_value(c) as usize)
    } else {
        Command::Nothing
    }
}

/// The meaning of a key on the screen that `mode` names.
pub open spec fn command_for(mode: AppMode, key: Key) -> Command {
    match mode {
        AppMode::Player => match key {
            Key::Char(c) => player_char_command(c),
            Key::Esc => Command::Quit,
            Key::Right => Command::NextTrack,
            Key::Left => Command::PrevTrack,
            Key::Tab => Command::ShowPlaylist,
            Key::F(n) => if n == 1 {
                Command::ShowHelp
            } else {
                Command::Nothing
            },
            _ => Command::Nothing,
        },
        AppMode::Playlist => match key {
            Key::Char(c) => if c == 'q' {
                Command::ShowPlayer
            } else if c == 'k' {
                Command::ScrollUp
            } else if c == 'j' {
                Command::ScrollDown
            } else {
                Command::Nothing
            },
            Key::Esc => Command::ShowPlayer,
            Key::Tab => Command::ShowPlayer,
            Key::Up => Command::ScrollUp,
            Key::Down => Command::ScrollDown,
            Key::Enter => Command::PlaySelected,
            _ => Command::Nothing,
        },
        AppMode::Help => match key {
            Key::Char(c) => if c == 'q' || c == 'h' {
                Command::ShowPlayer
            } else {
                Command::Nothing
            },
            Key::Esc => Command::ShowPlayer,
            _ => Command::Nothing,
        },
    }
}

fn player_char(c: char) -> (command: Command)
    ensures
        command == player_char_command(c),
{
    if c == 'q' {
        Command::Quit
    } else if c == ' ' || c == 'p' {
        Command::TogglePause
    } else if c == 'n' {
        Command::NextTrack
    } else if c == 'b' {
        Command::PrevTrack
    } else if c == '+' || c == '=' {
        Command::VolumeUp
    } else if c == '-' {
        Command::VolumeDown
    } else if c == 'l' {
        Command::ShowPlaylist
    } else if c == 'h' {
        Command::ShowHelp
    } else if '1' <= c && c <= '9' {
        Command::PlayNumber((c as u32 - '0' as u32) as usize)
    } else {
        Command::Nothing
    }
}

/// Reads a key press as a command, by the screen it was pressed on.
pub fn key_command(mode: AppMode, key: Key) -> (command: Command)
    ensures
        command == command_for(mode, key),
{
    match mode {
        AppMode::Player => match key {
            Key::Char(c) => player_char(c),
            Key::Esc => Command::Quit,
            Key::Right => Command::NextTrack,
            Key::Left => Command::PrevTrack,
            Key::Tab => Command::ShowPlaylist,
            Key::F(n) => if n == 1 {
                Command::ShowHelp
            } else {
                Command::Nothing
            },
            _ => Command::Nothing,
        },
        AppMode::Playlist => match key {
            Key::Char(c) => if c == 'q' {
                Command::ShowPlayer
            } else if c == 'k' {
                Command::ScrollUp
            } else if c == 'j' {
                Command::ScrollDown
            } else {
                Command::Nothing
            },
            Key::Esc => Command::ShowPlayer,
            Key::Tab => Command::ShowPlayer,
            Key::Up => Command::ScrollUp,
            Key::Down => Command::ScrollDown,
            Key::Enter => Command::PlaySelected,
            _ => Command::Nothing,
        },
        AppMode::Help => match key {
            Key::Char(c) => if c == 'q' || c == 'h' {
                Command::ShowPlayer
            } else {
                Command::Nothing
            },
            Key::Esc => Command::ShowPlayer,
            _ => Command::Nothing,
        },
    }
}

/// How long the loop may wait for a key before the next tick is due:
/// what is left of the period, and nothing once it has run out.
pub fn poll_timeout(tick_rate: u64, elapsed: u64) -> (wait: u64)
    ensures
        wait == if elapsed >= tick_rate {
            0
        } else {
            tick_rate - elapsed
        },
{
    if elapsed >= tick_rate {
        0
    } else {
        tick_rate - elapsed
    }
}

/// Whether a tick is due: a full period has gone by since the last one.
pub fn tick_due(tick_rate: u64, elapsed: u64) -> (due: bool)
    ensures
        due == (elapsed >= tick_rate),
{
    elapsed >= tick_rate
}

/// A session as a mathematical value.
pub struct AppView {
    pub playlist: PlaylistView,
    pub player: PlayerView,
    pub mode: AppMode,
    /// The row that is selected in the list.
    pub selected: int,
}

impl AppView {
    /// The playlist and the player are well formed, and the selected row
    /// is a track.
    pub open spec fn wf(self) -> bool {
        &&& self.playlist.wf()
        &&& self.player.wf()
        &&& 0 <= self.selected < self.playlist.tracks.len()
    }

    /// The session with the cursor where `playlist` has it, and the
    /// selection on the same track.
    pub open spec fn follow(self, playlist: PlaylistView) -> AppView {
        AppView { playlist, player: self.player, mode: self.mode, selected: playlist.cursor }
    }

    /// The session with another player state.
    pub open spec fn with_player(self, player: PlayerView) -> AppView {
        AppView { playlist: self.playlist, player, mode: self.mode, selected: self.selected }
    }

    /// The session on another screen.
    pub open spec fn show(self, mode: AppMode) -> AppView {
        AppView { playlist: self.playlist, player: self.player, mode, selected: self.selected }
    }

    /// The session with another row selected.
    pub open spec fn select_row(self, selected: int) -> AppView {
        AppView { playlist: self.playlist, player: self.player, mode: self.mode, selected }
    }

    /// Whether a tick moves on to the next track: only while the listener
    /// wants playback and the sink has nothing left.
    pub open spec fn auto_advances(self, sink_empty: bool) -> bool {
        self.player.state == PlaybackState::Playing && sink_empty
    }

    /// After a step to the next track.
    pub open spec fn next_track(self) -> AppView {
        self.follow(self.playlist.advance())
    }

    /// After a step to the previous track.
    pub open spec fn prev_track(self) -> AppView {
        self.follow(self.playlist.retreat())
    }

    /// After a timer tick on which the sink reported `sink_empty`.
    pub open spec fn on_tick(self, sink_empty: bool) -> AppView {
        if self.auto_advances(sink_empty) {
            self.next_track()
        } else {
            self
        }
    }

    /// After a request to play the selected row. The screen is not changed.
    pub open spec fn play_selected(self) -> AppView {
        AppView {
            playlist: self.playlist.select(self.selected),
            player: self.player,
            mode: self.mode,
            selected: self.selected,
        }
    }

    /// Whether `number`, counted from one, names a track.
    pub open spec fn has_number(self, number: int) -> bool {
        1 <= number <= self.playlist.tracks.len()
    }

    /// After a request to play the track with this number.
    pub open spec fn play_number(self, number: int) -> AppView {
        if self.has_number(number) {
            self.follow(self.playlist.select(number - 1))
        } else {
            self
        }
    }

    /// After the selection moved one row up, from the first row to the last.
    pub open spec fn scroll_up(self) -> AppView {
        self.select_row(
            if self.selected == 0 {
                self.playlist.tracks.len() - 1
            } else {
                self.selected - 1
            },
        )
    }

    /// After the selection moved one row down, from the last row (or any
    /// row past it) to the first.
    pub open spec fn scroll_down(self) -> AppView {
        self.select_row(
            if self.selected >= self.playlist.tracks.len() - 1 {
                0
            } else {
                self.selected + 1
            },
        )
    }

    /// After the attempt to load the requested track ended in `outcome`.
    pub open spec fn load_finished(self, outcome: LoadOutcome) -> AppView {
        self.with_player(self.player.play_song(outcome))
    }

    /// The session after `command`.
    pub open spec fn apply(self, command: Command) -> AppView {
        match command {
            Command::Quit => self,
            Command::TogglePause => self.with_player(self.player.toggle_pause()),
            Command::NextTrack => self.next_track(),
            Command::PrevTrack => self.prev_track(),
            Command::VolumeUp => self.with_player(self.player.volume_up()),
            Command::VolumeDown => self.with_player(self.player.volume_down()),
            Command::ShowPlaylist => self.show(AppMode::Playlist),
            Command::ShowHelp => self.show(AppMode::Help),
            Command::ShowPlayer => self.show(AppMode::Player),
            Command::PlayNumber(number) => self.play_number(number as int),
            Command::ScrollUp => self.scroll_up(),
            Command::ScrollDown => self.scroll_down(),
            Command::PlaySelected => self.play_selected().show(AppMode::Player),
            Command::Nothing => self,
        }
    }

    /// What the caller has to do after `command`: leave, load the track the
    /// cursor has just been put on, or nothing.
    pub open spec fn effect_of(self, command: Command) -> Effect {
        match command {
            Command::Quit => Effect::Quit,
            Command::NextTrack | Command::PrevTrack => Effect::Load(
                self.apply(command).playlist.cursor as usize,
            ),
            Command::PlayNumber(number) => if self.has_number(number as int) {
                Effect::Load((number - 1) as usize)
            } else {
                Effect::Idle
            },
            Command::PlaySelected => if 0 <= self.selected < self.playlist.tracks.len() {
                Effect::Load(self.selected as usize)
            } else {
                Effect::Idle
            },
            _ => Effect::Idle,
        }
    }

    /// What the caller has to do after a tick: load the next track where the
    /// tick moved on to it, and nothing otherwise.
    pub open spec fn tick_effect(self, sink_empty: bool) -> Effect {
        if self.auto_advances(sink_empty) {
            Effect::Load(self.next_track().playlist.cursor as usize)
        } else {
            Effect::Idle
        }
    }
}

/// Every step of a well-formed session leaves it well formed, with the
/// same tracks.
pub proof fn lemma_steps_keep_wf(v: AppView, command: Command, sink_empty: bool, outcome: LoadOutcome)
    requires
        v.wf(),
    ensures
        v.apply(command).wf(),
        v.on_tick(sink_empty).wf(),
        v.load_finished(outcome).wf(),
        v.apply(command).playlist.tracks == v.playlist.tracks,
        v.on_tick(sink_empty).playlist.tracks == v.playlist.tracks,
        v.load_finished(outcome).playlist == v.playlist,
{
    lemma_moves_keep_wf(v.playlist, v.selected);
    match command {
        Command::PlayNumber(number) => {
            lemma_moves_keep_wf(v.playlist, number as int - 1);
        },
        _ => {},
    }
}

/// A track to load is always the one under the cursor after the step, as
/// long as positions in the list fit the machine's index type.
pub proof fn lemma_load_names_cursor(v: AppView, command: Command, sink_empty: bool)
    requires
        v.wf(),
        v.playlist.tracks.len() <= usize::MAX,
    ensures
        v.effect_of(command) matches Effect::Load(i) ==> i == v.apply(command).playlist.cursor,
        v.tick_effect(sink_empty) matches Effect::Load(i) ==> i == v.on_tick(
            sink_empty,
        ).playlist.cursor,
{
    lemma_moves_keep_wf(v.playlist, v.selected);
    match command {
        Command::PlayNumber(number) => {
            lemma_moves_keep_wf(v.playlist, number as int - 1);
        },
        _ => {},
    }
}

/// While the player is `Playing` and the sink has run empty, a tick moves
/// the cursor on by exactly one track and asks for that track; once it is
/// loaded the player is still `Playing`.
pub proof fn lemma_tick_moves_on(v: AppView)
    requires
        v.wf(),
        v.player.state == PlaybackState::Playing,
    ensures
        v.on_tick(true).playlist == v.playlist.advance(),
        v.on_tick(true).selected == v.playlist.advance().cursor,
        v.tick_effect(true) == Effect::Load(v.playlist.advance().cursor as usize),
        v.on_tick(true).load_finished(LoadOutcome::Loaded).player.state == PlaybackState::Playing,
        v.on_tick(true).load_finished(LoadOutcome::Loaded).playlist == v.playlist.advance(),
{
}

/// A tick changes nothing while the sink still has audio, and nothing while
/// the player is not `Playing`, whatever the sink reports.
pub proof fn lemma_tick_holds(v: AppView, sink_empty: bool)
    requires
        !sink_empty || v.player.state != PlaybackState::Playing,
    ensures
        v.on_tick(sink_empty) == v,
        v.tick_effect(sink_empty) == Effect::Idle,
{
}

/// The session: the playlist, the player, the screen that is shown and the
/// row selected in the list.
#[derive(Debug)]
pub struct App {
    playlist: Playlist,
    player: AudioPlayer,
    mode: AppMode,
    selected: usize,
}

impl View for App {
    type V = AppView;

    closed spec fn view(&self) -> AppView {
        AppView {
            playlist: self.playlist@,
            player: self.player@,
            mode: self.mode,
            selected: self.selected as int,
        }
    }
}

impl App {
    /// Starts a session on the player screen with the first row selected.
    pub fn new(playlist: Playlist, player: AudioPlayer) -> (app: App)
        ensures
            app@ == (AppView {
                playlist: playlist@,
                player: player@,
                mode: AppMode::Player,
                selected: 0,
            }),
    {
        App { playlist, player, mode: AppMode::Player, selected: 0 }
    }

    /// The timer tick. `sink_empty` is what the sink reports: that it has no
    /// audio left, queued or sounding.
    pub fn on_tick(&mut self, sink_empty: bool) -> (effect: Effect)
        ensures
            final(self)@ == old(self)@.on_tick(sink_empty),
            effect == old(self)@.tick_effect(sink_empty),
    {
        if self.player.get_state() == PlaybackState::Playing && sink_empty {
            self.next_track()
        } else {
            Effect::Idle
        }
    }

    /// Moves to the next track and asks for it to be loaded.
    pub fn next_track(&mut self) -> (effect: Effect)
        ensures
            final(self)@ == old(self)@.next_track(),
            effect == Effect::Load(old(self)@.next_track().playlist.cursor as usize),
    {
        self.playlist.next();
        self.selected = self.playlist.current_index();
        Effect::Load(self.selected)
    }

    /// Moves to the previous track and asks for it to be loaded.
    pub fn prev_track(&mut self) -> (effect: Effect)
        ensures
            final(self)@ == old(self)@.prev_track(),
            effect == Effect::Load(old(self)@.prev_track().playlist.cursor as usize),
    {
        self.playlist.prev();
        self.selected = self.playlist.current_index();
        Effect::Load(self.selected)
    }

    /// Puts the cursor on the selected row and asks for that track to be
    /// loaded.
    pub fn play_selected(&mut self) -> (effect: Effect)
        ensures
            final(self)@ == old(self)@.play_selected(),
            effect == old(self)@.effect_of(Command::PlaySelected),
    {
        match self.playlist.play_index(self.selected) {
            Some(_) => Effect::Load(self.selected),
            None => Effect::Idle,
        }
    }

    /// Plays the track with this number, counted from one; does nothing if
    /// there is no such track.
    pub fn play_number(&mut self, number: usize) -> (effect: Effect)
        ensures
            final(self)@ == old(self)@.play_number(number as int),
            effect == old(self)@.effect_of(Command::PlayNumber(number)),
    {
        if number == 0 {
            return Effect::Idle;
        }
        match self.playlist.play_index(number - 1) {
            Some(_) => {
                self.selected = number - 1;
                Effect::Load(number - 1)
            },
            None => Effect::Idle,
        }
    }

    /// Moves the selection one row up, from the first row to the last.
    pub fn scroll_up(&mut self)
        ensures
            final(self)@ == old(self)@.scroll_up(),
    {
        let len = self.playlist.len();
        self.selected = if self.selected == 0 {
            len - 1
        } else {
            self.selected - 1
        };
    }

    /// Moves the selection one row down, from the last row to the first.
    pub fn scroll_down(&mut self)
        ensures
            final(self)@ == old(self)@.scroll_down(),
    {
        let len = self.playlist.len();
        self.selected = if self.selected >= len - 1 {
            0
        } else {
            self.selected + 1
        };
    }

    /// Carries out a command.
    pub fn apply(&mut self, command: Command) -> (effect: Effect)
        ensures
            final(self)@ == old(self)@.apply(command),
            effect == old(self)@.effect_of(command),
    {
        match command {
            Command::Quit => Effect::Quit,
            Command::TogglePause => {
                self.player.toggle_pause();
                Effect::Idle
            },
            Command::NextTrack => self.next_track(),
            Command::PrevTrack => self.prev_track(),
            Command::VolumeUp => {
                self.player.volume_up();
                Effect::Idle
            },
            Command::VolumeDown => {
                self.player.volume_down();
                Effect::Idle
            },
            Command::ShowPlaylist => {
                self.mode = AppMode::Playlist;
                Effect::Idle
            },
            Command::ShowHelp => {
                self.mode = AppMode::Help;
                Effect::Idle
            },
            Command::ShowPlayer => {
                self.mode = AppMode::Player;
                Effect::Idle
            },
            Command::PlayNumber(number) => self.play_number(number),
            Command::ScrollUp => {
                self.scroll_up();
                Effect::Idle
            },
            Command::ScrollDown => {
                self.scroll_down();
                Effect::Idle
            },
            Command::PlaySelected => {
                let effect = self.play_selected();
                self.mode = AppMode::Player;
                effect
            },
            Command::Nothing => Effect::Idle,
        }
    }

    /// Handles one key press: reads it by the screen that is shown, and
    /// carries out what it asks for.
    pub fn handle_key(&mut self, key: Key) -> (effect: Effect)
        ensures
            final(self)@ == old(self)@.apply(command_for(old(self)@.mode, key)),
            effect == old(self)@.effect_of(command_for(old(self)@.mode, key)),
    {
        let command = key_command(self.mode, key);
        self.apply(command)
    }

    /// Tells the player how the load that an [`Effect::Load`] asked for
    /// ended. The playlist and the screen are not touched, also where the
    /// load failed.
    pub fn load_finished(&mut self, outcome: LoadOutcome) -> (r: Result<(), PlayerError>)
        ensures
            final(self)@ == old(self)@.load_finished(outcome),
            match load_error(outcome) {
                Some(e) => r == Err::<(), PlayerError>(e),
                None => r is Ok,
            },
    {
        self.player.play_song(outcome)
    }

    /// Hands over the commands the player has issued for the sink.
    pub fn take_commands(&mut self) -> (commands: Vec<SinkCommand>)
        ensures
            commands@ == old(self)@.player.sent,
            final(self)@ == old(self)@.with_player(old(self)@.player.drained()),
    {
        self.player.take_commands()
    }

    /// The playlist.
    pub fn playlist(&self) -> (playlist: &Playlist)
        ensures
            playlist@ == self@.playlist,
    {
        &self.playlist
    }

    /// The player.
    pub fn player(&self) -> (player: &AudioPlayer)
        ensures
            player@ == self@.player,
    {
        &self.player
    }

    /// The screen that is shown.
    pub fn mode(&self) -> (mode: AppMode)
        ensures
            mode == self@.mode,
    {
        self.mode
    }

    /// The row that is selected in the list.
    pub fn selected(&self) -> (selected: usize)
        ensures
            selected == self@.selected,
    {
        self.selected
    }
}

} // verus!
