//! The player: what the listener asked for, how loud, and what the audio
//! sink is told to do about it.
//!
//! The player never touches the audio device. Each operation appends the
//! commands it has for the sink to a list that the caller takes away and
//! carries out, in order, on the one live sink.

use vstd::prelude::*;

verus! {

/// Full volume. Levels are whole hundredths of full volume.
pub const VOLUME_MAX: u32 = 100;

/// How far one press of a volume key moves the level.
pub const VOLUME_STEP: u32 = 10;

/// The level a new player starts with.
pub const DEFAULT_VOLUME: u32 = 50;

/// What the listener last asked for, as distinct from what is sounding.
#[derive(Debug, Clone, Copy, PartialEq, Eq, Structural)]
pub enum PlaybackState {
    Playing,
    Paused,
    Stopped,
}

/// One order to the audio sink.
#[derive(Debug, Clone, Copy, PartialEq, Eq, Structural)]
pub enum SinkCommand {
    /// Stop, and discard whatever is queued.
    Stop,
    /// Queue the track that was just decoded.
    Append,
    /// Set the output level, in hundredths of full volume.
    SetVolume(u32),
    /// Hold the output.
    Pause,
    /// Let the output run.
    Play,
}

/// How the attempt to open and decode a track ended.
#[derive(Debug, Clone, Copy, PartialEq, Eq, Structural)]
pub enum LoadOutcome {
    /// The track is open and decoded, ready to be queued.
    Loaded,
    /// The file could not be opened or read.
    OpenFailed,
    /// The file was read but is no audio the decoder knows.
    DecodeFailed,
}

/// What can go wrong in the player.
#[derive(Debug, Clone, Copy, PartialEq, Eq, Structural)]
pub enum PlayerError {
    /// No audio output could be opened.
    DeviceUnavailable,
    /// The track's file could not be opened or read.
    Io,
    /// The track's file could not be decoded.
    Decode,
}

/// The level nearest to `level` that the player can hold.
pub open spec fn clamp_volume(level: int) -> int {
    if level < 0 {
        0
    } else if level > VOLUME_MAX {
        VOLUME_MAX as int
    } else {
        level
    }
}

/// The transport state after one press of the pause key.
pub open spec fn toggled(state: PlaybackState) -> PlaybackState {
    match state {
        PlaybackState::Playing => PlaybackState::Paused,
        PlaybackState::Paused => PlaybackState::Playing,
        PlaybackState::Stopped => PlaybackState::Stopped,
    }
}

/// The error that a failed load is reported as; `None` for a load that
/// succeeded.
pub open spec fn load_error(outcome: LoadOutcome) -> Option<PlayerError> {
    match outcome {
        LoadOutcome::Loaded => None,
        LoadOutcome::OpenFailed => Some(PlayerError::Io),
        LoadOutcome::DecodeFailed => Some(PlayerError::Decode),
    }
}

/// A player as a mathematical value.
pub struct PlayerView {
    /// What the listener last asked for.
    pub state: PlaybackState,
    /// The stored level.
    pub volume: int,
    /// The commands issued to the sink and not yet taken away, oldest first.
    pub sent: Seq<SinkCommand>,
}

impl PlayerView {
    /// The stored level is within range.
    pub open spec fn wf(self) -> bool {
        0 <= self.volume <= VOLUME_MAX
    }

    /// The player with one more command issued.
    pub open spec fn send(self, command: SinkCommand) -> PlayerView {
        PlayerView { state: self.state, volume: self.volume, sent: self.sent.push(command) }
    }

    /// The player in another transport state.
    pub open spec fn with_state(self, state: PlaybackState) -> PlayerView {
        PlayerView { state, volume: self.volume, sent: self.sent }
    }

    /// A new player: nothing loaded, the default level, nothing issued.
    pub open spec fn initial() -> PlayerView {
        PlayerView {
            state: PlaybackState::Stopped,
            volume: DEFAULT_VOLUME as int,
            sent: Seq::empty(),
        }
    }

    /// After an attempt to play a track that ended in `outcome`. The sink is
    /// stopped and cleared either way. A loaded track is queued at the
    /// stored level and the player is `Playing`; after a failure the
    /// transport state and the level are what they were.
    pub open spec fn play_song(self, outcome: LoadOutcome) -> PlayerView {
        match outcome {
            LoadOutcome::Loaded => self.send(SinkCommand::Stop).send(SinkCommand::Append).send(
                SinkCommand::SetVolume(self.volume as u32),
            ).with_state(PlaybackState::Playing),
            _ => self.send(SinkCommand::Stop),
        }
    }

    /// After a request to pause: a playing player holds the sink and is
    /// `Paused`; any other is left as it is.
    pub open spec fn pause(self) -> PlayerView {
        if self.state == PlaybackState::Playing {
            self.send(SinkCommand::Pause).with_state(PlaybackState::Paused)
        } else {
            self
        }
    }

    /// After a request to resume: a paused player lets the sink run and is
    /// `Playing`; any other is left as it is.
    pub open spec fn resume(self) -> PlayerView {
        if self.state == PlaybackState::Paused {
            self.send(SinkCommand::Play).with_state(PlaybackState::Playing)
        } else {
            self
        }
    }

    /// After one press of the pause key.
    pub open spec fn toggle_pause(self) -> PlayerView {
        match self.state {
            PlaybackState::Playing => self.pause(),
            PlaybackState::Paused => self.resume(),
            PlaybackState::Stopped => self,
        }
    }

    /// After a request for `level`: the nearest level in range is stored and
    /// sent to the sink, whatever the transport state.
    pub open spec fn set_volume(self, level: int) -> PlayerView {
        PlayerView {
            state: self.state,
            volume: clamp_volume(level),
            sent: self.sent.push(SinkCommand::SetVolume(clamp_volume(level) as u32)),
        }
    }

    /// After one press of the louder key.
    pub open spec fn volume_up(self) -> PlayerView {
        self.set_volume(self.volume + VOLUME_STEP)
    }

    /// After one press of the quieter key.
    pub open spec fn volume_down(self) -> PlayerView {
        self.set_volume(self.volume - VOLUME_STEP)
    }

    /// After a run of volume key presses, `true` for louder and `false` for
    /// quieter, in the order given.
    pub open spec fn volume_steps(self, louder: Seq<bool>) -> PlayerView
        decreases louder.len(),
    {
        if louder.len() == 0 {
            self
        } else if louder.last() {
            self.volume_steps(louder.drop_last()).volume_up()
        } else {
            self.volume_steps(louder.drop_last()).volume_down()
        }
    }

    /// With the issued commands taken away.
    pub open spec fn drained(self) -> PlayerView {
        PlayerView { state: self.state, volume: self.volume, sent: Seq::empty() }
    }
}

/// A requested level, however large or small, is stored as a level in range.
pub proof fn lemma_set_volume_in_range(v: PlayerView, level: int)
    ensures
        0 <= clamp_volume(level) <= VOLUME_MAX,
        v.set_volume(level).wf(),
        v.set_volume(level).volume == clamp_volume(level),
        0 <= level <= VOLUME_MAX ==> v.set_volume(level).volume == level,
{
}

/// However often the volume keys are pressed, the stored level stays in
/// range; the transport state is not touched.
pub proof fn lemma_volume_steps_in_range(v: PlayerView, louder: Seq<bool>)
    requires
        v.wf(),
    ensures
        v.volume_steps(louder).wf(),
        v.volume_steps(louder).state == v.state,
    decreases louder.len(),
{
    if louder.len() > 0 {
        lemma_volume_steps_in_range(v, louder.drop_last());
    }
}

/// Pressing the pause key twice restores the transport state, and leaves
/// the level alone.
pub proof fn lemma_toggle_twice(v: PlayerView)
    ensures
        v.toggle_pause().state == toggled(v.state),
        v.toggle_pause().toggle_pause().state == v.state,
        v.toggle_pause().toggle_pause().volume == v.volume,
{
}

/// Once a track has been loaded the player is never `Stopped` again, and no
/// operation puts a player into `Stopped`.
pub proof fn lemma_never_stopped_again(v: PlayerView, outcome: LoadOutcome, level: int)
    ensures
        v.play_song(LoadOutcome::Loaded).state == PlaybackState::Playing,
        v.state != PlaybackState::Stopped ==> {
            &&& v.play_song(outcome).state != PlaybackState::Stopped
            &&& v.pause().state != PlaybackState::Stopped
            &&& v.resume().state != PlaybackState::Stopped
            &&& v.toggle_pause().state != PlaybackState::Stopped
            &&& v.set_volume(level).state != PlaybackState::Stopped
            &&& v.volume_up().state != PlaybackState::Stopped
            &&& v.volume_down().state != PlaybackState::Stopped
        },
{
}

/// Before the first track, pausing, resuming and the pause key do nothing
/// at all.
pub proof fn lemma_stopped_ignores_transport(v: PlayerView)
    requires
        v.state == PlaybackState::Stopped,
    ensures
        v.pause() == v,
        v.resume() == v,
        v.toggle_pause() == v,
{
}

/// A failed load leaves the transport state and the level as they were.
pub proof fn lemma_failed_load_keeps_state(v: PlayerView, outcome: LoadOutcome)
    requires
        outcome != LoadOutcome::Loaded,
    ensures
        v.play_song(outcome).state == v.state,
        v.play_song(outcome).volume == v.volume,
        load_error(outcome) is Some,
{
}

/// A volume level that is known to be in range.
#[derive(Debug, Clone, Copy)]
pub struct Volume {
    level: u32,
}

impl View for Volume {
    type V = int;

    closed spec fn view(&self) -> int {
        self.level as int
    }
}

impl Volume {
    /// What holds of every volume: it is no more than full volume.
    #[verifier::type_invariant]
    pub open spec fn inv(&self) -> bool {
        0 <= self@ <= VOLUME_MAX
    }

    /// The level in range nearest to `level`.
    pub fn clamped(level: i64) -> (volume: Volume)
        ensures
            volume@ == clamp_volume(level as int),
    {
        if level < 0 {
            Volume { level: 0 }
        } else if level > VOLUME_MAX as i64 {
            Volume { level: VOLUME_MAX }
        } else {
            Volume { level: level as u32 }
        }
    }

    /// The level, in hundredths of full volume.
    pub fn level(&self) -> (level: u32)
        ensures
            level == self@,
            level <= VOLUME_MAX,
    {
        proof {
            use_type_invariant(self);
        }
        self.level
    }
}

/// The player's own state. The sink itself belongs to the caller, who
/// carries out the commands that the player issues.
#[derive(Debug)]
pub struct AudioPlayer {
    state: PlaybackState,
    volume: Volume,
    pending: Vec<SinkCommand>,
}

impl View for AudioPlayer {
    type V = PlayerView;

    closed spec fn view(&self) -> PlayerView {
        PlayerView { state: self.state, volume: self.volume@, sent: self.pending@ }
    }
}

impl AudioPlayer {

    /// Makes the player once the audio output has been tried: `Stopped`, at
    /// the default level, with nothing issued. Fails with
    /// `DeviceUnavailable` exactly when the output could not be opened.
    pub fn new(output_opened: bool) -> (r: Result<AudioPlayer, PlayerError>)
        ensures
            output_opened ==> (r matches Ok(player) && player@ == PlayerView::initial()),
            !output_opened ==> r == Err::<AudioPlayer, PlayerError>(PlayerError::DeviceUnavailable),
    {
        if output_opened {
            Ok(
                AudioPlayer {
                    state: PlaybackState::Stopped,
                    volume: Volume::clamped(DEFAULT_VOLUME as i64),
                    pending: Vec::new(),
                },
            )
        } else {
            Err(PlayerError::DeviceUnavailable)
        }
    }

    /// Replaces what is playing by the track whose loading ended in
    /// `outcome`, and reports a failed load as the matching error.
    pub fn play_song(&mut self, outcome: LoadOutcome) -> (r: Result<(), PlayerError>)
        ensures
            final(self)@ == old(self)@.play_song(outcome),
            match load_error(outcome) {
                Some(e) => r == Err::<(), PlayerError>(e),
                None => r is Ok,
            },
    {
        self.pending.push(SinkCommand::Stop);
        match outcome {
            LoadOutcome::Loaded => {
                self.pending.push(SinkCommand::Append);
                self.pending.push(SinkCommand::SetVolume(self.volume.level()));
                self.state = PlaybackState::Playing;
                Ok(())
            },
            LoadOutcome::OpenFailed => Err(PlayerError::Io),
            LoadOutcome::DecodeFailed => Err(PlayerError::Decode),
        }
    }

    /// Pauses a playing player; does nothing to any other.
    pub fn pause(&mut self)
        ensures
            final(self)@ == old(self)@.pause(),
    {
        if self.state == PlaybackState::Playing {
            self.pending.push(SinkCommand::Pause);
            self.state = PlaybackState::Paused;
        }
    }

    /// Resumes a paused player; does nothing to any other.
    pub fn resume(&mut self)
        ensures
            final(self)@ == old(self)@.resume(),
    {
        if self.state == PlaybackState::Paused {
            self.pending.push(SinkCommand::Play);
            self.state = PlaybackState::Playing;
        }
    }

    /// Pauses a playing player, resumes a paused one, and does nothing
    /// before the first track.
    pub fn toggle_pause(&mut self)
        ensures
            final(self)@ == old(self)@.toggle_pause(),
    {
        match self.state {
            PlaybackState::Playing => self.pause(),
            PlaybackState::Paused => self.resume(),
            PlaybackState::Stopped => {},
        }
    }

    /// Stores the level in range nearest to `level` and sends it to the
    /// sink.
    pub fn set_volume(&mut self, level: i64)
        ensures
            final(self)@ == old(self)@.set_volume(level as int),
    {
        self.volume = Volume::clamped(level);
        self.pending.push(SinkCommand::SetVolume(self.volume.level()));
    }

    /// The stored level, in hundredths of full volume.
    pub fn get_volume(&self) -> (level: u32)
        ensures
            level == self@.volume,
            level <= VOLUME_MAX,
    {
        self.volume.level()
    }

    /// One step louder, no further than full volume.
    pub fn volume_up(&mut self)
        ensures
            final(self)@ == old(self)@.volume_up(),
    {
        let level = self.volume.level() as i64 + VOLUME_STEP as i64;
        self.set_volume(level);
    }

    /// One step quieter, no further than silence.
    pub fn volume_down(&mut self)
        ensures
            final(self)@ == old(self)@.volume_down(),
    {
        let level = self.volume.level() as i64 - VOLUME_STEP as i64;
        self.set_volume(level);
    }

    /// What the listener last asked for.
    pub fn get_state(&self) -> (state: PlaybackState)
        ensures
            state == self@.state,
    {
        self.state
    }

    /// Hands over the commands issued since the last call, oldest first,
    /// for the caller to carry out on the sink.
    pub fn take_commands(&mut self) -> (commands: Vec<SinkCommand>)
        ensures
            commands@ == old(self)@.sent,
            final(self)@ == old(self)@.drained(),
    {
        let mut commands: Vec<SinkCommand> = Vec::new();
        commands.append(&mut self.pending);
        commands
    }
}

} // verus!
