//! The player: a clock and two presentation buffers, ticked together.

use crate::buffer::{
    lemma_release_keeps_order, BufferModel, Frame, PresentationBuffer, LOOKAHEAD_CAPACITY,
};
use crate::clock::{lemma_advance_keeps_time, ClockModel, PlaybackClock};
use crate::command::Command;
use crate::pipeline::{MPlayerCore, StreamInfo};
use crate::rational::Rational;
use crate::utils::{calculate_wait_from_rational, TimeScale};
use vstd::prelude::*;

verus! {

/// The tick frequency a player starts with.
pub const DEFAULT_FREQUENCY: u32 = 10000;

/// Why the player could not be set up or could not go on.
#[derive(Debug, Clone, Copy, PartialEq, Eq, Structural)]
pub enum MPlayerError {
    WindowCreationFailed,
    DecoderInitFailed,
    DecoderOpenFailed,
    TextureCreationFailed,
    CanvasError,
    EventPumpError,
    MediaInfoUnavailable,
    SDLInitError,
    UnknownError,
}

/// The steps in which the presentation side is set up, in their order.
#[derive(Debug, Clone, Copy, PartialEq, Eq, Structural)]
pub enum SetupStage {
    /// Starting the presentation library.
    Library,
    /// Starting its video part.
    Video,
    /// Opening the window.
    Window,
    /// Getting hold of the window's events.
    EventPump,
    /// Making the texture that pictures are drawn into.
    Texture,
}

/// The error that a failure of `stage` is reported as.
pub open spec fn setup_error(stage: SetupStage) -> MPlayerError {
    match stage {
        SetupStage::Library => MPlayerError::WindowCreationFailed,
        SetupStage::Video => MPlayerError::SDLInitError,
        SetupStage::Window => MPlayerError::WindowCreationFailed,
        SetupStage::EventPump => MPlayerError::EventPumpError,
        SetupStage::Texture => MPlayerError::TextureCreationFailed,
    }
}

/// What the player asks of its surroundings after a command.
#[derive(Debug, Clone, PartialEq, Eq)]
pub enum PlayerAction {
    /// Nothing.
    Idle,
    /// Leave the process.
    Exit,
    /// Open the medium at this path and start playing it.
    Open(String),
}

/// What one tick hands out: what the command asks for, the frame of each
/// stream that has fallen due, if one has, and whether the surface is to be
/// cleared and held blank.
#[derive(Debug, Clone, PartialEq, Eq)]
pub struct TickOutput<V, A> {
    pub action: PlayerAction,
    pub video: Option<Frame<V>>,
    pub audio: Option<Frame<A>>,
    pub blank: bool,
}

/// The mathematical state of the player.
pub struct PlayerModel<V, A> {
    pub should_exit: bool,
    pub clock: ClockModel,
    pub video: Option<BufferModel<V>>,
    pub audio: Option<BufferModel<A>>,
    /// The video worker's queue is closed: no video frame will come any more.
    pub video_ended: bool,
    /// The audio worker's queue is closed: no audio frame will come any more.
    pub audio_ended: bool,
}

/// What one stream's share of a tick leaves behind and hands out.
pub struct StreamOutcome<T> {
    pub buffer: Option<BufferModel<T>>,
    pub clock: ClockModel,
    pub released: Option<Frame<T>>,
}

/// One stream's share of a tick. A stream that is not being decoded is left
/// alone. A stream without a buffer gets an empty one, in the stream's time
/// base, if that has a positive denominator. A stream with a buffer has the
/// release decision taken on it.
pub open spec fn stream_step<T>(
    buffer: Option<BufferModel<T>>,
    info: Option<StreamInfo>,
    clock: ClockModel,
) -> StreamOutcome<T> {
    if info is None {
        StreamOutcome { buffer, clock, released: None }
    } else if buffer is None {
        StreamOutcome {
            buffer: if info->0.time_base.1 > 0 {
                Some(
                    BufferModel {
                        frames: Seq::empty(),
                        capacity: LOOKAHEAD_CAPACITY as nat,
                        time_base: info->0.time_base,
                    },
                )
            } else {
                None
            },
            clock,
            released: None,
        }
    } else {
        let outcome = buffer->0.release(clock);
        StreamOutcome {
            buffer: Some(BufferModel { frames: outcome.frames, ..buffer->0 }),
            clock: outcome.clock,
            released: outcome.released,
        }
    }
}

/// What one tick leaves behind and hands out.
pub struct TickOutcome<V, A> {
    pub player: PlayerModel<V, A>,
    pub video: Option<Frame<V>>,
    pub audio: Option<Frame<A>>,
    pub blank: bool,
}

/// Whether a stream has come to its end for the player: its worker's queue
/// is closed and no frame of it waits any more.
pub open spec fn exhausted<T>(ended: bool, buffer: Option<BufferModel<T>>) -> bool {
    ended && (buffer is None || buffer->0.frames.len() == 0)
}

impl<V, A> PlayerModel<V, A> {
    pub open spec fn wf(self) -> bool {
        &&& self.clock.wf()
        &&& self.clock.ticks <= u64::MAX
        &&& self.clock.frequency <= u32::MAX
        &&& self.clock.last is Some ==> self.clock.last->0 <= u64::MAX
        &&& self.video is Some ==> self.video->0.wf()
        &&& self.audio is Some ==> self.audio->0.wf()
    }

    /// The player after a command that it took in at the instant `now_ns`:
    /// a shutdown marks it as leaving; the order to play a medium rids it of
    /// all that belongs to the medium before, and has the clock count wall
    /// time from that instant; every other command leaves it as it is.
    pub open spec fn after_command(self, command: Command, now_ns: nat) -> PlayerModel<V, A> {
        match command {
            Command::Shutdown => PlayerModel { should_exit: true, ..self },
            Command::Play(_) => PlayerModel {
                clock: ClockModel { last: Some(now_ns), ..self.clock },
                video: None,
                audio: None,
                video_ended: false,
                audio_ended: false,
                ..self
            },
            _ => self,
        }
    }

    /// The surface is blank while no medium is open, while the medium that
    /// is open has no video stream, and once the video stream has come to
    /// its end.
    pub open spec fn blank(self, core: MPlayerCore) -> bool {
        !core.has_media || core.video is None || exhausted(self.video_ended, self.video)
    }

    /// One tick, at the instant `now_ns`: while a medium is open the clock
    /// is observed; then the video stream takes its share, then the audio
    /// stream, each against the clock as it then stands.
    pub open spec fn tick(self, core: MPlayerCore, now_ns: nat) -> TickOutcome<V, A> {
        let observed = if core.has_media {
            self.clock.observe(now_ns).saturated()
        } else {
            self.clock
        };
        let video = stream_step(self.video, core.video, observed);
        let audio = stream_step(self.audio, core.audio, video.clock);
        let player = PlayerModel {
            should_exit: self.should_exit,
            clock: audio.clock,
            video: video.buffer,
            audio: audio.buffer,
            video_ended: self.video_ended,
            audio_ended: self.audio_ended,
        };
        TickOutcome {
            player,
            video: video.released,
            audio: audio.released,
            blank: player.blank(core),
        }
    }
}

/// What the player asks for after `command`.
pub open spec fn action_of(command: Command) -> PlayerAction {
    match command {
        Command::Shutdown => PlayerAction::Exit,
        Command::Play(path) => PlayerAction::Open(path),
        _ => PlayerAction::Idle,
    }
}

/// The mathematical state of a buffer that may not be there.
pub open spec fn model_of<T>(buffer: Option<PresentationBuffer<T>>) -> Option<BufferModel<T>> {
    match buffer {
        Some(buffer) => Some(buffer.model()),
        None => None,
    }
}

/// The player's side of the pipeline: the clock, and for each stream a
/// buffer of decoded frames that wait for the clock to reach them.
pub struct MPlayer<V, A> {
    pub should_exit: bool,
    clock: PlaybackClock,
    internal_buff_v: Option<PresentationBuffer<V>>,
    internal_buff_a: Option<PresentationBuffer<A>>,
    video_ended: bool,
    audio_ended: bool,
}

impl<V, A> View for MPlayer<V, A> {
    type V = PlayerModel<V, A>;

    closed spec fn view(&self) -> PlayerModel<V, A> {
        PlayerModel {
            should_exit: self.should_exit,
            clock: self.clock@,
            video: model_of(self.internal_buff_v),
            audio: model_of(self.internal_buff_a),
            video_ended: self.video_ended,
            audio_ended: self.audio_ended,
        }
    }
}

/// Takes one stream's share of a tick: see [`stream_step`].
fn step_stream<T>(
    buffer: &mut Option<PresentationBuffer<T>>,
    info: Option<StreamInfo>,
    clock: &mut PlaybackClock,
) -> (released: Option<Frame<T>>)
    requires
        old(clock).wf(),
        *old(buffer) is Some ==> old(buffer)->0.wf(),
    ensures
        final(clock).wf(),
        *final(buffer) is Some ==> final(buffer)->0.wf(),
        (StreamOutcome { buffer: model_of(*final(buffer)), clock: final(clock)@, released })
            == stream_step(model_of(*old(buffer)), info, old(clock)@),
{
    let info = match info {
        Some(info) => info,
        None => {
            return None;
        },
    };
    match buffer {
        Some(present) => {
            let released = present.release_due(clock);
            released
        },
        None => {
            if info.time_base.1 > 0 {
                *buffer = Some(PresentationBuffer::new(LOOKAHEAD_CAPACITY, info.time_base));
            }
            None
        },
    }
}

impl<V, A> MPlayer<V, A> {
    pub open spec fn wf(&self) -> bool {
        self@.wf()
    }

    /// Sets the player up, given the step at which setting up the
    /// presentation side failed, or `None` where every step succeeded. A
    /// failure is reported as its step's error. The player starts at zero
    /// on a clock of [`DEFAULT_FREQUENCY`] ticks per second, with no buffer.
    pub fn setup(failed: Option<SetupStage>) -> (player: Result<MPlayer<V, A>, MPlayerError>)
        ensures
            match failed {
                Some(stage) => player == Err::<MPlayer<V, A>, MPlayerError>(setup_error(stage)),
                None => player is Ok && player->Ok_0.wf() && player->Ok_0@ == (PlayerModel::<
                    V,
                    A,
                > {
                    should_exit: false,
                    clock: ClockModel {
                        ticks: 0,
                        carry: 0,
                        frequency: DEFAULT_FREQUENCY as nat,
                        last: None,
                    },
                    video: None,
                    audio: None,
                    video_ended: false,
                    audio_ended: false,
                }),
            },
    {
        match failed {
            Some(SetupStage::Library) => Err(MPlayerError::WindowCreationFailed),
            Some(SetupStage::Video) => Err(MPlayerError::SDLInitError),
            Some(SetupStage::Window) => Err(MPlayerError::WindowCreationFailed),
            Some(SetupStage::EventPump) => Err(MPlayerError::EventPumpError),
            Some(SetupStage::Texture) => Err(MPlayerError::TextureCreationFailed),
            None => Ok(
                MPlayer {
                    should_exit: false,
                    clock: PlaybackClock::new(DEFAULT_FREQUENCY),
                    internal_buff_v: None,
                    internal_buff_a: None,
                    video_ended: false,
                    audio_ended: false,
                },
            ),
        }
    }

    /// The clock's reading, in ticks.
    pub fn clock(&self) -> (ticks: u64)
        ensures
            ticks == self@.clock.ticks,
    {
        self.clock.now()
    }

    /// Ticks per second.
    pub fn player_frequency(&self) -> (frequency: u32)
        ensures
            frequency == self@.clock.frequency,
    {
        self.clock.tick_frequency()
    }

    /// The number of video frames that wait, if there is a video buffer.
    pub fn buffered_video(&self) -> (count: Option<usize>)
        ensures
            count == match self@.video {
                Some(buffer) => Some(buffer.frames.len() as usize),
                None => None,
            },
    {
        match &self.internal_buff_v {
            Some(buffer) => Some(buffer.len()),
            None => None,
        }
    }

    /// The number of audio frames that wait, if there is an audio buffer.
    pub fn buffered_audio(&self) -> (count: Option<usize>)
        ensures
            count == match self@.audio {
                Some(buffer) => Some(buffer.frames.len() as usize),
                None => None,
            },
    {
        match &self.internal_buff_a {
            Some(buffer) => Some(buffer.len()),
            None => None,
        }
    }

    /// Tells whether a frame should be taken from the video worker, if it
    /// has one ready: the worker's queue is not known to be closed, and the
    /// video buffer is there and has room.
    pub fn wants_video(&self) -> (wanted: bool)
        ensures
            wanted == (!self@.video_ended && self@.video is Some && self@.video->0.frames.len()
                < self@.video->0.capacity),
    {
        if self.video_ended {
            return false;
        }
        match &self.internal_buff_v {
            Some(buffer) => buffer.wants_frame(),
            None => false,
        }
    }

    /// Tells whether a frame should be taken from the audio worker, as
    /// [`MPlayer::wants_video`] does for the video worker.
    pub fn wants_audio(&self) -> (wanted: bool)
        ensures
            wanted == (!self@.audio_ended && self@.audio is Some && self@.audio->0.frames.len()
                < self@.audio->0.capacity),
    {
        if self.audio_ended {
            return false;
        }
        match &self.internal_buff_a {
            Some(buffer) => buffer.wants_frame(),
            None => false,
        }
    }

    /// Takes in that the video worker's queue is closed. That is the end of
    /// the stream and no failure: the frames that wait are still shown.
    pub fn on_video_closed(&mut self)
        requires
            old(self).wf(),
        ensures
            final(self).wf(),
            final(self)@ == (PlayerModel { video_ended: true, ..old(self)@ }),
    {
        self.video_ended = true;
    }

    /// Takes in that the audio worker's queue is closed. That is the end of
    /// the stream and no failure: the frames that wait are still played.
    pub fn on_audio_closed(&mut self)
        requires
            old(self).wf(),
        ensures
            final(self).wf(),
            final(self)@ == (PlayerModel { audio_ended: true, ..old(self)@ }),
    {
        self.audio_ended = true;
    }

    /// Hands a decoded video frame to the player. It is appended to the
    /// video buffer where that is wanted, and comes back where it is not:
    /// no frame is dropped here.
    pub fn offer_video(&mut self, frame: Frame<V>) -> (refused: Option<Frame<V>>)
        requires
            old(self).wf(),
        ensures
            final(self).wf(),
            final(self)@ == (PlayerModel {
                video: match old(self)@.video {
                    Some(buffer) => Some(buffer.offer(frame)),
                    None => None,
                },
                ..old(self)@
            }),
            refused == if old(self)@.video is Some && old(self)@.video->0.frames.len() < old(
                self,
            )@.video->0.capacity {
                None
            } else {
                Some(frame)
            },
    {
        match &mut self.internal_buff_v {
            Some(buffer) => buffer.offer(frame),
            None => Some(frame),
        }
    }

    /// Hands a decoded audio frame to the player, as [`MPlayer::offer_video`]
    /// does a video frame.
    pub fn offer_audio(&mut self, frame: Frame<A>) -> (refused: Option<Frame<A>>)
        requires
            old(self).wf(),
        ensures
            final(self).wf(),
            final(self)@ == (PlayerModel {
                audio: match old(self)@.audio {
                    Some(buffer) => Some(buffer.offer(frame)),
                    None => None,
                },
                ..old(self)@
            }),
            refused == if old(self)@.audio is Some && old(self)@.audio->0.frames.len() < old(
                self,
            )@.audio->0.capacity {
                None
            } else {
                Some(frame)
            },
    {
        match &mut self.internal_buff_a {
            Some(buffer) => buffer.offer(frame),
            None => Some(frame),
        }
    }

    /// Takes in a command at the instant `now_ns`: see
    /// [`PlayerModel::after_command`] and [`action_of`].
    pub fn process_command(&mut self, command: Command, now_ns: u64) -> (action: PlayerAction)
        requires
            old(self).wf(),
        ensures
            final(self).wf(),
            final(self)@ == old(self)@.after_command(command, now_ns as nat),
            action == action_of(command),
    {
        match command {
            Command::Shutdown => {
                self.should_exit = true;
                PlayerAction::Exit
            },
            Command::Play(path) => {
                self.internal_buff_v = None;
                self.internal_buff_a = None;
                self.video_ended = false;
                self.audio_ended = false;
                self.clock.rebase(now_ns);
                PlayerAction::Open(path)
            },
            _ => PlayerAction::Idle,
        }
    }

    /// One tick of the player, at the instant `now_ns`, in nanoseconds of a
    /// wall time that does not run backwards: the command, if there is one,
    /// is taken in first; then the clock is observed and each stream's
    /// front frame is released if it is due, as [`PlayerModel::tick`] says.
    pub fn tick(&mut self, core: &MPlayerCore, cli_command: Option<Command>, now_ns: u64) -> (out:
        TickOutput<V, A>)
        requires
            old(self).wf(),
        ensures
            final(self).wf(),
            ({
                let commanded = match cli_command {
                    Some(command) => old(self)@.after_command(command, now_ns as nat),
                    None => old(self)@,
                };
                let outcome = commanded.tick(*core, now_ns as nat);
                &&& final(self)@ == outcome.player
                &&& out.video == outcome.video
                &&& out.audio == outcome.audio
                &&& out.blank == outcome.blank
                &&& out.action == match cli_command {
                    Some(command) => action_of(command),
                    None => PlayerAction::Idle,
                }
            }),
    {
        let action = match cli_command {
            Some(command) => self.process_command(command, now_ns),
            None => PlayerAction::Idle,
        };
        if core.has_media {
            self.clock.observe(now_ns);
        }
        let video = step_stream(&mut self.internal_buff_v, core.video, &mut self.clock);
        let audio = step_stream(&mut self.internal_buff_a, core.audio, &mut self.clock);
        let exhausted = self.video_ended && match &self.internal_buff_v {
            Some(buffer) => buffer.len() == 0,
            None => true,
        };
        let blank = !core.has_media || core.video.is_none() || exhausted;
        TickOutput { action, video, audio, blank }
    }

    /// Starts the player's pace at `tps` ticks per second: the clock counts
    /// at that frequency from now on, and the result is the time to wait
    /// between two ticks, in nanoseconds.
    pub fn go(&mut self, tps: i32) -> (wait_ns: u64)
        requires
            old(self).wf(),
            tps > 0,
        ensures
            final(self).wf(),
            final(self)@ == (PlayerModel {
                clock: ClockModel { carry: 0, frequency: tps as nat, ..old(self)@.clock },
                ..old(self)@
            }),
            wait_ns == 1_000_000_000int / (tps as int),
    {
        self.clock.set_frequency(tps as u32);
        calculate_wait_from_rational(Rational(1, tps), TimeScale::Nano)
    }
}

/// What reaches the player from one tick to the next: the decoded frame of
/// each stream that was offered to it, if one was, and the instant of the
/// tick.
pub struct TickInput<V, A> {
    pub video: Option<Frame<V>>,
    pub audio: Option<Frame<A>>,
    pub now_ns: nat,
}

/// What a run of ticks leaves behind and hands out, stream by stream, in
/// the order of release.
pub struct ReplayOutcome<V, A> {
    pub player: PlayerModel<V, A>,
    pub video: Seq<Frame<V>>,
    pub audio: Seq<Frame<A>>,
}

/// `frames` with `frame` in front, where there is one.
pub open spec fn preceded_by<T>(frame: Option<Frame<T>>, frames: Seq<Frame<T>>) -> Seq<Frame<T>> {
    match frame {
        Some(frame) => seq![frame] + frames,
        None => frames,
    }
}

impl<V, A> PlayerModel<V, A> {
    /// The player after the frames of `input` were offered to it.
    pub open spec fn offered(self, input: TickInput<V, A>) -> PlayerModel<V, A> {
        PlayerModel {
            video: match (self.video, input.video) {
                (Some(buffer), Some(frame)) => Some(buffer.offer(frame)),
                _ => self.video,
            },
            audio: match (self.audio, input.audio) {
                (Some(buffer), Some(frame)) => Some(buffer.offer(frame)),
                _ => self.audio,
            },
            ..self
        }
    }

    /// The run of the player over `trace`: before each tick the frames of
    /// the step are offered, then the tick is taken.
    pub open spec fn replay(self, core: MPlayerCore, trace: Seq<TickInput<V, A>>) -> ReplayOutcome<
        V,
        A,
    >
        decreases trace.len(),
    {
        if trace.len() == 0 {
            ReplayOutcome { player: self, video: Seq::empty(), audio: Seq::empty() }
        } else {
            let first = self.offered(trace[0]).tick(core, trace[0].now_ns);
            let rest = first.player.replay(core, trace.drop_first());
            ReplayOutcome {
                player: rest.player,
                video: preceded_by(first.video, rest.video),
                audio: preceded_by(first.audio, rest.audio),
            }
        }
    }
}

/// One tick keeps the player well formed.
pub proof fn lemma_tick_keeps_wf<V, A>(player: PlayerModel<V, A>, core: MPlayerCore, now_ns: nat)
    requires
        player.wf(),
        now_ns <= u64::MAX,
    ensures
        player.tick(core, now_ns).player.wf(),
{
    if player.clock.last is Some && player.clock.last->0 <= now_ns {
        lemma_advance_keeps_time(player.clock, (now_ns - player.clock.last->0) as nat);
    }
}

/// Release is the same on replay: two players in the same state that are
/// fed the same frames and the same clock readings release the same frames
/// in the same order, and end in the same state.
pub proof fn lemma_replay_is_determined<V, A>(
    first: PlayerModel<V, A>,
    second: PlayerModel<V, A>,
    core: MPlayerCore,
    first_trace: Seq<TickInput<V, A>>,
    second_trace: Seq<TickInput<V, A>>,
)
    requires
        first == second,
        first_trace.len() == second_trace.len(),
        forall|k: int| 0 <= k < first_trace.len() ==> first_trace[k] == second_trace[k],
    ensures
        first.replay(core, first_trace) == second.replay(core, second_trace),
{
    assert(first_trace =~= second_trace);
}

/// A run in two parts is the run of the whole: what a trace releases is what
/// its first part releases, followed by what the rest releases from where
/// the first part ended.
pub proof fn lemma_replay_splits<V, A>(
    player: PlayerModel<V, A>,
    core: MPlayerCore,
    head: Seq<TickInput<V, A>>,
    tail: Seq<TickInput<V, A>>,
)
    ensures
        ({
            let whole = player.replay(core, head + tail);
            let before = player.replay(core, head);
            let after = before.player.replay(core, tail);
            &&& whole.player == after.player
            &&& whole.video == before.video + after.video
            &&& whole.audio == before.audio + after.audio
        }),
    decreases head.len(),
{
    let before = player.replay(core, head);
    let after = before.player.replay(core, tail);
    if head.len() == 0 {
        assert(head + tail =~= tail);
        assert(before.video + after.video =~= after.video);
        assert(before.audio + after.audio =~= after.audio);
    } else {
        let first = player.offered(head[0]).tick(core, head[0].now_ns);
        assert((head + tail)[0] == head[0]);
        assert((head + tail).drop_first() =~= head.drop_first() + tail);
        lemma_replay_splits(first.player, core, head.drop_first(), tail);
        let rest = first.player.replay(core, head.drop_first());
        let rest_whole = first.player.replay(core, head.drop_first() + tail);
        assert(preceded_by(first.video, rest_whole.video) =~= preceded_by(first.video, rest.video)
            + after.video);
        assert(preceded_by(first.audio, rest_whole.audio) =~= preceded_by(first.audio, rest.audio)
            + after.audio);
    }
}

/// The frames that wait in a buffer that may not be there.
pub open spec fn waiting<T>(buffer: Option<BufferModel<T>>) -> Seq<Frame<T>> {
    match buffer {
        Some(buffer) => buffer.frames,
        None => Seq::empty(),
    }
}

/// The frame that a buffer takes in when `frame` is offered to it: the
/// frame, where there is one and the buffer is there and has room.
pub open spec fn taken_in<T>(buffer: Option<BufferModel<T>>, frame: Option<Frame<T>>) -> Seq<
    Frame<T>,
> {
    if buffer is Some && frame is Some && buffer->0.frames.len() < buffer->0.capacity {
        seq![frame->0]
    } else {
        Seq::empty()
    }
}

/// The frames that a run takes in, stream by stream, in the order in which
/// they were offered.
pub struct Accepted<V, A> {
    pub video: Seq<Frame<V>>,
    pub audio: Seq<Frame<A>>,
}

impl<V, A> PlayerModel<V, A> {
    /// The frames that the run of the player over `trace` takes in.
    pub open spec fn accepted(self, core: MPlayerCore, trace: Seq<TickInput<V, A>>) -> Accepted<
        V,
        A,
    >
        decreases trace.len(),
    {
        if trace.len() == 0 {
            Accepted { video: Seq::empty(), audio: Seq::empty() }
        } else {
            let first = self.offered(trace[0]).tick(core, trace[0].now_ns);
            let rest = first.player.accepted(core, trace.drop_first());
            Accepted {
                video: taken_in(self.video, trace[0].video) + rest.video,
                audio: taken_in(self.audio, trace[0].audio) + rest.audio,
            }
        }
    }
}

/// One stream's share of a tick drops nothing and reorders nothing.
proof fn lemma_stream_step_keeps_frames<T>(
    buffer: Option<BufferModel<T>>,
    info: Option<StreamInfo>,
    clock: ClockModel,
)
    ensures
        preceded_by(
            stream_step(buffer, info, clock).released,
            waiting(stream_step(buffer, info, clock).buffer),
        ) == waiting(buffer),
{
    if info is Some && buffer is Some {
        lemma_release_keeps_order(buffer->0.frames, buffer->0.time_base, clock);
    }
}

/// A run neither drops a frame nor reorders the frames of a stream: what it
/// releases, followed by what still waits at its end, is what waited at its
/// start, followed by what it took in.
pub proof fn lemma_replay_keeps_frames<V, A>(
    player: PlayerModel<V, A>,
    core: MPlayerCore,
    trace: Seq<TickInput<V, A>>,
)
    ensures
        player.replay(core, trace).video + waiting(player.replay(core, trace).player.video)
            == waiting(player.video) + player.accepted(core, trace).video,
        player.replay(core, trace).audio + waiting(player.replay(core, trace).player.audio)
            == waiting(player.audio) + player.accepted(core, trace).audio,
    decreases trace.len(),
{
    let out = player.replay(core, trace);
    let accepted = player.accepted(core, trace);
    if trace.len() == 0 {
        assert(out.video + waiting(player.video) =~= waiting(player.video) + accepted.video);
        assert(out.audio + waiting(player.audio) =~= waiting(player.audio) + accepted.audio);
    } else {
        let fed = player.offered(trace[0]);
        let first = fed.tick(core, trace[0].now_ns);
        let rest = first.player.replay(core, trace.drop_first());
        let rest_accepted = first.player.accepted(core, trace.drop_first());
        lemma_replay_keeps_frames(first.player, core, trace.drop_first());
        let observed = if core.has_media {
            fed.clock.observe(trace[0].now_ns).saturated()
        } else {
            fed.clock
        };
        let video = stream_step(fed.video, core.video, observed);
        lemma_stream_step_keeps_frames(fed.video, core.video, observed);
        lemma_stream_step_keeps_frames(fed.audio, core.audio, video.clock);
        assert(waiting(fed.video) =~= waiting(player.video) + taken_in(
            player.video,
            trace[0].video,
        ));
        assert(waiting(fed.audio) =~= waiting(player.audio) + taken_in(
            player.audio,
            trace[0].audio,
        ));
        assert(out.video + waiting(out.player.video) =~= preceded_by(
            first.video,
            waiting(first.player.video),
        ) + rest_accepted.video) by {
            let head = preceded_by(first.video, Seq::empty());
            assert(out.player == rest.player);
            assert(out.video =~= head + rest.video);
            assert(preceded_by(first.video, waiting(first.player.video)) =~= head + waiting(
                first.player.video,
            ));
            assert(rest.video + waiting(rest.player.video) == waiting(first.player.video)
                + rest_accepted.video);
            assert(out.video + waiting(out.player.video) =~= head + (rest.video + waiting(
                rest.player.video,
            )));
            assert(head + (waiting(first.player.video) + rest_accepted.video) =~= (head + waiting(
                first.player.video,
            )) + rest_accepted.video);
        }
        assert(out.audio + waiting(out.player.audio) =~= preceded_by(
            first.audio,
            waiting(first.player.audio),
        ) + rest_accepted.audio) by {
            let head = preceded_by(first.audio, Seq::empty());
            assert(out.player == rest.player);
            assert(out.audio =~= head + rest.audio);
            assert(preceded_by(first.audio, waiting(first.player.audio)) =~= head + waiting(
                first.player.audio,
            ));
            assert(rest.audio + waiting(rest.player.audio) == waiting(first.player.audio)
                + rest_accepted.audio);
            assert(out.audio + waiting(out.player.audio) =~= head + (rest.audio + waiting(
                rest.player.audio,
            )));
            assert(head + (waiting(first.player.audio) + rest_accepted.audio) =~= (head + waiting(
                first.player.audio,
            )) + rest_accepted.audio);
        }
        assert(waiting(player.video) + accepted.video =~= waiting(fed.video)
            + rest_accepted.video);
        assert(waiting(player.audio) + accepted.audio =~= waiting(fed.audio)
            + rest_accepted.audio);
    }
}

} // verus!
