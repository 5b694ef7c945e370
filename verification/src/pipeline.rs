//! The pipeline behind the player: the streams of an opened container, the
//! plan to decode them, and the loop that hands compressed units out.

use crate::audio::AudioSpec;
use crate::constants::ConvFormat;
use crate::decode::MDecodeError;
use crate::probe::{InputProbe, MediaKind, StreamProbe};
use crate::rational::Rational;
use crate::utils::{MDecodeOptions, MediaInfo, Range};
use vstd::prelude::*;

verus! {

/// How many decoded video frames a video worker may hold ready.
pub const VIDEO_QUEUE_CAPACITY: u16 = 24;

/// How many decoded audio frames an audio worker may hold ready.
pub const AUDIO_QUEUE_CAPACITY: u16 = 40;

/// How many compressed units may wait in front of one worker.
pub const INPUT_QUEUE_CAPACITY: usize = 1000;

/// A command to the dispatch loop.
#[derive(Debug, Clone, Copy, PartialEq, Eq, Structural)]
pub enum MediaThreadCommand {
    Play,
    Pause,
    Seek(i64),
    Exit,
}

/// The state of the dispatch loop. `Paused` and `Playing` carry the
/// position, `Seeking` the position left and the position sought.
#[derive(Debug, Clone, Copy, PartialEq, Eq, Structural)]
pub enum MediaThreadStatus {
    Paused(u32),
    Seeking(u32, u32),
    Playing(u32),
    Stopped,
}

/// A command to the part of the loop that hands units out.
#[derive(Debug, Clone, Copy, PartialEq, Eq, Structural)]
pub enum PacketDistributorCommand {
    Exit,
    MoveCursor(u32),
}

/// Names the elementary stream that a worker decodes, so that each
/// compressed unit finds its worker by its stream's index alone.
#[derive(Debug, Clone, Copy, PartialEq, Eq, Structural)]
pub struct PacketMarker {
    pub stream_index: usize,
    pub stream_id: i32,
}

/// The settings of one decode worker: the capacity of its queue of decoded
/// frames, and the time base its decoder falls back on.
#[derive(Debug, Clone, Copy, PartialEq, Eq, Structural)]
pub struct ThreadConfig {
    pub buffer_capacity: u16,
    pub time_base: Rational,
}

impl ThreadConfig {
    /// The settings of a worker that is given none.
    pub open spec fn default_config() -> ThreadConfig {
        ThreadConfig { buffer_capacity: 10, time_base: Rational(0, 1) }
    }
}

impl Default for ThreadConfig {
    fn default() -> (config: ThreadConfig)
        ensures
            config == ThreadConfig::default_config(),
    {
        ThreadConfig { buffer_capacity: 10, time_base: Rational(0, 1) }
    }
}

/// What travels to a worker: a compressed unit to decode, or the order to
/// stop.
#[derive(Debug, Clone, PartialEq, Eq)]
pub enum ThreadData<P> {
    Packet(P),
    Kill,
}

/// The description of one elementary stream, fixed when the container is
/// opened and handed to whoever consumes the stream's frames.
#[derive(Debug, Clone, Copy, PartialEq, Eq, Structural)]
pub struct StreamInfo {
    pub time_base: Rational,
    pub kind: MediaKind,
    pub fps: Option<Rational>,
    pub audio_spec: Option<AudioSpec>,
}

/// Which worker a compressed unit goes to.
#[derive(Debug, Clone, Copy, PartialEq, Eq, Structural)]
pub enum Route {
    Video,
    Audio,
    Discard,
}

/// What the dispatch loop does next.
#[derive(Debug, Clone, Copy, PartialEq, Eq, Structural)]
pub enum DispatchAction {
    /// Read the next unit from the container and hand it out.
    Dispatch,
    /// Read nothing; wait on the command channel for the next command.
    AwaitCommand,
    /// The command is not supported and changed nothing: what the loop does
    /// next is what it does when no command has come.
    Unsupported,
    /// Send the stop order to every worker, then end the loop.
    KillWorkers,
    /// The loop has ended already.
    Halt,
}

/// The worker for a unit of the stream `stream_index`: the video worker
/// where the video marker names that stream, else the audio worker where the
/// audio marker names it, else none.
pub open spec fn route_of(
    video: Option<PacketMarker>,
    audio: Option<PacketMarker>,
    stream_index: usize,
) -> Route {
    if video is Some && video->0.stream_index == stream_index {
        Route::Video
    } else if audio is Some && audio->0.stream_index == stream_index {
        Route::Audio
    } else {
        Route::Discard
    }
}

/// The state that a command leaves the loop in. Playing and pausing keep
/// the position; a seek changes nothing; an exit stops the loop; a stopped
/// loop stays stopped.
pub open spec fn status_after(
    status: MediaThreadStatus,
    command: MediaThreadCommand,
) -> MediaThreadStatus {
    match (status, command) {
        (MediaThreadStatus::Stopped, _) => MediaThreadStatus::Stopped,
        (_, MediaThreadCommand::Exit) => MediaThreadStatus::Stopped,
        (MediaThreadStatus::Paused(position), MediaThreadCommand::Play) => {
            MediaThreadStatus::Playing(position)
        },
        (MediaThreadStatus::Playing(position), MediaThreadCommand::Pause) => {
            MediaThreadStatus::Paused(position)
        },
        _ => status,
    }
}

/// What the loop does in `status`, reached by other means than a command.
pub open spec fn action_in(status: MediaThreadStatus) -> DispatchAction {
    match status {
        MediaThreadStatus::Playing(_) => DispatchAction::Dispatch,
        MediaThreadStatus::Paused(_) => DispatchAction::AwaitCommand,
        MediaThreadStatus::Seeking(_, _) => DispatchAction::Unsupported,
        MediaThreadStatus::Stopped => DispatchAction::Halt,
    }
}

/// What the loop does on `command`, received in `status`.
pub open spec fn action_on(
    status: MediaThreadStatus,
    command: MediaThreadCommand,
) -> DispatchAction {
    match (status, command) {
        (MediaThreadStatus::Stopped, _) => DispatchAction::Halt,
        (_, MediaThreadCommand::Exit) => DispatchAction::KillWorkers,
        (_, MediaThreadCommand::Seek(_)) => DispatchAction::Unsupported,
        _ => action_in(status_after(status, command)),
    }
}

/// The decisions of the loop that reads compressed units from the container
/// and hands each to the worker of its stream, between commands.
#[derive(Debug, Clone, Copy, PartialEq, Eq)]
pub struct Dispatcher {
    status: MediaThreadStatus,
    video_marker: Option<PacketMarker>,
    audio_marker: Option<PacketMarker>,
}

impl Dispatcher {
    pub closed spec fn state(&self) -> MediaThreadStatus {
        self.status
    }

    pub closed spec fn video(&self) -> Option<PacketMarker> {
        self.video_marker
    }

    pub closed spec fn audio(&self) -> Option<PacketMarker> {
        self.audio_marker
    }

    /// The loop is never found seeking: no command leads there.
    pub open spec fn wf(&self) -> bool {
        !(self.state() is Seeking)
    }

    /// The loop as it starts on a freshly opened container: playing from
    /// position `0`.
    pub fn new(video: Option<PacketMarker>, audio: Option<PacketMarker>) -> (dispatcher: Dispatcher)
        ensures
            dispatcher.wf(),
            dispatcher.state() == MediaThreadStatus::Playing(0),
            dispatcher.video() == video,
            dispatcher.audio() == audio,
    {
        Dispatcher {
            status: MediaThreadStatus::Playing(0),
            video_marker: video,
            audio_marker: audio,
        }
    }

    pub fn status(&self) -> (status: MediaThreadStatus)
        ensures
            status == self.state(),
    {
        self.status
    }

    pub fn video_marker(&self) -> (marker: Option<PacketMarker>)
        ensures
            marker == self.video(),
    {
        self.video_marker
    }

    pub fn audio_marker(&self) -> (marker: Option<PacketMarker>)
        ensures
            marker == self.audio(),
    {
        self.audio_marker
    }

    /// Takes in what the command channel held, `None` where it held
    /// nothing, and says what the loop does next.
    pub fn on_command(&mut self, command: Option<MediaThreadCommand>) -> (action: DispatchAction)
        requires
            old(self).wf(),
        ensures
            final(self).wf(),
            final(self).video() == old(self).video(),
            final(self).audio() == old(self).audio(),
            command is Some ==> final(self).state() == status_after(old(self).state(), command->0)
                && action == action_on(old(self).state(), command->0),
            command is None ==> final(self).state() == old(self).state() && action == action_in(
                old(self).state(),
            ),
    {
        match command {
            None => {},
            Some(command) => {
                match (self.status, command) {
                    (MediaThreadStatus::Stopped, _) => {
                        return DispatchAction::Halt;
                    },
                    (_, MediaThreadCommand::Exit) => {
                        self.status = MediaThreadStatus::Stopped;
                        return DispatchAction::KillWorkers;
                    },
                    (_, MediaThreadCommand::Seek(_)) => {
                        return DispatchAction::Unsupported;
                    },
                    (MediaThreadStatus::Paused(position), MediaThreadCommand::Play) => {
                        self.status = MediaThreadStatus::Playing(position);
                    },
                    (MediaThreadStatus::Playing(position), MediaThreadCommand::Pause) => {
                        self.status = MediaThreadStatus::Paused(position);
                    },
                    _ => {},
                }
            },
        }
        match self.status {
            MediaThreadStatus::Playing(_) => DispatchAction::Dispatch,
            MediaThreadStatus::Paused(_) => DispatchAction::AwaitCommand,
            MediaThreadStatus::Seeking(_, _) => DispatchAction::Unsupported,
            MediaThreadStatus::Stopped => DispatchAction::Halt,
        }
    }

    /// Takes in that the command channel is closed for good: a paused loop
    /// resumes, since nothing could resume it later.
    pub fn on_disconnect(&mut self) -> (action: DispatchAction)
        requires
            old(self).wf(),
        ensures
            final(self).wf(),
            final(self).video() == old(self).video(),
            final(self).audio() == old(self).audio(),
            final(self).state() == status_after(old(self).state(), MediaThreadCommand::Play),
            action == action_in(final(self).state()),
    {
        match self.status {
            MediaThreadStatus::Paused(position) => {
                self.status = MediaThreadStatus::Playing(position);
                DispatchAction::Dispatch
            },
            MediaThreadStatus::Playing(_) => DispatchAction::Dispatch,
            MediaThreadStatus::Seeking(_, _) => DispatchAction::Unsupported,
            MediaThreadStatus::Stopped => DispatchAction::Halt,
        }
    }

    /// Takes in that the container has no more units: the loop stops. The
    /// workers are sent no stop order and decode what they were handed.
    pub fn on_end_of_stream(&mut self) -> (action: DispatchAction)
        requires
            old(self).wf(),
        ensures
            final(self).wf(),
            final(self).video() == old(self).video(),
            final(self).audio() == old(self).audio(),
            final(self).state() == MediaThreadStatus::Stopped,
            action == DispatchAction::Halt,
    {
        self.status = MediaThreadStatus::Stopped;
        DispatchAction::Halt
    }

    /// Picks the worker for a unit of the stream `stream_index`: a unit goes
    /// to a worker only if the worker's marker names the unit's stream.
    pub fn route(&self, stream_index: usize) -> (route: Route)
        ensures
            route == route_of(self.video(), self.audio(), stream_index),
    {
        if let Some(marker) = self.video_marker {
            if marker.stream_index == stream_index {
                return Route::Video;
            }
        }
        if let Some(marker) = self.audio_marker {
            if marker.stream_index == stream_index {
                return Route::Audio;
            }
        }
        Route::Discard
    }
}

/// What it takes to start the worker of one stream.
#[derive(Debug, Clone, Copy, PartialEq, Eq, Structural)]
pub struct WorkerPlan {
    pub marker: PacketMarker,
    pub config: ThreadConfig,
    pub stream_info: StreamInfo,
}

/// What it takes to play an opened container: the workers to start, the
/// options they decode with, and the loop that feeds them.
#[derive(Debug, Clone, Copy, PartialEq, Eq)]
pub struct OpenPlan {
    pub video: Option<WorkerPlan>,
    pub audio: Option<WorkerPlan>,
    pub options: MDecodeOptions,
    pub dispatcher: Dispatcher,
}

/// The plan for the worker of `stream`, with a queue of `capacity` decoded
/// frames: it is marked by the stream's index, and falls back on the
/// stream's time base.
pub open spec fn worker_plan_of(stream: StreamProbe, capacity: u16) -> WorkerPlan {
    WorkerPlan {
        marker: PacketMarker { stream_index: stream.index, stream_id: stream.id },
        config: ThreadConfig { buffer_capacity: capacity, time_base: stream.time_base },
        stream_info: ConvFormat::<StreamInfo>::converted(&stream),
    }
}

/// Why `input` cannot be played, if it cannot: the resource was not opened;
/// or it holds neither a video nor an audio stream; or one of the streams it
/// holds has no decoder.
pub open spec fn open_error(input: Option<InputProbe>) -> Option<MDecodeError> {
    if input is None {
        Some(MDecodeError::FileNotFound)
    } else if input->0.video is None && input->0.audio is None {
        Some(MDecodeError::VideoStreamNotFound)
    } else if input->0.video is Some && input->0.video->0.video_decoder() is None {
        Some(MDecodeError::ContextCantBeInitialized)
    } else if input->0.audio is Some && input->0.audio->0.audio_decoder() is None {
        Some(MDecodeError::ContextCantBeInitialized)
    } else {
        None
    }
}

/// The state that the player and the dispatch loop share: which streams are
/// being decoded, and with what settings.
#[derive(Debug, Clone, Copy, PartialEq, Eq)]
pub struct MPlayerCore {
    pub look_range: Range,
    pub video: Option<StreamInfo>,
    pub audio: Option<StreamInfo>,
    pub config: MDecodeOptions,
    pub media_info: Option<MediaInfo>,
    pub has_media: bool,
}

impl MPlayerCore {
    /// A core with no medium open. Without `config` it runs with
    /// [`MDecodeOptions::player_options`].
    pub fn new(config: Option<MDecodeOptions>) -> (core: MPlayerCore)
        ensures
            core.video is None,
            core.audio is None,
            core.media_info is None,
            !core.has_media,
            core.look_range == (Range { min: 10, max: 50 }),
            core.config == match config {
                Some(config) => config,
                None => MDecodeOptions::player_options(),
            },
    {
        MPlayerCore {
            video: None,
            audio: None,
            config: match config {
                Some(config) => config,
                None => MDecodeOptions::opts(),
            },
            media_info: None,
            has_media: false,
            look_range: Range::new(10, 50),
        }
    }

    /// Forgets the streams of the medium that was open, if one was: nothing
    /// is being decoded any more.
    pub fn close_media(&mut self)
        ensures
            final(self).video is None,
            final(self).audio is None,
            !final(self).has_media,
            final(self).look_range == old(self).look_range,
            final(self).config == old(self).config,
            final(self).media_info == old(self).media_info,
    {
        self.video = None;
        self.audio = None;
        self.has_media = false;
    }

    /// Decides how to play a container, given what opening it brought:
    /// `None` where it could not be opened, its best streams otherwise.
    ///
    /// Whatever was open before is forgotten first. On success the core
    /// holds the description of each stream found, and the plan names a
    /// worker for each: the video worker with a queue of
    /// [`VIDEO_QUEUE_CAPACITY`] frames, the audio worker with one of
    /// [`AUDIO_QUEUE_CAPACITY`]. On failure the core holds no stream, and
    /// nothing is to be started.
    pub fn open_media(
        &mut self,
        input: Option<InputProbe>,
        decode_options: Option<MDecodeOptions>,
    ) -> (plan: Result<OpenPlan, MDecodeError>)
        ensures
            final(self).look_range == old(self).look_range,
            final(self).config == old(self).config,
            final(self).media_info == old(self).media_info,
            plan is Err <==> open_error(input) is Some,
            plan is Err ==> {
                &&& Some(plan->Err_0) == open_error(input)
                &&& final(self).video is None
                &&& final(self).audio is None
                &&& !final(self).has_media
            },
            plan is Ok ==> {
                let input = input->0;
                let plan = plan->Ok_0;
                &&& plan.video == match input.video {
                    Some(stream) => Some(worker_plan_of(stream, VIDEO_QUEUE_CAPACITY)),
                    None => None,
                }
                &&& plan.audio == match input.audio {
                    Some(stream) => Some(worker_plan_of(stream, AUDIO_QUEUE_CAPACITY)),
                    None => None,
                }
                &&& plan.options == match decode_options {
                    Some(options) => options,
                    None => MDecodeOptions::default_options(),
                }
                &&& plan.dispatcher.wf()
                &&& plan.dispatcher.state() == MediaThreadStatus::Playing(0)
                &&& plan.dispatcher.video() == match plan.video {
                    Some(worker) => Some(worker.marker),
                    None => None,
                }
                &&& plan.dispatcher.audio() == match plan.audio {
                    Some(worker) => Some(worker.marker),
                    None => None,
                }
                &&& final(self).video == match plan.video {
                    Some(worker) => Some(worker.stream_info),
                    None => None,
                }
                &&& final(self).audio == match plan.audio {
                    Some(worker) => Some(worker.stream_info),
                    None => None,
                }
                &&& final(self).has_media
            },
    {
        self.close_media();
        let input = match input {
            Some(input) => input,
            None => {
                return Err(MDecodeError::FileNotFound);
            },
        };
        if input.video.is_none() && input.audio.is_none() {
            return Err(MDecodeError::VideoStreamNotFound);
        }
        let mut video: Option<WorkerPlan> = None;
        if let Some(stream) = input.video {
            if stream.get_video_decoder().is_none() {
                return Err(MDecodeError::ContextCantBeInitialized);
            }
            video = Some(
                WorkerPlan {
                    marker: ConvFormat::<PacketMarker>::convert(&stream),
                    config: ThreadConfig {
                        buffer_capacity: VIDEO_QUEUE_CAPACITY,
                        time_base: stream.time_base,
                    },
                    stream_info: ConvFormat::<StreamInfo>::convert(&stream),
                },
            );
        }
        let mut audio: Option<WorkerPlan> = None;
        if let Some(stream) = input.audio {
            if stream.get_audio_decoder().is_none() {
                return Err(MDecodeError::ContextCantBeInitialized);
            }
            audio = Some(
                WorkerPlan {
                    marker: ConvFormat::<PacketMarker>::convert(&stream),
                    config: ThreadConfig {
                        buffer_capacity: AUDIO_QUEUE_CAPACITY,
                        time_base: stream.time_base,
                    },
                    stream_info: ConvFormat::<StreamInfo>::convert(&stream),
                },
            );
        }
        let options = match decode_options {
            Some(options) => options,
            None => MDecodeOptions::default(),
        };
        let dispatcher = Dispatcher::new(
            match video {
                Some(worker) => Some(worker.marker),
                None => None,
            },
            match audio {
                Some(worker) => Some(worker.marker),
                None => None,
            },
        );
        self.video = match video {
            Some(worker) => Some(worker.stream_info),
            None => None,
        };
        self.audio = match audio {
            Some(worker) => Some(worker.stream_info),
            None => None,
        };
        self.has_media = true;
        Ok(OpenPlan { video, audio, options, dispatcher })
    }
}

/// No worker is handed a unit of another stream than its own, and where the
/// two workers decode different streams, each is handed every unit of its
/// own.
pub proof fn lemma_route_matches_stream(
    video: Option<PacketMarker>,
    audio: Option<PacketMarker>,
    stream_index: usize,
)
    ensures
        route_of(video, audio, stream_index) == Route::Video <==> video is Some
            && video->0.stream_index == stream_index,
        route_of(video, audio, stream_index) == Route::Audio ==> audio is Some
            && audio->0.stream_index == stream_index,
        audio is Some && audio->0.stream_index == stream_index && !(video is Some
            && video->0.stream_index == stream_index) ==> route_of(video, audio, stream_index)
            == Route::Audio,
{
}

/// A stopped loop stays stopped and acts on nothing, whatever it is sent.
pub proof fn lemma_stopped_is_final(command: MediaThreadCommand)
    ensures
        status_after(MediaThreadStatus::Stopped, command) == MediaThreadStatus::Stopped,
        action_on(MediaThreadStatus::Stopped, command) == DispatchAction::Halt,
{
}

/// From any state but stopped, an exit stops the loop and has the workers
/// killed; playing twice is playing once, and pausing twice is pausing once.
pub proof fn lemma_command_effects(status: MediaThreadStatus, command: MediaThreadCommand)
    requires
        !(status is Stopped),
    ensures
        status_after(status, MediaThreadCommand::Exit) == MediaThreadStatus::Stopped,
        action_on(status, MediaThreadCommand::Exit) == DispatchAction::KillWorkers,
        status_after(status_after(status, command), command) == status_after(status, command),
        command is Seek ==> status_after(status, command) == status,
{
}

/// Tells of a unit, by the index of its stream, whether it goes to the
/// worker `to`.
pub open spec fn goes_to(
    video: Option<PacketMarker>,
    audio: Option<PacketMarker>,
    to: Route,
) -> spec_fn(usize) -> bool {
    |stream_index: usize| route_of(video, audio, stream_index) == to
}

/// The units, by the index of their stream, that a run of the loop over
/// `units` hands to the worker `to`, in their order.
pub open spec fn delivered(
    units: Seq<usize>,
    video: Option<PacketMarker>,
    audio: Option<PacketMarker>,
    to: Route,
) -> Seq<usize> {
    units.filter(goes_to(video, audio, to))
}

/// Of all the units of a container, a worker is handed only units of the
/// stream that it decodes.
pub proof fn lemma_delivered_units_match(
    units: Seq<usize>,
    video: Option<PacketMarker>,
    audio: Option<PacketMarker>,
    to: Route,
    k: int,
)
    requires
        0 <= k < delivered(units, video, audio, to).len(),
    ensures
        to == Route::Video ==> video is Some && delivered(units, video, audio, to)[k]
            == video->0.stream_index,
        to == Route::Audio ==> audio is Some && delivered(units, video, audio, to)[k]
            == audio->0.stream_index,
{
    units.lemma_filter_pred(goes_to(video, audio, to), k);
    let unit = delivered(units, video, audio, to)[k];
    assert(goes_to(video, audio, to)(unit));
}

} // verus!
