use mplayer::buffer::Frame;
use mplayer::mplayer::{
    MPlayer, MPlayerError, PlayerAction, SetupStage, TickOutput, DEFAULT_FREQUENCY,
};
use mplayer::pipeline::{MPlayerCore, StreamInfo};
use mplayer::probe::MediaKind;
use mplayer::rational::Rational;
use mplayer::Command;

type Player = MPlayer<u32, u32>;

fn player() -> Player {
    MPlayer::setup(None).unwrap()
}

// A player whose clock counts wall time from the instant zero, and the
// instant that the run has reached.
struct Run {
    player: Player,
    now: u64,
}

impl Run {
    fn start() -> Run {
        let mut player = player();
        player.process_command(Command::Play("film.mkv".to_string()), 0);
        Run { player, now: 0 }
    }

    // One tick, `elapsed` nanoseconds after the one before.
    fn tick(
        &mut self,
        core: &MPlayerCore,
        command: Option<Command>,
        elapsed: u64,
    ) -> TickOutput<u32, u32> {
        self.now += elapsed;
        self.player.tick(core, command, self.now)
    }
}

fn stream(kind: MediaKind, time_base: Rational) -> StreamInfo {
    StreamInfo { time_base, kind, fps: None, audio_spec: None }
}

fn playing_core() -> MPlayerCore {
    let mut core = MPlayerCore::new(None);
    core.video = Some(stream(MediaKind::Video, Rational(1, 30)));
    core.audio = Some(stream(MediaKind::Audio, Rational(1, 1000)));
    core.has_media = true;
    core
}

fn frame(pts: i64, payload: u32) -> Frame<u32> {
    Frame { pts: Some(pts), payload }
}

fn idle(video: Option<Frame<u32>>, audio: Option<Frame<u32>>) -> TickOutput<u32, u32> {
    TickOutput { action: PlayerAction::Idle, video, audio, blank: false }
}

fn blank() -> TickOutput<u32, u32> {
    TickOutput { action: PlayerAction::Idle, video: None, audio: None, blank: true }
}

#[test]
fn setup_starts_at_zero_without_buffers() {
    let player = player();
    assert!(!player.should_exit);
    assert_eq!(player.clock(), 0);
    assert_eq!(player.player_frequency(), 10000);
    assert_eq!(DEFAULT_FREQUENCY, 10000);
    assert_eq!(player.buffered_video(), None);
    assert_eq!(player.buffered_audio(), None);
    assert!(!player.wants_video());
    assert!(!player.wants_audio());
}

#[test]
fn setup_reports_the_step_that_failed() {
    let cases = [
        (SetupStage::Library, MPlayerError::WindowCreationFailed),
        (SetupStage::Video, MPlayerError::SDLInitError),
        (SetupStage::Window, MPlayerError::WindowCreationFailed),
        (SetupStage::EventPump, MPlayerError::EventPumpError),
        (SetupStage::Texture, MPlayerError::TextureCreationFailed),
    ];
    for (stage, error) in cases {
        match Player::setup(Some(stage)) {
            Err(found) => assert_eq!(found, error),
            Ok(_) => panic!("setup went through"),
        }
    }
}

#[test]
fn go_sets_the_pace() {
    let mut player = player();
    assert_eq!(player.go(100), 10_000_000);
    assert_eq!(player.player_frequency(), 100);
    assert_eq!(player.go(1000), 1_000_000);
    assert_eq!(player.go(3), 333_333_333);
    assert_eq!(player.go(i32::MAX), 0);
    assert_eq!(player.player_frequency(), 2_147_483_647);
}

#[test]
fn clock_stands_still_without_a_medium() {
    let mut run = Run::start();
    let core = MPlayerCore::new(None);
    assert_eq!(run.tick(&core, None, 5_000_000_000), blank());
    assert_eq!(run.player.clock(), 0);
    assert_eq!(run.player.buffered_video(), None);
}

#[test]
fn first_tick_makes_the_buffers() {
    let mut run = Run::start();
    let core = playing_core();
    assert_eq!(run.tick(&core, None, 1_000_000), idle(None, None));
    assert_eq!(run.player.clock(), 10);
    assert_eq!(run.player.buffered_video(), Some(0));
    assert_eq!(run.player.buffered_audio(), Some(0));
    assert!(run.player.wants_video());
    assert!(run.player.wants_audio());
}

#[test]
fn stream_with_an_unusable_time_base_gets_no_buffer() {
    let mut run = Run::start();
    let mut core = playing_core();
    core.video = Some(stream(MediaKind::Video, Rational(1, 0)));
    core.audio = None;
    assert_eq!(run.tick(&core, None, 1_000_000), idle(None, None));
    assert_eq!(run.player.buffered_video(), None);
    assert_eq!(run.player.buffered_audio(), None);
    assert_eq!(run.player.offer_video(frame(0, 1)), Some(frame(0, 1)));
}

#[test]
fn frames_offered_before_there_is_a_buffer_come_back() {
    let mut player = player();
    assert_eq!(player.offer_video(frame(0, 1)), Some(frame(0, 1)));
    assert_eq!(player.offer_audio(frame(0, 2)), Some(frame(0, 2)));
}

#[test]
fn buffers_take_ten_frames() {
    let mut run = Run::start();
    let core = playing_core();
    run.tick(&core, None, 0);
    for n in 0..10 {
        assert!(run.player.wants_video());
        assert_eq!(run.player.offer_video(frame(100 + n, n as u32)), None);
    }
    assert!(!run.player.wants_video());
    assert_eq!(run.player.buffered_video(), Some(10));
    assert_eq!(run.player.offer_video(frame(999, 99)), Some(frame(999, 99)));
    assert_eq!(run.player.buffered_video(), Some(10));
    assert_eq!(run.player.buffered_audio(), Some(0));
}

#[test]
fn frames_are_released_as_the_clock_reaches_them() {
    let mut run = Run::start();
    let core = playing_core();
    assert_eq!(run.player.go(1000), 1_000_000);
    run.tick(&core, None, 0);
    for (pts, payload) in [(0, 1), (1, 2), (2, 3)] {
        assert_eq!(run.player.offer_video(frame(pts, payload)), None);
    }
    for (pts, payload) in [(0, 10), (20, 20), (40, 30)] {
        assert_eq!(run.player.offer_audio(frame(pts, payload)), None);
    }
    // Both first frames are stamped zero: they leave at once.
    assert_eq!(run.tick(&core, None, 16_000_000), idle(Some(frame(0, 1)), Some(frame(0, 10))));
    assert_eq!(run.player.clock(), 0);
    assert_eq!(run.tick(&core, None, 16_000_000), idle(None, None));
    // A thirtieth of a second is 33 ticks and a third: not yet at 32.
    assert_eq!(run.tick(&core, None, 16_000_000), idle(None, Some(frame(20, 20))));
    assert_eq!(run.player.clock(), 32);
    assert_eq!(run.tick(&core, None, 16_000_000), idle(Some(frame(1, 2)), Some(frame(40, 30))));
    assert_eq!(run.tick(&core, None, 16_000_000), idle(None, None));
    assert_eq!(run.player.clock(), 64);
    assert_eq!(run.tick(&core, None, 16_000_000), idle(Some(frame(2, 3)), None));
    assert_eq!(run.player.buffered_video(), Some(0));
    assert_eq!(run.player.buffered_audio(), Some(0));
}

#[test]
fn one_frame_is_released_per_stream_and_tick() {
    let mut run = Run::start();
    let core = playing_core();
    run.tick(&core, None, 0);
    for (pts, payload) in [(1, 1), (2, 2), (3, 3)] {
        assert_eq!(run.player.offer_video(frame(pts, payload)), None);
    }
    assert_eq!(run.tick(&core, None, 60_000_000_000), idle(Some(frame(1, 1)), None));
    assert_eq!(run.tick(&core, None, 0), idle(Some(frame(2, 2)), None));
    assert_eq!(run.tick(&core, None, 0), idle(Some(frame(3, 3)), None));
    assert_eq!(run.tick(&core, None, 0), idle(None, None));
}

#[test]
fn zero_stamp_on_the_video_side_restarts_the_clock_for_audio_too() {
    let mut run = Run::start();
    let core = playing_core();
    assert_eq!(run.player.go(1000), 1_000_000);
    run.tick(&core, None, 0);
    assert_eq!(run.player.offer_video(frame(0, 1)), None);
    assert_eq!(run.player.offer_audio(frame(500, 2)), None);
    // At 600 ticks the audio frame would be due, but the clock starts anew.
    assert_eq!(run.tick(&core, None, 600_000_000), idle(Some(frame(0, 1)), None));
    assert_eq!(run.player.clock(), 0);
    assert_eq!(run.tick(&core, None, 499_000_000), idle(None, None));
    assert_eq!(run.tick(&core, None, 1_000_000), idle(None, Some(frame(500, 2))));
}

#[test]
fn stream_that_is_not_decoded_is_left_alone() {
    let mut run = Run::start();
    let mut core = playing_core();
    run.tick(&core, None, 0);
    assert_eq!(run.player.offer_video(frame(1, 1)), None);
    core.video = None;
    assert_eq!(run.tick(&core, None, 60_000_000_000), blank());
    assert_eq!(run.player.buffered_video(), Some(1));
    core.video = Some(stream(MediaKind::Video, Rational(1, 30)));
    assert_eq!(run.tick(&core, None, 0), idle(Some(frame(1, 1)), None));
}

#[test]
fn the_same_run_releases_the_same_frames() {
    let core = playing_core();
    let video = [(0i64, 1u32), (1, 2), (2, 3), (2, 4), (5, 5), (0, 6), (1, 7)];
    let audio = [(0i64, 10u32), (23, 20), (46, 30), (69, 40), (92, 50)];
    let elapsed = [0u64, 7_000_000, 16_000_000, 16_666_667, 1, 33_000_000, 5_000_000, 90_000_000];
    let mut runs = vec![];
    for _ in 0..2 {
        let mut run = Run::start();
        let mut released = vec![];
        let mut next_video = 0;
        let mut next_audio = 0;
        for round in 0..40 {
            if run.player.wants_video() && next_video < video.len() {
                let (pts, payload) = video[next_video];
                assert_eq!(run.player.offer_video(frame(pts, payload)), None);
                next_video += 1;
            }
            if run.player.wants_audio() && next_audio < audio.len() {
                let (pts, payload) = audio[next_audio];
                assert_eq!(run.player.offer_audio(frame(pts, payload)), None);
                next_audio += 1;
            }
            let out = run.tick(&core, None, elapsed[round % elapsed.len()]);
            released.push((out.video, out.audio, run.player.clock()));
        }
        runs.push(released);
    }
    assert_eq!(runs[0], runs[1]);
    let payloads: Vec<u32> =
        runs[0].iter().filter_map(|(v, _, _)| v.as_ref().map(|f| f.payload)).collect();
    assert_eq!(payloads, vec![1, 2, 3, 4, 5, 6, 7]);
    let payloads: Vec<u32> =
        runs[0].iter().filter_map(|(_, a, _)| a.as_ref().map(|f| f.payload)).collect();
    assert_eq!(payloads, vec![10, 20, 30, 40, 50]);
}

#[test]
fn shutdown_marks_the_player_as_leaving() {
    let mut player = player();
    assert_eq!(player.process_command(Command::Shutdown, 0), PlayerAction::Exit);
    assert!(player.should_exit);
}

#[test]
fn play_asks_for_the_medium_and_forgets_the_old_frames() {
    let mut run = Run::start();
    let core = playing_core();
    run.tick(&core, None, 0);
    assert_eq!(run.player.offer_video(frame(7, 1)), None);
    assert_eq!(
        run.player.process_command(Command::Play("film.mkv".to_string()), run.now),
        PlayerAction::Open("film.mkv".to_string())
    );
    assert!(!run.player.should_exit);
    assert_eq!(run.player.buffered_video(), None);
    assert_eq!(run.player.buffered_audio(), None);
}

#[test]
fn other_commands_are_ignored() {
    let mut run = Run::start();
    let core = playing_core();
    run.tick(&core, None, 0);
    assert_eq!(run.player.offer_video(frame(7, 1)), None);
    assert_eq!(run.player.process_command(Command::Pause, run.now), PlayerAction::Idle);
    assert_eq!(run.player.process_command(Command::Goto(12), run.now), PlayerAction::Idle);
    assert!(!run.player.should_exit);
    assert_eq!(run.player.buffered_video(), Some(1));
}

#[test]
fn tick_takes_the_command_in_first() {
    let mut run = Run::start();
    let core = playing_core();
    run.tick(&core, None, 0);
    assert_eq!(run.player.offer_video(frame(0, 1)), None);
    let out = run.tick(&core, Some(Command::Play("next.mkv".to_string())), 1_000_000);
    assert_eq!(
        out,
        TickOutput {
            action: PlayerAction::Open("next.mkv".to_string()),
            video: None,
            audio: None,
            blank: false,
        }
    );
    // The buffers were made anew, empty.
    assert_eq!(run.player.buffered_video(), Some(0));
    let out = run.tick(&core, Some(Command::Shutdown), 0);
    assert_eq!(out.action, PlayerAction::Exit);
    assert!(run.player.should_exit);
}

#[test]
fn surface_is_blank_without_a_video_stream() {
    let mut run = Run::start();
    let mut core = playing_core();
    core.video = None;
    let out = run.tick(&core, None, 1_000_000);
    assert!(out.blank);
    core.has_media = false;
    core.video = Some(stream(MediaKind::Video, Rational(1, 30)));
    assert!(run.tick(&core, None, 1_000_000).blank);
    core.has_media = true;
    assert!(!run.tick(&core, None, 1_000_000).blank);
}

#[test]
fn end_of_the_video_stream_blanks_the_surface_after_the_last_frame() {
    let mut run = Run::start();
    let core = playing_core();
    run.tick(&core, None, 0);
    assert_eq!(run.player.offer_video(frame(1, 1)), None);
    assert_eq!(run.player.offer_video(frame(2, 2)), None);
    run.player.on_video_closed();
    // The queue is closed: nothing more is wanted, but what waits is shown.
    assert!(!run.player.wants_video());
    assert!(run.player.wants_audio());
    assert_eq!(run.tick(&core, None, 1_000_000), idle(None, None));
    assert_eq!(run.tick(&core, None, 60_000_000_000), idle(Some(frame(1, 1)), None));
    let last = run.tick(&core, None, 0);
    assert_eq!(last.video, Some(frame(2, 2)));
    assert!(last.blank);
    assert_eq!(run.tick(&core, None, 0), blank());
    assert!(!run.player.should_exit);
}

#[test]
fn end_of_the_audio_stream_is_no_failure() {
    let mut run = Run::start();
    let core = playing_core();
    run.tick(&core, None, 0);
    assert_eq!(run.player.offer_audio(frame(5, 1)), None);
    run.player.on_audio_closed();
    assert!(!run.player.wants_audio());
    assert!(run.player.wants_video());
    assert_eq!(run.tick(&core, None, 1_000_000_000), idle(None, Some(frame(5, 1))));
    assert_eq!(run.tick(&core, None, 0), idle(None, None));
}

#[test]
fn a_new_medium_starts_without_the_end_of_the_old() {
    let mut run = Run::start();
    let core = playing_core();
    run.tick(&core, None, 0);
    run.player.on_video_closed();
    run.player.on_audio_closed();
    assert!(run.tick(&core, None, 0).blank);
    assert_eq!(
        run.player.process_command(Command::Play("b.mkv".to_string()), run.now),
        PlayerAction::Open("b.mkv".to_string())
    );
    let out = run.tick(&core, None, 0);
    assert!(!out.blank);
    assert!(run.player.wants_video());
    assert!(run.player.wants_audio());
}
