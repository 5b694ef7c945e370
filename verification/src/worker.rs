//! The decode worker of one stream: when it stops, and which timestamp each
//! of its frames leaves with.

use crate::buffer::Frame;
use crate::pipeline::{StreamInfo, ThreadConfig, ThreadData};
use crate::rational::Rational;
use crate::utils::{floor_div, width_from_ar, MDecodeOptions};
use vstd::arithmetic::div_mod::{lemma_div_is_ordered, lemma_fundamental_div_mod_converse};
use vstd::prelude::*;

verus! {

/// The timestamp made up for the frame number `index` of a stream that
/// shows `rate` frames per second and counts time in units of `time_base`:
/// `index / rate` seconds, counted in those units and rounded down. Where a
/// numerator is `0` the timestamp is `0`.
pub open spec fn synthesized_pts(index: nat, rate: Rational, time_base: Rational) -> int {
    let per_frame = rate.1 * time_base.1;
    let divisor = rate.0 * time_base.0;
    if divisor == 0 {
        0
    } else if divisor > 0 {
        (index * per_frame) / divisor
    } else {
        (index * (-per_frame)) / (-divisor)
    }
}

/// One frame lasts no less than no time: the rate and the time base do not
/// differ in sign.
pub open spec fn runs_forward(rate: Rational, time_base: Rational) -> bool {
    (rate.1 * time_base.1) * (rate.0 * time_base.0) >= 0
}

/// The mathematical state of a decode worker.
pub struct WorkerModel {
    pub frame_index: nat,
    pub running: bool,
    pub info: StreamInfo,
    pub config: ThreadConfig,
}

/// What the decoder says of one frame it hands out: the timestamp it put on
/// the frame, and the frame rate it reports, where it has either.
pub struct FrameReport {
    pub engine_pts: Option<i64>,
    pub decoder_rate: Option<Rational>,
}

impl WorkerModel {
    /// The frame rate that timestamps are made up from: the decoder's own
    /// where it reports one, else the one the stream was opened with.
    pub open spec fn effective_rate(self, decoder_rate: Option<Rational>) -> Option<Rational> {
        if decoder_rate is Some {
            decoder_rate
        } else {
            self.info.fps
        }
    }

    /// The timestamp that the next frame would leave with, before any
    /// machine limit: the decoder's where it put one on, else the one made
    /// up from the frame's number, where a frame rate is known.
    pub open spec fn candidate_pts(self, report: FrameReport) -> Option<int> {
        if report.engine_pts is Some {
            Some(report.engine_pts->0 as int)
        } else if self.effective_rate(report.decoder_rate) is Some {
            Some(
                synthesized_pts(
                    self.frame_index,
                    self.effective_rate(report.decoder_rate)->0,
                    self.info.time_base,
                ),
            )
        } else {
            None
        }
    }

    /// The timestamp that the next frame leaves with, if it leaves: a
    /// stopped worker emits nothing, nor does one that has counted
    /// `u64::MAX` frames, and a frame whose timestamp is unknown or does not
    /// fit in `i64` is passed over.
    pub open spec fn stamp(self, report: FrameReport) -> Option<i64> {
        let candidate = self.candidate_pts(report);
        if self.running && self.frame_index < u64::MAX && candidate is Some && i64::MIN
            <= candidate->0 <= i64::MAX {
            Some(candidate->0 as i64)
        } else {
            None
        }
    }

    /// The worker after the next frame: an emitted frame is counted.
    pub open spec fn after_frame(self, report: FrameReport) -> WorkerModel {
        if self.stamp(report) is Some {
            WorkerModel { frame_index: self.frame_index + 1, ..self }
        } else {
            self
        }
    }

    /// The timestamps of the frames that the worker emits, in order, while
    /// the decoder hands out `reports`.
    pub open spec fn emitted(self, reports: Seq<FrameReport>) -> Seq<i64>
        decreases reports.len(),
    {
        if reports.len() == 0 {
            Seq::empty()
        } else {
            let rest = self.after_frame(reports[0]).emitted(reports.drop_first());
            match self.stamp(reports[0]) {
                Some(pts) => seq![pts] + rest,
                None => rest,
            }
        }
    }
}

/// What a worker does with what it took from its queue of compressed units.
#[derive(Debug, Clone, PartialEq, Eq)]
pub enum WorkerAction<P> {
    /// Feed the unit to the decoder and look for decoded frames.
    Decode(P),
    /// Stop for good, without a look at what the decoder still holds.
    Stop,
}

/// What a worker does after it fed a unit to the decoder.
#[derive(Debug, Clone, Copy, PartialEq, Eq, Structural)]
pub enum UnitStep {
    /// Ask the decoder for the frames it has ready.
    ReceiveFrames,
    /// Leave the unit and take the next.
    NextUnit,
}

/// How the scaler of a video worker is set up.
#[derive(Debug, Clone, Copy, PartialEq, Eq)]
pub struct ScalingPlan {
    pub source_size: (u32, u32),
    pub target_size: (u32, u32),
    pub options: MDecodeOptions,
}

/// Computes [`synthesized_pts`], where it fits in `i64`.
pub fn synthesize_pts(index: u64, rate: Rational, time_base: Rational) -> (pts: Option<i64>)
    ensures
        pts is Some <==> i64::MIN <= synthesized_pts(index as nat, rate, time_base) <= i64::MAX,
        pts is Some ==> pts->0 == synthesized_pts(index as nat, rate, time_base),
{
    let rate_den: i128 = rate.1 as i128;
    let base_den: i128 = time_base.1 as i128;
    let rate_num: i128 = rate.0 as i128;
    let base_num: i128 = time_base.0 as i128;
    assert(-0x8000_0000 * 0x8000_0000 <= rate_den * base_den <= 0x8000_0000 * 0x8000_0000)
        by (nonlinear_arith)
        requires
            -0x8000_0000 <= rate_den <= 0x8000_0000,
            -0x8000_0000 <= base_den <= 0x8000_0000,
    ;
    assert(-0x8000_0000 * 0x8000_0000 <= rate_num * base_num <= 0x8000_0000 * 0x8000_0000)
        by (nonlinear_arith)
        requires
            -0x8000_0000 <= rate_num <= 0x8000_0000,
            -0x8000_0000 <= base_num <= 0x8000_0000,
    ;
    let per_frame: i128 = rate_den * base_den;
    let divisor: i128 = rate_num * base_num;
    if divisor == 0 {
        return Some(0);
    }
    let (step, positive): (i128, i128) = if divisor > 0 {
        (per_frame, divisor)
    } else {
        (-per_frame, -divisor)
    };
    let wide_index: i128 = index as i128;
    assert(-0x1_0000_0000_0000_0000 * 0x4000_0000_0000_0000 <= wide_index * step
        <= 0x1_0000_0000_0000_0000 * 0x4000_0000_0000_0000) by (nonlinear_arith)
        requires
            0 <= wide_index <= 0x1_0000_0000_0000_0000,
            -0x4000_0000_0000_0000 <= step <= 0x4000_0000_0000_0000,
    ;
    let quotient: i128 = floor_div(wide_index * step, positive);
    if quotient < i64::MIN as i128 || quotient > i64::MAX as i128 {
        None
    } else {
        Some(quotient as i64)
    }
}

/// The decisions of the worker that decodes one elementary stream: when it
/// stops, and which timestamp each frame leaves with.
pub struct DecodeWorker {
    stream_info: StreamInfo,
    config: ThreadConfig,
    frame_index: u64,
    running: bool,
}

impl View for DecodeWorker {
    type V = WorkerModel;

    closed spec fn view(&self) -> WorkerModel {
        WorkerModel {
            frame_index: self.frame_index as nat,
            running: self.running,
            info: self.stream_info,
            config: self.config,
        }
    }
}

impl DecodeWorker {
    /// A running worker for the stream that `stream_info` describes, which
    /// has emitted no frame yet. Without `config` it runs with
    /// [`ThreadConfig::default_config`].
    pub fn new(stream_info: StreamInfo, config: Option<ThreadConfig>) -> (worker: DecodeWorker)
        ensures
            worker@ == (WorkerModel {
                frame_index: 0,
                running: true,
                info: stream_info,
                config: match config {
                    Some(config) => config,
                    None => ThreadConfig::default_config(),
                },
            }),
    {
        DecodeWorker {
            stream_info,
            config: match config {
                Some(config) => config,
                None => ThreadConfig::default(),
            },
            frame_index: 0,
            running: true,
        }
    }

    pub fn is_running(&self) -> (running: bool)
        ensures
            running == self@.running,
    {
        self.running
    }

    /// The number of frames emitted so far, which is the number of the next
    /// frame.
    pub fn frame_index(&self) -> (index: u64)
        ensures
            index == self@.frame_index,
    {
        self.frame_index
    }

    pub fn stream_info(&self) -> (info: StreamInfo)
        ensures
            info == self@.info,
    {
        self.stream_info
    }

    /// The capacity of the worker's queue of decoded frames.
    pub fn buffer_capacity(&self) -> (capacity: u16)
        ensures
            capacity == self@.config.buffer_capacity,
    {
        self.config.buffer_capacity
    }

    /// The time base the decoder is to count in: its own, `reported`,
    /// unless that is the unset `0/1`, which the worker's setting replaces.
    pub fn decoder_time_base(&self, reported: Rational) -> (time_base: Rational)
        ensures
            time_base == if reported == Rational(0, 1) {
                self@.config.time_base
            } else {
                reported
            },
    {
        if reported.0 == 0 && reported.1 == 1 {
            self.config.time_base
        } else {
            reported
        }
    }

    /// Takes in what the queue of compressed units gave, `None` where the
    /// queue is closed. A running worker decodes a unit; the stop order and
    /// a closed queue stop it, and a stopped worker decodes nothing more.
    pub fn on_input<P>(&mut self, input: Option<ThreadData<P>>) -> (action: WorkerAction<P>)
        ensures
            final(self)@.frame_index == old(self)@.frame_index,
            final(self)@.info == old(self)@.info,
            final(self)@.config == old(self)@.config,
            final(self)@.running == (old(self)@.running && input matches Some(
                ThreadData::Packet(_),
            )),
            action == if final(self)@.running {
                WorkerAction::Decode(input->0->Packet_0)
            } else {
                WorkerAction::Stop
            },
    {
        match input {
            Some(ThreadData::Packet(packet)) => {
                if self.running {
                    WorkerAction::Decode(packet)
                } else {
                    WorkerAction::Stop
                }
            },
            _ => {
                self.running = false;
                WorkerAction::Stop
            },
        }
    }

    /// Takes in what the decoder said of the unit it was fed. A unit that
    /// the decoder rejects is passed over: the worker goes on with the next
    /// unit, and no unit ever stops it.
    pub fn on_unit(&self, accepted: bool) -> (step: UnitStep)
        ensures
            step == if accepted {
                UnitStep::ReceiveFrames
            } else {
                UnitStep::NextUnit
            },
    {
        if accepted {
            UnitStep::ReceiveFrames
        } else {
            UnitStep::NextUnit
        }
    }

    /// Takes in a frame that the decoder handed out, and hands it on with
    /// its timestamp: see [`WorkerModel::stamp`]. Every frame that leaves
    /// the worker is stamped. `None` means that the frame is passed over.
    pub fn on_frame<T>(
        &mut self,
        payload: T,
        engine_pts: Option<i64>,
        decoder_rate: Option<Rational>,
    ) -> (frame: Option<Frame<T>>)
        ensures
            frame == match old(self)@.stamp(FrameReport { engine_pts, decoder_rate }) {
                Some(pts) => Some(Frame { pts: Some(pts), payload }),
                None => None,
            },
            final(self)@ == old(self)@.after_frame(FrameReport { engine_pts, decoder_rate }),
    {
        match self.stamp(engine_pts, decoder_rate) {
            Some(pts) => Some(Frame { pts: Some(pts), payload }),
            None => None,
        }
    }

    /// Picks the timestamp of the next frame and counts the frame, if it
    /// leaves.
    fn stamp(&mut self, engine_pts: Option<i64>, decoder_rate: Option<Rational>) -> (pts: Option<
        i64,
    >)
        ensures
            pts == old(self)@.stamp(FrameReport { engine_pts, decoder_rate }),
            final(self)@ == old(self)@.after_frame(FrameReport { engine_pts, decoder_rate }),
    {
        if !self.running || self.frame_index == u64::MAX {
            return None;
        }
        let pts = match engine_pts {
            Some(pts) => Some(pts),
            None => {
                let rate = match decoder_rate {
                    Some(rate) => Some(rate),
                    None => self.stream_info.fps,
                };
                match rate {
                    Some(rate) => synthesize_pts(
                        self.frame_index,
                        rate,
                        self.stream_info.time_base,
                    ),
                    None => None,
                }
            },
        };
        if pts.is_some() {
            self.frame_index = self.frame_index + 1;
        }
        pts
    }
}

/// The scaler of a video worker turns pictures of `width` by `height` into
/// pictures as high as the window of `options`, and
/// [`width_from_ar`]`(width / height, window height)` wide. There is none
/// where that width cannot be computed.
pub fn scaling_plan(width: u32, height: u32, options: MDecodeOptions) -> (plan: Option<
    ScalingPlan,
>)
    ensures
        plan is Some <==> 0 < width <= i32::MAX && height <= i32::MAX
            && options.window_default_size.1 * height <= u32::MAX,
        plan is Some ==> {
            &&& plan->0.source_size == (width, height)
            &&& plan->0.target_size.0 == (options.window_default_size.1 * height) / (width as int)
            &&& plan->0.target_size.1 == options.window_default_size.1
            &&& plan->0.options == options
        },
{
    let window_height = options.window_default_size.1;
    if width == 0 || width > 0x7fff_ffff || height > 0x7fff_ffff {
        return None;
    }
    let wide_window: u64 = window_height as u64;
    let wide_height: u64 = height as u64;
    assert(wide_window * wide_height <= 0xffff_ffff * 0x7fff_ffff) by (nonlinear_arith)
        requires
            wide_window <= 0xffff_ffff,
            wide_height <= 0x7fff_ffff,
    ;
    if wide_window * wide_height > 0xffff_ffff {
        return None;
    }
    let target_width = width_from_ar(Rational(width as i32, height as i32), window_height);
    Some(
        ScalingPlan {
            source_size: (width, height),
            target_size: (target_width, window_height),
            options,
        },
    )
}

/// Timestamps made up for later frames are not earlier, as long as a frame
/// lasts no less than no time.
pub proof fn lemma_synthesized_pts_monotonic(
    earlier: nat,
    later: nat,
    rate: Rational,
    time_base: Rational,
)
    requires
        earlier <= later,
        runs_forward(rate, time_base),
    ensures
        synthesized_pts(earlier, rate, time_base) <= synthesized_pts(later, rate, time_base),
{
    let per_frame = rate.1 * time_base.1;
    let divisor = rate.0 * time_base.0;
    if divisor > 0 {
        assert(per_frame >= 0) by (nonlinear_arith)
            requires
                per_frame * divisor >= 0,
                divisor > 0,
        ;
        assert(earlier * per_frame <= later * per_frame) by (nonlinear_arith)
            requires
                earlier <= later,
                per_frame >= 0,
        ;
        lemma_div_is_ordered(earlier * per_frame, later * per_frame, divisor);
    } else if divisor < 0 {
        assert(-per_frame >= 0) by (nonlinear_arith)
            requires
                per_frame * divisor >= 0,
                divisor < 0,
        ;
        assert(earlier * (-per_frame) <= later * (-per_frame)) by (nonlinear_arith)
            requires
                earlier <= later,
                -per_frame >= 0,
        ;
        lemma_div_is_ordered(earlier * (-per_frame), later * (-per_frame), -divisor);
    }
}

/// Where the time base is the inverse of the frame rate, the timestamp made
/// up for a frame is the frame's number.
pub proof fn lemma_synthesized_pts_counts_frames(index: nat, rate: Rational)
    requires
        rate.is_positive(),
    ensures
        synthesized_pts(index, rate, Rational(rate.1, rate.0)) == index,
{
    let divisor = rate.0 * rate.1;
    let per_frame = rate.1 * rate.0;
    assert(divisor > 0 && per_frame == divisor) by (nonlinear_arith)
        requires
            rate.0 > 0,
            rate.1 > 0,
            divisor == rate.0 * rate.1,
            per_frame == rate.1 * rate.0,
    ;
    lemma_fundamental_div_mod_converse((index * divisor) as int, divisor, index as int, 0);
}

/// Every emitted timestamp is that of a frame numbered at or after the
/// worker's next frame, where the decoder stamps no frame and the frame rate
/// stays `rate`.
proof fn lemma_emitted_bounded_below(model: WorkerModel, reports: Seq<FrameReport>, rate: Rational)
    requires
        runs_forward(rate, model.info.time_base),
        forall|k: int|
            0 <= k < reports.len() ==> (#[trigger] reports[k]).engine_pts is None
                && model.effective_rate(reports[k].decoder_rate) == Some(rate),
    ensures
        forall|i: int|
            0 <= i < model.emitted(reports).len() ==> synthesized_pts(
                model.frame_index,
                rate,
                model.info.time_base,
            ) <= #[trigger] model.emitted(reports)[i],
        forall|i: int, j: int|
            0 <= i <= j < model.emitted(reports).len() ==> model.emitted(reports)[i]
                <= model.emitted(reports)[j],
    decreases reports.len(),
{
    if reports.len() > 0 {
        let next = model.after_frame(reports[0]);
        let tail = reports.drop_first();
        let rest = next.emitted(tail);
        assert forall|k: int| 0 <= k < tail.len() implies (#[trigger] tail[k]).engine_pts is None
            && next.effective_rate(tail[k].decoder_rate) == Some(rate) by {
            assert(tail[k] == reports[k + 1]);
        }
        lemma_emitted_bounded_below(next, tail, rate);
        lemma_synthesized_pts_monotonic(
            model.frame_index,
            next.frame_index,
            rate,
            model.info.time_base,
        );
        match model.stamp(reports[0]) {
            Some(pts) => {
                assert(model.emitted(reports) == seq![pts] + rest);
                assert(pts == synthesized_pts(model.frame_index, rate, model.info.time_base));
                assert forall|i: int, j: int|
                    0 <= i <= j < model.emitted(reports).len() implies model.emitted(reports)[i]
                    <= model.emitted(reports)[j] by {
                    if i > 0 {
                        assert(model.emitted(reports)[i] == rest[i - 1]);
                        assert(model.emitted(reports)[j] == rest[j - 1]);
                    } else if j > 0 {
                        assert(model.emitted(reports)[j] == rest[j - 1]);
                    }
                }
                assert forall|i: int| 0 <= i < model.emitted(reports).len() implies synthesized_pts(
                    model.frame_index,
                    rate,
                    model.info.time_base,
                ) <= #[trigger] model.emitted(reports)[i] by {
                    if i > 0 {
                        assert(model.emitted(reports)[i] == rest[i - 1]);
                    }
                }
            },
            None => {
                assert(model.emitted(reports) == rest);
            },
        }
    }
}

/// The timestamps of a worker's frames never run backwards, where they are
/// all made up by the worker: the decoder stamps no frame, the frame rate
/// stays the same, and a frame lasts no less than no time.
pub proof fn lemma_emitted_pts_monotonic(
    model: WorkerModel,
    reports: Seq<FrameReport>,
    rate: Rational,
)
    requires
        runs_forward(rate, model.info.time_base),
        forall|k: int|
            0 <= k < reports.len() ==> (#[trigger] reports[k]).engine_pts is None
                && model.effective_rate(reports[k].decoder_rate) == Some(rate),
    ensures
        forall|i: int, j: int|
            0 <= i <= j < model.emitted(reports).len() ==> model.emitted(reports)[i]
                <= model.emitted(reports)[j],
{
    lemma_emitted_bounded_below(model, reports, rate);
}

impl WorkerModel {
    /// The worker after `count` more frames were emitted.
    pub open spec fn ahead(self, count: nat) -> WorkerModel {
        WorkerModel { frame_index: self.frame_index + count, ..self }
    }
}

/// While no frame is passed over, the frames leave one for one with the
/// timestamps that the decoder put on, and where it put none, with those
/// made up from the frames' numbers.
pub proof fn lemma_emitted_follows_reports(model: WorkerModel, reports: Seq<FrameReport>)
    requires
        model.running,
        model.frame_index + reports.len() <= u64::MAX,
        forall|k: int|
            0 <= k < reports.len() ==> {
                let candidate = #[trigger] model.ahead(k as nat).candidate_pts(reports[k]);
                candidate is Some && i64::MIN <= candidate->0 <= i64::MAX
            },
    ensures
        model.emitted(reports).len() == reports.len(),
        forall|k: int|
            0 <= k < reports.len() ==> #[trigger] model.emitted(reports)[k] == model.ahead(
                k as nat,
            ).candidate_pts(reports[k])->0,
    decreases reports.len(),
{
    if reports.len() > 0 {
        let next = model.after_frame(reports[0]);
        let tail = reports.drop_first();
        let first: int = 0;
        assert(model.ahead(first as nat) == model);
        let candidate = model.ahead(first as nat).candidate_pts(reports[first]);
        assert(candidate is Some && i64::MIN <= candidate->0 <= i64::MAX);
        assert(model.stamp(reports[0]) == Some(candidate->0 as i64));
        assert(next == model.ahead(1));
        assert forall|k: int| 0 <= k < tail.len() implies {
            let candidate = #[trigger] next.ahead(k as nat).candidate_pts(tail[k]);
            candidate is Some && i64::MIN <= candidate->0 <= i64::MAX
        } by {
            assert(tail[k] == reports[k + 1]);
            assert(next.ahead(k as nat) == model.ahead((k + 1) as nat));
        }
        lemma_emitted_follows_reports(next, tail);
        let rest = next.emitted(tail);
        assert(model.emitted(reports) == seq![candidate->0 as i64] + rest);
        assert forall|k: int| 0 <= k < reports.len() implies #[trigger] model.emitted(reports)[k]
            == model.ahead(k as nat).candidate_pts(reports[k])->0 by {
            if k > 0 {
                assert(model.emitted(reports)[k] == rest[k - 1]);
                assert(tail[k - 1] == reports[k]);
                assert(next.ahead((k - 1) as nat) == model.ahead(k as nat));
            }
        }
    }
}

/// The timestamps of a worker's frames never run backwards, as long as no
/// frame is passed over and the timestamps that the decoder puts on agree
/// in order with those that the worker makes up: the frames then leave in
/// the order of their timestamps.
pub proof fn lemma_emitted_pts_ordered(model: WorkerModel, reports: Seq<FrameReport>)
    requires
        model.running,
        model.frame_index + reports.len() <= u64::MAX,
        forall|k: int|
            0 <= k < reports.len() ==> {
                let candidate = #[trigger] model.ahead(k as nat).candidate_pts(reports[k]);
                candidate is Some && i64::MIN <= candidate->0 <= i64::MAX
            },
        forall|i: int, j: int|
            0 <= i <= j < reports.len() ==> model.ahead(i as nat).candidate_pts(reports[i])->0
                <= model.ahead(j as nat).candidate_pts(reports[j])->0,
    ensures
        model.emitted(reports).len() == reports.len(),
        forall|i: int, j: int|
            0 <= i <= j < model.emitted(reports).len() ==> model.emitted(reports)[i]
                <= model.emitted(reports)[j],
{
    lemma_emitted_follows_reports(model, reports);
}

/// A stopped worker emits nothing, whatever the decoder still hands out:
/// the stop order is final, and what the decoder holds is not flushed.
pub proof fn lemma_stopped_worker_emits_nothing(model: WorkerModel, reports: Seq<FrameReport>)
    requires
        !model.running,
    ensures
        model.emitted(reports) == Seq::<i64>::empty(),
    decreases reports.len(),
{
    if reports.len() > 0 {
        lemma_stopped_worker_emits_nothing(model, reports.drop_first());
    }
}

} // verus!
