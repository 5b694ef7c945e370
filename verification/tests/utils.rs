use mplayer::audio::AudioSpec;
use mplayer::constants::{AudioFormat, ConvFormat, Pixel, Sample, SampleType};
use mplayer::probe::{AudioProbe, CodecProbe, InputProbe, MediaKind, StreamProbe, VideoProbe};
use mplayer::rational::{magnitude, Rational};
use mplayer::utils::{
    calculate_tpf_from_time_base, calculate_wait_from_rational, can_time_frames, convert_pts,
    floor_div, frame_time_ms, frame_time_ns, height_from_ar, time_base_to_ns, width_from_ar,
    MDecodeOptions, MediaInfo, Range, RangeCheck, ScalingFlag, TimeScale,
};

#[test]
fn range_new_keeps_the_bounds() {
    let range = Range::new(5, 15);
    assert_eq!(range.min, 5);
    assert_eq!(range.max, 15);
}

#[test]
fn inclusive_check_counts_the_bounds_in() {
    let range = Range::new(5, 15);
    assert_eq!(range.range_check_inclusive(4), RangeCheck::Lower);
    assert_eq!(range.range_check_inclusive(5), RangeCheck::InRange);
    assert_eq!(range.range_check_inclusive(10), RangeCheck::InRange);
    assert_eq!(range.range_check_inclusive(15), RangeCheck::InRange);
    assert_eq!(range.range_check_inclusive(16), RangeCheck::Higher);
    assert_eq!(range.range_check_inclusive(0), RangeCheck::Lower);
    assert_eq!(range.range_check_inclusive(u32::MAX), RangeCheck::Higher);
}

#[test]
fn exclusive_check_counts_the_bounds_out() {
    let range = Range::new(5, 15);
    assert_eq!(range.range_check(4), RangeCheck::Lower);
    assert_eq!(range.range_check(5), RangeCheck::Lower);
    assert_eq!(range.range_check(6), RangeCheck::InRange);
    assert_eq!(range.range_check(14), RangeCheck::InRange);
    assert_eq!(range.range_check(15), RangeCheck::Higher);
    assert_eq!(range.range_check(16), RangeCheck::Higher);
}

#[test]
fn upper_bound_wins_in_an_empty_range() {
    let range = Range::new(15, 5);
    assert_eq!(range.range_check_inclusive(10), RangeCheck::Higher);
    assert_eq!(range.range_check_inclusive(3), RangeCheck::Lower);
    assert_eq!(range.range_check(5), RangeCheck::Higher);
    assert_eq!(range.range_check(4), RangeCheck::Lower);
    let point = Range::new(7, 7);
    assert_eq!(point.range_check_inclusive(7), RangeCheck::InRange);
    assert_eq!(point.range_check(7), RangeCheck::Higher);
}

#[test]
fn magnitude_of_the_smallest_number_fits() {
    assert_eq!(magnitude(i32::MIN), 2_147_483_648);
    assert_eq!(magnitude(-1), 1);
    assert_eq!(magnitude(0), 0);
    assert_eq!(magnitude(i32::MAX), 2_147_483_647);
}

#[test]
fn rational_keeps_its_parts() {
    let r = Rational::new(30000, 1001);
    assert_eq!(r.numerator(), 30000);
    assert_eq!(r.denominator(), 1001);
    assert_ne!(Rational(1, 2), Rational(2, 4));
}

#[test]
fn height_for_a_width_at_sixteen_by_nine() {
    assert_eq!(height_from_ar(Rational(16, 9), 1920), 1080);
    assert_eq!(height_from_ar(Rational(16, 9), 1152), 648);
    assert_eq!(height_from_ar(Rational(4, 3), 1000), 750);
    assert_eq!(height_from_ar(Rational(3, 1), 10), 3);
    assert_eq!(height_from_ar(Rational(1, 0), 10), 0);
    assert_eq!(height_from_ar(Rational(1, 1), u32::MAX), u32::MAX);
}

#[test]
fn width_from_ar_scales_by_the_second_part_over_the_first() {
    assert_eq!(width_from_ar(Rational(16, 9), 1080), 607);
    assert_eq!(width_from_ar(Rational(9, 16), 1080), 1920);
    assert_eq!(width_from_ar(Rational(1920, 1080), 1080), 607);
}

#[test]
fn frame_time_in_milliseconds() {
    assert_eq!(frame_time_ms(Rational(30, 1)), 33);
    assert_eq!(frame_time_ms(Rational(25, 1)), 40);
    assert_eq!(frame_time_ms(Rational(30000, 1001)), 33);
    assert_eq!(frame_time_ms(Rational(24000, 1001)), 41);
    assert_eq!(frame_time_ms(Rational(1, 2)), 2000);
    assert_eq!(frame_time_ms(Rational(-30, 1)), -33);
    assert_eq!(frame_time_ms(Rational(30, -1)), -33);
    assert_eq!(frame_time_ms(Rational(-30, -1)), 33);
    assert_eq!(frame_time_ms(Rational(7, 0)), 0);
    assert_eq!(frame_time_ms(Rational(1, 2_147_483)), 2_147_483_000);
}

#[test]
fn frame_time_in_nanoseconds() {
    assert_eq!(frame_time_ns(Rational(30, 1)), 33_333_333);
    assert_eq!(frame_time_ns(Rational(25, 1)), 40_000_000);
    assert_eq!(frame_time_ns(Rational(30000, 1001)), 33_366_666);
    assert_eq!(frame_time_ns(Rational(1, 2)), 2_000_000_000);
    assert_eq!(frame_time_ns(Rational(1, 0)), 0);
}

#[test]
fn frames_can_be_timed_when_both_times_fit() {
    assert!(can_time_frames(Rational(30, 1)));
    assert!(can_time_frames(Rational(1, 2)));
    assert!(can_time_frames(Rational(5, 0)));
    // Three seconds are more nanoseconds than fit.
    assert!(!can_time_frames(Rational(1, 3)));
    assert!(!can_time_frames(Rational(0, 1)));
    assert!(!can_time_frames(Rational(-30, 1)));
    assert!(!can_time_frames(Rational(30, -1)));
    assert!(!can_time_frames(Rational(i32::MAX, 2_147_484)));
    assert!(can_time_frames(Rational(i32::MAX, 2_147_483)));
}

#[test]
fn ticks_per_frame_is_the_frame_time_in_time_base_units() {
    assert_eq!(calculate_tpf_from_time_base(Rational(1, 30), Rational(30, 1)), 1);
    assert_eq!(calculate_tpf_from_time_base(Rational(1, 90000), Rational(25, 1)), 3600);
    assert_eq!(calculate_tpf_from_time_base(Rational(1, 90000), Rational(30000, 1001)), 3003);
    assert_eq!(calculate_tpf_from_time_base(Rational(1, 1000), Rational(24000, 1001)), 41);
    assert_eq!(calculate_tpf_from_time_base(Rational(1, 1000), Rational(60, 1)), 16);
}

#[test]
fn ticks_per_frame_is_zero_on_a_zero_numerator() {
    assert_eq!(calculate_tpf_from_time_base(Rational(0, 1), Rational(30, 1)), 0);
    assert_eq!(calculate_tpf_from_time_base(Rational(1, 30), Rational(0, 1)), 0);
    assert_eq!(calculate_tpf_from_time_base(Rational(0, 0), Rational(0, 0)), 0);
}

#[test]
fn ticks_per_frame_rounds_toward_zero() {
    assert_eq!(calculate_tpf_from_time_base(Rational(-1, 1000), Rational(24000, 1001)), -41);
    assert_eq!(calculate_tpf_from_time_base(Rational(1, -1000), Rational(24000, 1001)), -41);
    assert_eq!(calculate_tpf_from_time_base(Rational(-1, -1000), Rational(24000, 1001)), 41);
    assert_eq!(calculate_tpf_from_time_base(Rational(1, 1000), Rational(-24000, -1001)), 41);
    assert_eq!(calculate_tpf_from_time_base(Rational(1, 0), Rational(30, 1)), 0);
    assert_eq!(
        calculate_tpf_from_time_base(Rational(1, i32::MIN), Rational(1, i32::MIN)),
        4_611_686_018_427_387_904
    );
    assert_eq!(
        calculate_tpf_from_time_base(Rational(-1, i32::MIN), Rational(1, i32::MIN)),
        -4_611_686_018_427_387_904
    );
}

#[test]
fn wait_between_ticks() {
    assert_eq!(calculate_wait_from_rational(Rational(1, 100), TimeScale::Nano), 10_000_000);
    assert_eq!(calculate_wait_from_rational(Rational(1, 100), TimeScale::Mili), 10);
    assert_eq!(calculate_wait_from_rational(Rational(1, 10000), TimeScale::Nano), 100_000);
    assert_eq!(calculate_wait_from_rational(Rational(1, 3), TimeScale::Nano), 333_333_333);
    assert_eq!(calculate_wait_from_rational(Rational(1001, 30000), TimeScale::Mili), 33);
    assert_eq!(
        calculate_wait_from_rational(Rational(i32::MAX, 1), TimeScale::Nano),
        2_147_483_647_000_000_000
    );
}

#[test]
fn wait_on_the_edges() {
    assert_eq!(calculate_wait_from_rational(Rational(0, 100), TimeScale::Nano), 0);
    assert_eq!(calculate_wait_from_rational(Rational(0, 0), TimeScale::Nano), 0);
    assert_eq!(calculate_wait_from_rational(Rational(-1, 100), TimeScale::Nano), 0);
    assert_eq!(calculate_wait_from_rational(Rational(1, -100), TimeScale::Nano), 0);
    assert_eq!(calculate_wait_from_rational(Rational(-1, -100), TimeScale::Nano), 10_000_000);
    assert_eq!(calculate_wait_from_rational(Rational(1, 0), TimeScale::Nano), u64::MAX);
    assert_eq!(calculate_wait_from_rational(Rational(-1, 0), TimeScale::Mili), 0);
}

#[test]
fn time_scale_units() {
    assert_eq!(TimeScale::Nano.units_per_second(), 1_000_000_000);
    assert_eq!(TimeScale::Mili.units_per_second(), 1_000);
}

#[test]
fn time_base_in_nanoseconds() {
    assert_eq!(time_base_to_ns(Rational(1, 10000)), 100_000);
    assert_eq!(time_base_to_ns(Rational(1, 1000)), 1_000_000);
    assert_eq!(time_base_to_ns(Rational(1, 3)), 333_333_333);
    assert_eq!(time_base_to_ns(Rational(2, 1)), 2_000_000_000);
    assert_eq!(time_base_to_ns(Rational(-1, 1000)), 1_000_000);
    assert_eq!(time_base_to_ns(Rational(1, -1000)), 1_000_000);
    assert_eq!(time_base_to_ns(Rational(0, 5)), 0);
    assert_eq!(time_base_to_ns(Rational(1, i32::MIN)), 0);
}

#[test]
fn floor_division_rounds_down() {
    assert_eq!(floor_div(7, 2), 3);
    assert_eq!(floor_div(-7, 2), -4);
    assert_eq!(floor_div(-8, 2), -4);
    assert_eq!(floor_div(0, 5), 0);
    assert_eq!(floor_div(-1, 5), -1);
    assert_eq!(floor_div(4, 5), 0);
}

#[test]
fn timestamps_convert_into_clock_ticks() {
    assert_eq!(convert_pts(1, Rational(1, 30), Rational(1, 1000)), Some(33));
    assert_eq!(convert_pts(30, Rational(1, 30), Rational(1, 1000)), Some(1000));
    assert_eq!(convert_pts(90000, Rational(1, 90000), Rational(1, 10000)), Some(10000));
    assert_eq!(convert_pts(3003, Rational(1, 90000), Rational(1, 10000)), Some(333));
    assert_eq!(convert_pts(0, Rational(1, 30), Rational(1, 1000)), Some(0));
    assert_eq!(convert_pts(-1, Rational(1, 30), Rational(1, 1000)), Some(-34));
    assert_eq!(convert_pts(5, Rational(0, 1), Rational(1, 1000)), Some(0));
}

#[test]
fn timestamps_do_not_convert_without_a_positive_divisor() {
    assert_eq!(convert_pts(1, Rational(1, 0), Rational(1, 1000)), None);
    assert_eq!(convert_pts(1, Rational(1, -30), Rational(1, 1000)), None);
    assert_eq!(convert_pts(1, Rational(1, 30), Rational(0, 1000)), None);
    assert_eq!(convert_pts(1, Rational(1, 30), Rational(-1, 1000)), None);
}

#[test]
fn timestamps_do_not_convert_out_of_range() {
    assert_eq!(convert_pts(i64::MAX, Rational(2, 1), Rational(1, 1)), None);
    assert_eq!(convert_pts(i64::MIN, Rational(2, 1), Rational(1, 1)), None);
    assert_eq!(convert_pts(i64::MAX, Rational(1, 1), Rational(1, 1)), Some(i64::MAX));
    assert_eq!(convert_pts(i64::MIN, Rational(1, 1), Rational(1, 1)), Some(i64::MIN));
    assert_eq!(
        convert_pts(i64::MIN, Rational(i32::MAX, 1), Rational(1, i32::MAX)),
        None
    );
    assert_eq!(
        convert_pts(i64::MAX, Rational(i32::MAX, i32::MAX), Rational(i32::MAX, i32::MAX)),
        Some(i64::MAX)
    );
}

#[test]
fn default_decode_options() {
    let options = MDecodeOptions::default();
    assert_eq!(options.look_range, Range::new(5, 15));
    assert_eq!(options.scaling_flag, ScalingFlag::Bilinear);
    assert_eq!(options.window_default_size, (1920, 1080));
    assert_eq!(options.pixel_format, Pixel::RGB24);
}

#[test]
fn player_decode_options() {
    let options = MDecodeOptions::opts();
    assert_eq!(options.look_range, Range::new(10, 100));
    assert_eq!(options.scaling_flag, ScalingFlag::Bilinear);
    assert_eq!(options.window_default_size, (1920, 1080));
    assert_eq!(options.pixel_format, Pixel::RGB24);
}

#[test]
fn audio_decoder_converts_to_a_device_request_at_half_rate() {
    let audio = AudioProbe {
        rate: 44100,
        channels: 6,
        layout_channels: 2,
        format: Sample::F32(SampleType::Planar),
    };
    let spec: AudioSpec = audio.convert();
    assert_eq!(
        spec,
        AudioSpec { freq: Some(22050), channels: Some(2), format: Some(AudioFormat::F32LE) }
    );
    let odd = AudioProbe {
        rate: 11025,
        channels: 1,
        layout_channels: 1,
        format: Sample::I64(SampleType::Packed),
    };
    let spec: AudioSpec = odd.convert();
    assert_eq!(
        spec,
        AudioSpec { freq: Some(5512), channels: Some(1), format: Some(AudioFormat::UNKNOWN) }
    );
}

fn sample_input() -> InputProbe {
    InputProbe {
        video: Some(StreamProbe {
            index: 0,
            id: 256,
            time_base: Rational(1, 90000),
            rate: Rational(30, 1),
            codec: Some(CodecProbe {
                medium: MediaKind::Video,
                time_base: Rational(1, 60),
                video: Some(VideoProbe {
                    width: 1280,
                    height: 720,
                    format: Pixel::YUV420P,
                    aspect_ratio: Rational(1, 1),
                    frame_rate: Some(Rational(30, 1)),
                }),
                audio: None,
            }),
        }),
        audio: Some(StreamProbe {
            index: 1,
            id: 257,
            time_base: Rational(1, 48000),
            rate: Rational(0, 0),
            codec: Some(CodecProbe {
                medium: MediaKind::Audio,
                time_base: Rational(1, 48000),
                video: None,
                audio: Some(AudioProbe {
                    rate: 48000,
                    channels: 2,
                    layout_channels: 2,
                    format: Sample::I16(SampleType::Packed),
                }),
            }),
        }),
    }
}

#[test]
fn media_info_of_an_input() {
    let input = sample_input();
    assert!(input.is_describable());
    let info = MediaInfo::get_media_info_from_input(input);
    assert_eq!(
        info,
        MediaInfo {
            v_width: 1280,
            v_height: 720,
            video_rate: Rational(30, 1),
            aspect_ratio: Rational(1, 1),
            frame_time_ns: 33_333_333,
            frame_time_ms: 33,
            audio_spec: AudioSpec {
                freq: Some(48000),
                channels: Some(2),
                format: Some(AudioFormat::S16LE),
            },
            time_base: Rational(1, 60),
        }
    );
}

#[test]
fn input_without_what_it_takes_is_not_describable() {
    let mut no_video = sample_input();
    no_video.video = None;
    assert!(!no_video.is_describable());
    let mut no_audio = sample_input();
    no_audio.audio = None;
    assert!(!no_audio.is_describable());
    let mut no_codec = sample_input();
    no_codec.video = Some(StreamProbe { codec: None, ..no_codec.video.unwrap() });
    assert!(!no_codec.is_describable());
    let mut no_rate = sample_input();
    no_rate.video = Some(StreamProbe { rate: Rational(0, 1), ..no_rate.video.unwrap() });
    assert!(!no_rate.is_describable());
    let mut slow = sample_input();
    slow.video = Some(StreamProbe { rate: Rational(1, 3), ..slow.video.unwrap() });
    assert!(!slow.is_describable());
    let mut audio_without_decoder = sample_input();
    let stream = audio_without_decoder.audio.unwrap();
    audio_without_decoder.audio = Some(StreamProbe {
        codec: Some(CodecProbe { audio: None, ..stream.codec.unwrap() }),
        ..stream
    });
    assert!(!audio_without_decoder.is_describable());
}
