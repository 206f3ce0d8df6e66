use kintsugi::audio::{validate_audio, AudioBuffer, AudioError, StemCountError, Stems, MODEL_SAMPLE_RATE};
use kintsugi::chunks::{
    chunk_frames_in_track, chunk_offsets, deinterleave_chunk, plan_passes, ZeroStride, TARGET_FRAMES,
};
use kintsugi::config::{
    check_options, device_choice_from_lowercase, parse_device_choice, resolve_device, CudaUnavailable,
    DeviceChoice, DeviceKind, OptionsError, UnknownDevice, MODEL_FILENAME_CPU, MODEL_FILENAME_CUDA,
};
use kintsugi::decode::{
    stream_format, DecodeEvent, DecodeSession, ReadEvent, SetupError, Step, StreamFormat, TrackInfo,
};
use kintsugi::files::wav_file_name;
use kintsugi::model::{validate_output_shape, ShapeMismatch};
use kintsugi::shift::{compute_shift_frames, max_shift_frames};
use kintsugi::window::{weight_ramp, window_peak};

fn buffer(n: usize, sample_rate: u32, channels: u16) -> AudioBuffer<f32> {
    AudioBuffer { samples: vec![0.25f32; n], sample_rate, channels }
}

#[test]
fn shift_single_pass_is_zero() {
    assert_eq!(compute_shift_frames(0, 1, 44_100), 0);
    assert_eq!(compute_shift_frames(5, 1, 44_100), 0);
    assert_eq!(compute_shift_frames(3, 0, 44_100), 0);
}

#[test]
fn shift_spreads_over_half_a_second() {
    assert_eq!(compute_shift_frames(0, 2, 44_100), 0);
    assert_eq!(compute_shift_frames(1, 2, 44_100), 11_025);
    assert_eq!(compute_shift_frames(3, 4, 44_100), 16_537);
    assert_eq!(compute_shift_frames(1, 3, 48_000), 8_000);
}

#[test]
fn half_second_rounds_half_up() {
    assert_eq!(max_shift_frames(44_100), 22_050);
    assert_eq!(max_shift_frames(44_101), 22_051);
    assert_eq!(max_shift_frames(1), 1);
    assert_eq!(max_shift_frames(0), 0);
}

#[test]
fn half_second_follows_f32_rounding_of_large_rates() {
    assert_eq!(max_shift_frames(16_777_217), 8_388_608);
    assert_eq!(max_shift_frames(16_777_219), 8_388_610);
    assert_eq!(max_shift_frames(u32::MAX), 2_147_483_648);
    for sr in [
        0u32, 1, 7, 8_000, 22_050, 44_100, 48_000, 96_000, 192_000, 16_777_215, 16_777_216,
        16_777_217, 16_777_218, 16_777_219, 33_554_433, 33_554_435, 123_456_789, 4_000_000_001,
        u32::MAX - 1, u32::MAX,
    ] {
        let expected = (0.5 * sr as f32).round() as usize;
        assert_eq!(max_shift_frames(sr), expected, "sample rate {}", sr);
    }
}

#[test]
fn shift_stays_below_half_second_and_grows() {
    let shifts = 7;
    let mut last = 0;
    for i in 0..shifts {
        let s = compute_shift_frames(i, shifts, 44_100);
        assert!(s < 22_050);
        assert!(s >= last);
        last = s;
    }
}

#[test]
fn ramp_even_and_odd() {
    assert_eq!(weight_ramp(4), vec![1, 2, 2, 1]);
    assert_eq!(weight_ramp(5), vec![1, 2, 3, 2, 1]);
    assert_eq!(weight_ramp(1), vec![1]);
    assert_eq!(weight_ramp(2), vec![1, 1]);
}

#[test]
fn ramp_is_symmetric_with_peak_in_middle() {
    for size in [1usize, 2, 3, 10, 11, 1000, 1001] {
        let w = weight_ramp(size);
        assert_eq!(w.len(), size);
        for i in 0..size {
            assert_eq!(w[i], w[size - 1 - i]);
            assert!(w[i] >= 1 && w[i] <= (size + 1) / 2);
        }
        assert_eq!(w[size / 2], (size + 1) / 2);
        assert_eq!(window_peak(&w), (size + 1) / 2);
    }
}

#[test]
fn ramp_for_model_chunk() {
    let w = weight_ramp(TARGET_FRAMES);
    assert_eq!(window_peak(&w), 171_990);
    assert_eq!(w[0], 1);
    assert_eq!(w[TARGET_FRAMES - 1], 1);
}

#[test]
fn peak_is_at_least_one() {
    assert_eq!(window_peak(&[]), 1);
    assert_eq!(window_peak(&[0, 0]), 1);
    assert_eq!(window_peak(&[3, 7, 2]), 7);
}

#[test]
fn offsets_step_by_stride() {
    assert_eq!(chunk_offsets(10, 4), Ok(vec![0, 4, 8]));
    assert_eq!(chunk_offsets(8, 4), Ok(vec![0, 4]));
    assert_eq!(chunk_offsets(0, 4), Ok(vec![]));
    assert_eq!(chunk_offsets(1, 100), Ok(vec![0]));
    assert_eq!(chunk_offsets(10, 0), Err(ZeroStride));
}

#[test]
fn offsets_cover_every_frame() {
    for total in [1usize, 5, 17, 100] {
        for stride in [1usize, 2, 3, 7, 200] {
            let offs = chunk_offsets(total, stride).unwrap();
            for f in 0..total {
                assert!(offs.iter().any(|&o| o <= f && f < o + stride));
            }
            assert!(offs.iter().all(|&o| o < total));
        }
    }
}

#[test]
fn passes_are_shifted() {
    let plan = plan_passes(10, 4, 2, 44_100).unwrap();
    assert_eq!(plan, vec![vec![0, 4, 8], vec![11_025, 11_029, 11_033]]);
    let single = plan_passes(10, 4, 0, 44_100).unwrap();
    assert_eq!(single, vec![vec![0, 4, 8]]);
    assert_eq!(plan_passes(10, 0, 2, 44_100), Err(ZeroStride));
}

#[test]
fn passes_saturate() {
    let plan = plan_passes(usize::MAX, usize::MAX - 5, 2, 44_100).unwrap();
    assert_eq!(plan[0], vec![0, usize::MAX - 5]);
    assert_eq!(plan[1], vec![11_025, usize::MAX]);
}

#[test]
fn frames_in_track() {
    assert_eq!(chunk_frames_in_track(0, 4, 10), 4);
    assert_eq!(chunk_frames_in_track(8, 4, 10), 2);
    assert_eq!(chunk_frames_in_track(10, 4, 10), 0);
    assert_eq!(chunk_frames_in_track(usize::MAX, 4, 10), 0);
}

#[test]
fn deinterleave_pads_past_end() {
    let x = [1u8, 2, 3, 4, 5, 6];
    assert_eq!(deinterleave_chunk(&x, 0, 3, 0), vec![1, 3, 5, 2, 4, 6]);
    assert_eq!(deinterleave_chunk(&x, 2, 2, 0), vec![5, 0, 6, 0]);
    assert_eq!(deinterleave_chunk(&x, 7, 2, 9), vec![9, 9, 9, 9]);
    assert_eq!(deinterleave_chunk(&x, 0, 0, 9), Vec::<u8>::new());
}

#[test]
fn deinterleave_ignores_half_frame() {
    let x = [1.0f32, -1.0, 0.5];
    assert_eq!(deinterleave_chunk(&x, 0, 2, 0.0), vec![1.0, 0.0, -1.0, 0.0]);
}

#[test]
fn audio_checks() {
    assert_eq!(validate_audio(&buffer(4, MODEL_SAMPLE_RATE, 2)), Ok(()));
    assert_eq!(validate_audio(&buffer(4, MODEL_SAMPLE_RATE, 1)), Err(AudioError::NotStereo { channels: 1 }));
    assert_eq!(
        validate_audio(&buffer(4, 48_000, 2)),
        Err(AudioError::WrongSampleRate { sample_rate: 48_000 })
    );
    assert_eq!(validate_audio(&buffer(0, MODEL_SAMPLE_RATE, 2)), Err(AudioError::Empty));
    assert_eq!(validate_audio(&buffer(3, MODEL_SAMPLE_RATE, 2)), Err(AudioError::OddSampleCount));
    assert_eq!(validate_audio(&buffer(0, 8_000, 6)), Err(AudioError::NotStereo { channels: 6 }));
}

#[test]
fn stems_in_order() {
    let parts: Vec<AudioBuffer<f32>> = (0..4).map(|i| buffer(i + 1, MODEL_SAMPLE_RATE, 2)).collect();
    let stems = Stems::from_buffers(parts).unwrap();
    assert_eq!(stems.drums.samples.len(), 1);
    assert_eq!(stems.bass.samples.len(), 2);
    assert_eq!(stems.other.samples.len(), 3);
    assert_eq!(stems.vocals.samples.len(), 4);
    let three: Vec<AudioBuffer<f32>> = (0..3).map(|_| buffer(2, MODEL_SAMPLE_RATE, 2)).collect();
    assert_eq!(Stems::from_buffers(three).err(), Some(StemCountError { got: 3 }));
}

#[test]
fn output_shape() {
    assert_eq!(validate_output_shape(&[1, 4, 2, 343_980]), Ok(()));
    assert_eq!(validate_output_shape(&[1, 4, 2, 343_979]), Err(ShapeMismatch));
    assert_eq!(validate_output_shape(&[4, 2, 343_980]), Err(ShapeMismatch));
    assert_eq!(validate_output_shape(&[]), Err(ShapeMismatch));
}

#[test]
fn devices() {
    let cpu = resolve_device(DeviceChoice::Cpu, false).unwrap();
    assert_eq!(cpu.device, DeviceKind::Cpu);
    assert_eq!(cpu.model_file, MODEL_FILENAME_CPU);
    assert_eq!(cpu.model_file, "htdemucs.pt");
    let cuda = resolve_device(DeviceChoice::Cuda, true).unwrap();
    assert_eq!(cuda.device, DeviceKind::Cuda);
    assert_eq!(cuda.model_file, MODEL_FILENAME_CUDA);
    assert_eq!(cuda.model_file, "htdemucs_cuda.pt");
    assert_eq!(resolve_device(DeviceChoice::Cuda, false).err(), Some(CudaUnavailable));
}

#[test]
fn options() {
    assert_eq!(check_options(1, true), Ok(()));
    assert_eq!(check_options(0, true), Err(OptionsError::ZeroShifts));
    assert_eq!(check_options(0, false), Err(OptionsError::ZeroShifts));
    assert_eq!(check_options(3, false), Err(OptionsError::OverlapOutOfRange));
}

#[test]
fn device_names() {
    assert_eq!(parse_device_choice("cpu"), Ok(DeviceChoice::Cpu));
    assert_eq!(parse_device_choice("CPU"), Ok(DeviceChoice::Cpu));
    assert_eq!(parse_device_choice("CuDa"), Ok(DeviceChoice::Cuda));
    assert_eq!(parse_device_choice("gpu"), Err(UnknownDevice));
    assert_eq!(parse_device_choice(" cpu"), Err(UnknownDevice));
    assert_eq!(device_choice_from_lowercase("cuda"), Ok(DeviceChoice::Cuda));
    assert_eq!(device_choice_from_lowercase("CPU"), Err(UnknownDevice));
}

#[test]
fn stream_setup() {
    let t = TrackInfo { id: 3, sample_rate: Some(44_100), channel_count: Some(2) };
    assert_eq!(stream_format(Some(t)), Ok(StreamFormat { track_id: 3, sample_rate: 44_100, channels: 2 }));
    assert_eq!(stream_format(None), Err(SetupError::NoDefaultTrack));
    let no_rate = TrackInfo { id: 3, sample_rate: None, channel_count: None };
    assert_eq!(stream_format(Some(no_rate)), Err(SetupError::UnknownSampleRate));
    let no_channels = TrackInfo { id: 3, sample_rate: Some(8_000), channel_count: None };
    assert_eq!(stream_format(Some(no_channels)), Err(SetupError::UnknownChannelCount));
    let many = TrackInfo { id: 0, sample_rate: Some(8_000), channel_count: Some(65_538) };
    assert_eq!(stream_format(Some(many)).unwrap().channels, 2);
}

#[test]
fn decode_session_gathers_own_track() {
    let format = StreamFormat { track_id: 1, sample_rate: 44_100, channels: 2 };
    let mut session: DecodeSession<f32> = DecodeSession::new(format);
    assert_eq!(session.format(), format);
    assert_eq!(session.after_read(ReadEvent::Packet { track_id: 2 }), Step::ReadNext);
    assert_eq!(session.after_read(ReadEvent::Packet { track_id: 1 }), Step::Decode);
    assert_eq!(session.after_decode(DecodeEvent::Decoded(vec![0.1, 0.2])), Step::ReadNext);
    assert_eq!(session.after_read(ReadEvent::Corrupt), Step::ReadNext);
    assert_eq!(session.after_decode(DecodeEvent::Corrupt), Step::ReadNext);
    assert_eq!(session.after_decode(DecodeEvent::Decoded(vec![0.3, 0.4])), Step::ReadNext);
    assert_eq!(session.after_read(ReadEvent::Failed), Step::Abort);
    assert_eq!(session.after_read(ReadEvent::EndOfStream), Step::Finish);
    let audio = session.finish();
    assert_eq!(audio.samples, vec![0.1, 0.2, 0.3, 0.4]);
    assert_eq!(audio.sample_rate, 44_100);
    assert_eq!(audio.channels, 2);
}

#[test]
fn decode_failure_aborts() {
    let mut session: DecodeSession<f32> =
        DecodeSession::new(StreamFormat { track_id: 0, sample_rate: 8_000, channels: 1 });
    assert_eq!(session.after_decode(DecodeEvent::Failed), Step::Abort);
    assert!(session.finish().samples.is_empty());
}

#[test]
fn wav_names() {
    assert_eq!(wav_file_name("song"), "song.wav");
    assert_eq!(wav_file_name(""), ".wav");
    assert_eq!(wav_file_name("a.b"), "a.b.wav");
}
