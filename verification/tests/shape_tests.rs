use voxmorph::buffers::{last_or_pad_into, left_pad_to_len_in_place, pad_to_len_in_place, tail_slice};
use voxmorph::feature::FeatureTensor;
use voxmorph::shape::{
    align_up, feature_len_for_samples, keep_tail_in_place, ms_to_samples,
    onnx_silence_front_feature_frames, rmvpe_model_input_samples_16k, samples_between_rates, Rounding,
};

fn bits(v: &[f32]) -> Vec<u32> {
    v.iter().map(|x| x.to_bits()).collect()
}

#[test]
fn ms_to_samples_basic() {
    assert_eq!(ms_to_samples(16000, 10), 160);
    assert_eq!(ms_to_samples(48000, 100), 4800);
}

#[test]
fn feature_len_for_samples_16k() {
    assert_eq!(feature_len_for_samples(320, 16000), 2);
    assert_eq!(feature_len_for_samples(1600, 16000), 10);
}

#[test]
fn samples_between_rates_downsample() {
    assert_eq!(samples_between_rates(48000, 48000, 16000, Rounding::Floor), 16000);
}

#[test]
fn samples_between_rates_upsample_ceil() {
    assert_eq!(samples_between_rates(160, 16000, 48000, Rounding::Ceil), 480);
}

#[test]
fn align_up_basic() {
    assert_eq!(align_up(100, 320), 320);
    assert_eq!(align_up(320, 320), 320);
    assert_eq!(align_up(640, 320), 640);
    assert_eq!(align_up(321, 320), 640);
}

#[test]
fn align_up_zero_align_is_noop() {
    assert_eq!(align_up(100, 0), 100);
}

#[test]
fn keep_tail_in_place_trims_front() {
    let mut v = vec![1, 2, 3, 4, 5];
    keep_tail_in_place(&mut v, 3);
    assert_eq!(v, vec![3, 4, 5]);
}

#[test]
fn keep_tail_in_place_shorter_is_noop() {
    let mut v = vec![1, 2];
    keep_tail_in_place(&mut v, 5);
    assert_eq!(v, vec![1, 2]);
}

#[test]
fn rmvpe_input_samples_basic() {
    let s = rmvpe_model_input_samples_16k(1600, 16000);
    assert_eq!(s, 31 * 160);
}

#[test]
fn rmvpe_input_samples_rounds_partial_frames_up() {
    // 1601 samples at 16 kHz = 10.00625 frames -> 11, +5 guard = 16 -> bucket 32
    assert_eq!(rmvpe_model_input_samples_16k(1601, 16000), 31 * 160);
    // 4800 samples at 48 kHz = 10 frames; 0 samples -> 0 frames + 5 guard -> 32
    assert_eq!(rmvpe_model_input_samples_16k(4800, 48000), 31 * 160);
    assert_eq!(rmvpe_model_input_samples_16k(0, 16000), 31 * 160);
    // 4400 samples = 27.5 -> 28 frames + 5 guard = 33 -> 64-frame bucket
    assert_eq!(rmvpe_model_input_samples_16k(4400, 16000), 63 * 160);
    // 2800 samples = 17.5 -> 18 frames + 5 guard = 23 -> 32-frame bucket
    assert_eq!(rmvpe_model_input_samples_16k(2800, 16000), 31 * 160);
}

#[test]
fn samples_between_rates_ceil_rounds_up_inexact() {
    assert_eq!(samples_between_rates(1, 48000, 16000, Rounding::Floor), 0);
    assert_eq!(samples_between_rates(1, 48000, 16000, Rounding::Ceil), 1);
    assert_eq!(samples_between_rates(4410, 44100, 16000, Rounding::Floor), 1600);
    assert_eq!(samples_between_rates(100, 44100, 16000, Rounding::Floor), 36);
    assert_eq!(samples_between_rates(100, 44100, 16000, Rounding::Ceil), 37);
}

#[test]
fn onnx_silence_front_frames_values() {
    // 100 ms at 48 kHz = 4800 samples -> 1600 at 16 kHz -> 1600 / 360 = 4 -> 8 frames
    assert_eq!(onnx_silence_front_feature_frames(4800, 48000), 8);
    assert_eq!(onnx_silence_front_feature_frames(0, 48000), 0);
    assert_eq!(onnx_silence_front_feature_frames(1000, 48000), 0);
}

#[test]
fn ms_to_samples_rounds_down() {
    assert_eq!(ms_to_samples(44100, 1), 44);
    assert_eq!(ms_to_samples(0, 500), 0);
    assert_eq!(ms_to_samples(48000, 500), 24000);
}

#[test]
fn align_up_law_on_values() {
    for value in [0usize, 1, 319, 320, 321, 999] {
        let r = align_up(value, 320);
        assert_eq!(r % 320, 0);
        assert!(r >= value && r < value + 320);
    }
}

#[test]
fn tail_slice_returns_last_n() {
    let audio = bits(&[1.0, 2.0, 3.0, 4.0, 5.0]);
    assert_eq!(tail_slice(&audio, 3), &bits(&[3.0, 4.0, 5.0])[..]);
    assert_eq!(tail_slice(&audio, 10), &bits(&[1.0, 2.0, 3.0, 4.0, 5.0])[..]);
}

#[test]
fn last_or_pad_into_pads_front() {
    let audio = bits(&[1.0, 2.0, 3.0]);
    let mut output = Vec::new();
    last_or_pad_into(&audio, 5, &mut output);
    assert_eq!(output, bits(&[0.0, 0.0, 1.0, 2.0, 3.0]));
}

#[test]
fn last_or_pad_into_trims_front() {
    let audio = bits(&[1.0, 2.0, 3.0, 4.0, 5.0]);
    let mut output = Vec::new();
    last_or_pad_into(&audio, 3, &mut output);
    assert_eq!(output, bits(&[3.0, 4.0, 5.0]));
}

#[test]
fn left_pad_prepends_zeros() {
    let mut v = bits(&[1.0, 2.0, 3.0]);
    left_pad_to_len_in_place(&mut v, 5);
    assert_eq!(v, bits(&[0.0, 0.0, 1.0, 2.0, 3.0]));
}

#[test]
fn left_pad_longer_is_noop() {
    let mut v = bits(&[1.0, 2.0, 3.0, 4.0, 5.0]);
    left_pad_to_len_in_place(&mut v, 3);
    assert_eq!(v, bits(&[1.0, 2.0, 3.0, 4.0, 5.0]));
}

#[test]
fn pad_to_len_appends_silence() {
    let mut v = bits(&[1.0, 2.0]);
    pad_to_len_in_place(&mut v, 4);
    assert_eq!(v, bits(&[1.0, 2.0, 0.0, 0.0]));
    pad_to_len_in_place(&mut v, 1);
    assert_eq!(v, bits(&[1.0, 2.0, 0.0, 0.0]));
}

#[test]
fn repeat_frames_duplicates_each_frame() {
    let mut t = FeatureTensor { data: bits(&[1.0, 2.0, 3.0, 4.0, 5.0, 6.0]), shape: vec![1, 3, 2] };
    t.repeat_frames(2).unwrap();
    assert_eq!(t.data, bits(&[1.0, 2.0, 1.0, 2.0, 3.0, 4.0, 3.0, 4.0, 5.0, 6.0, 5.0, 6.0]));
    assert_eq!(t.shape, vec![1, 6, 2]);
}

#[test]
fn repeat_frames_factor_one_is_noop() {
    let mut t = FeatureTensor { data: bits(&[1.0, 2.0, 3.0, 4.0]), shape: vec![1, 2, 2] };
    t.repeat_frames(1).unwrap();
    assert_eq!(t.data, bits(&[1.0, 2.0, 3.0, 4.0]));
    assert_eq!(t.shape, vec![1, 2, 2]);
}

#[test]
fn trim_front_frames_removes_front() {
    let mut t = FeatureTensor { data: bits(&[1.0, 2.0, 3.0, 4.0, 5.0, 6.0]), shape: vec![1, 3, 2] };
    t.trim_front_frames(1).unwrap();
    assert_eq!(t.data, bits(&[3.0, 4.0, 5.0, 6.0]));
    assert_eq!(t.shape, vec![1, 2, 2]);
}

#[test]
fn trim_front_all_clears() {
    let mut t = FeatureTensor { data: bits(&[1.0, 2.0]), shape: vec![1, 1, 2] };
    t.trim_front_frames(5).unwrap();
    assert!(t.data.is_empty());
    assert_eq!(t.shape[1], 0);
}

#[test]
fn repeat_frames_wrong_rank_errors() {
    let mut t = FeatureTensor { data: bits(&[1.0, 2.0]), shape: vec![2] };
    assert!(t.repeat_frames(2).is_err());
}

#[test]
fn feature_tensor_shape_errors() {
    let mut t = FeatureTensor { data: vec![0; 4], shape: vec![2, 1, 2] };
    assert_eq!(t.repeat_frames(2).unwrap_err(), "feature batch must be 1, got 2");
    let mut t = FeatureTensor { data: vec![0; 4], shape: vec![1, -1, 2] };
    assert_eq!(t.trim_front_frames(1).unwrap_err(), "invalid feature frames");
    let mut t = FeatureTensor { data: vec![0; 4], shape: vec![-3, 1, 2] };
    assert_eq!(t.trim_front_frames(1).unwrap_err(), "invalid feature batch");
    let mut t = FeatureTensor { data: vec![0; 4], shape: vec![1, 1, -2] };
    assert_eq!(t.repeat_frames(3).unwrap_err(), "invalid feature channels");
    let mut t = FeatureTensor { data: vec![0; 4], shape: vec![1, 2] };
    assert_eq!(t.trim_front_frames(1).unwrap_err(), "feature tensor must be rank-3 [1, frames, channels]");
    // unchanged on error
    assert_eq!(t.data, vec![0; 4]);
    assert_eq!(t.shape, vec![1, 2]);
}

#[test]
fn repeat_frames_keeps_extra_data_and_pads() {
    // 1 frame of 1 channel declared, 2 values stored: the frame is repeated,
    // the rest of the buffer stays in place and the buffer grows with silence.
    let mut t = FeatureTensor { data: vec![7, 8], shape: vec![1, 1, 1] };
    t.repeat_frames(3).unwrap();
    assert_eq!(t.data, vec![7, 7, 7, 0, 0, 0]);
    let mut t = FeatureTensor { data: vec![7, 8, 9, 10], shape: vec![1, 1, 1] };
    t.repeat_frames(2).unwrap();
    assert_eq!(t.data, vec![7, 7, 9, 10, 0, 0, 0, 0]);
    assert_eq!(t.shape, vec![1, 2, 1]);
}

#[test]
fn trim_front_frames_zero_is_noop_even_for_bad_shape() {
    let mut t = FeatureTensor { data: vec![1, 2], shape: vec![5] };
    assert!(t.trim_front_frames(0).is_ok());
    assert_eq!(t.shape, vec![5]);
}
