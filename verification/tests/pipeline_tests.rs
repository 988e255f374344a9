use voxmorph::error::{ConvertError, InferError, ModelError, VoxError};
use voxmorph::frame::{
    ring_buffer_capacity, Frame, FrameAdapter, FrameAdapterConfig, MetricsSnapshot, PassthroughStage,
    PipelineConfig, RealtimeEngineConfig, Stage,
};
use voxmorph::infer::{default_execution_providers, EpDescriptor, Tensor, TensorData};
use voxmorph::stages::{trim_front, ConvertInputLayout, VocoderInputLayout};
use voxmorph::stream::{stream_sizes, try_stream_sizes, RvcStreamBuffers};
use voxmorph::ui::{describe_devices, ui_transition, DeviceInfo, UiEvent, UiState};
use voxmorph::worker::{feed_report, stage_output_frame, stage_report, SendOutcome};

fn bits(v: &[f32]) -> Vec<u32> {
    v.iter().map(|x| x.to_bits()).collect()
}

fn adapter(frame_size: usize, channels: u16) -> FrameAdapter {
    FrameAdapter::new(FrameAdapterConfig { frame_size, channels, sample_rate: 16000 })
}

#[test]
fn capture_packs_into_frames() {
    let mut a = adapter(4, 1);
    let frames = a.pack(&bits(&[1.0, 2.0, 3.0, 4.0, 5.0, 6.0, 7.0, 8.0]));
    assert_eq!(frames.len(), 2, "should produce 2 frames of 4 samples each");
    assert_eq!(frames[0].samples, bits(&[1.0, 2.0, 3.0, 4.0]));
    assert_eq!(frames[1].samples, bits(&[5.0, 6.0, 7.0, 8.0]));
    assert_eq!(frames[0].timestamp, 0);
    assert_eq!(frames[1].timestamp, 4);
}

#[test]
fn capture_accumulates_partial_frames() {
    let mut a = adapter(4, 1);
    let frames = a.pack(&bits(&[1.0, 2.0, 3.0]));
    assert!(frames.is_empty(), "no complete frame yet");
    assert_eq!(a.accumulated_samples(), 3);
    let remaining = a.flush_remaining().unwrap();
    assert_eq!(remaining.samples, bits(&[1.0, 2.0, 3.0, 0.0]));
}

#[test]
fn capture_stereo_frames() {
    let mut a = adapter(2, 2);
    let frames = a.pack(&bits(&[1.0, 2.0, 3.0, 4.0, 5.0, 6.0, 7.0, 8.0]));
    assert_eq!(frames.len(), 2, "2 frames of 2 samples each (stereo)");
    assert_eq!(frames[0].samples, bits(&[1.0, 2.0, 3.0, 4.0]));
    assert_eq!(frames[0].channels, 2);
}

#[test]
fn capture_empty_source_returns_no_frames() {
    let mut a = adapter(4, 1);
    let frames = a.pack(&[]);
    assert!(frames.is_empty());
}

#[test]
fn reset_clears_accumulation() {
    let mut a = adapter(4, 1);
    let _ = a.pack(&bits(&[1.0, 2.0]));
    assert_eq!(a.accumulated_samples(), 2);
    a.reset();
    assert_eq!(a.accumulated_samples(), 0);
    assert_eq!(a.timestamp(), 0);
}

#[test]
fn flush_empty_returns_none() {
    let mut a = adapter(4, 1);
    assert!(a.flush_remaining().is_none());
}

#[test]
fn from_source_extracts_params() {
    let config = FrameAdapterConfig::for_stream(2, 48000);
    assert_eq!(config.sample_rate, 48000);
    assert_eq!(config.channels, 2);
    assert_eq!(config.frame_size, 512);
}

#[test]
fn pack_conserves_samples_across_calls() {
    let mut a = adapter(3, 1);
    let mut all = Vec::new();
    let mut stamps = Vec::new();
    for chunk in [vec![1u32, 2], vec![3, 4, 5, 6, 7], vec![], vec![8, 9, 10]] {
        for f in a.pack(&chunk) {
            stamps.push(f.timestamp);
            all.extend(f.samples);
        }
    }
    assert_eq!(all, (1..=9).collect::<Vec<u32>>());
    assert_eq!(stamps, vec![0, 3, 6]);
    assert_eq!(a.accumulated_samples(), 1);
    let last = a.flush_remaining().unwrap();
    assert_eq!(last.samples, vec![10, 0, 0]);
    assert_eq!(last.timestamp, 9);
    assert_eq!(a.timestamp(), 12);
}

#[test]
fn passthrough_copies_frame() {
    let mut stage = PassthroughStage::new();
    let input = Frame { samples: bits(&[0.1, 0.2, 0.3]), sample_rate: 16000, channels: 1, timestamp: 42 };
    let mut output = Frame { samples: Vec::new(), sample_rate: 0, channels: 0, timestamp: 0 };
    stage.process(&input, &mut output).unwrap();
    assert_eq!(output.samples, input.samples);
    assert_eq!(output.sample_rate, 16000);
    assert_eq!(output.channels, 1);
    assert_eq!(output.timestamp, 42);
}

#[test]
fn default_config_is_16k_mono_32ms() {
    let cfg = PipelineConfig::default();
    assert_eq!(cfg.sample_rate, 16000);
    assert_eq!(cfg.channels, 1);
    assert_eq!(cfg.frame_size, 512);
    assert_eq!(cfg.channel_capacity, 3);
    let ms = cfg.frame_size as f32 * 1000.0 / cfg.sample_rate as f32;
    assert!((ms - 32.0).abs() < 0.1, "frame_ms should be ~32, got {ms}");
}

#[test]
fn realtime_engine_config_defaults() {
    let cfg = RealtimeEngineConfig::default();
    assert_eq!(cfg.frame_size, 512);
    assert_eq!(cfg.channel_capacity, 4);
    assert_eq!(cfg.poll_interval_ms, 5);
    let a = cfg.adapter_config(2, 44100);
    assert_eq!(a.frame_size, 512);
    assert_eq!(a.channels, 2);
    assert_eq!(a.sample_rate, 44100);
}

#[test]
fn metrics_snapshot_default_is_zero() {
    let m = MetricsSnapshot::default();
    assert_eq!(
        (m.input_frames, m.output_frames, m.dropped_frames, m.error_count, m.last_infer_us),
        (0, 0, 0, 0, 0)
    );
}

#[test]
fn frame_zero_and_counts() {
    let f = Frame::zero(48000, 2, 10);
    assert_eq!(f.samples.len(), 20);
    assert!(f.samples.iter().all(|s| *s == 0));
    assert_eq!(f.frame_count(), 10);
    let mono = Frame::zero(16000, 0, 7);
    assert_eq!(mono.samples.len(), 7);
    assert_eq!(mono.frame_count(), 7);
    let g = Frame { samples: vec![1, 2, 3], sample_rate: 8000, channels: 1, timestamp: 9 };
    let s = g.silent_like();
    assert_eq!(s.samples, vec![0, 0, 0]);
    assert_eq!(s.timestamp, 9);
}

#[test]
fn ring_buffer_holds_a_tenth_of_a_second() {
    assert_eq!(ring_buffer_capacity(48000, 2), 9600);
    assert_eq!(ring_buffer_capacity(16000, 1), 4096);
}

#[test]
fn new_state_is_empty() {
    let state = RvcStreamBuffers::new(48000);
    assert!(state.audio_buffer.is_empty());
    assert!(state.audio_16k_buffer.is_empty());
    assert_eq!(state.sample_rate, 0);
}

#[test]
fn reset_clears_buffers() {
    let mut state = RvcStreamBuffers::new(48000);
    state.audio_buffer = bits(&[1.0, 2.0, 3.0]);
    state.audio_16k_buffer = vec![0.5f32.to_bits(); 100];
    state.sample_rate = 48000;
    state.reset();
    assert!(state.audio_buffer.is_empty());
    assert!(state.audio_16k_buffer.is_empty());
    assert_eq!(state.sample_rate, 0);
}

#[test]
fn stream_sizes_for_a_48k_chunk() {
    // 4800 samples at 48 kHz = 1600 at 16 kHz; 2400 extra at 48 kHz = 800;
    // 2400 aligned up to 320 -> 2560; back to 48 kHz -> 7680.
    let s = stream_sizes(4800, 48000, 48000, 2400);
    assert_eq!(s.new_16k_samples, 1600);
    assert_eq!(s.new_feature_len, 10);
    assert_eq!(s.extra_16k_samples, 800);
    assert_eq!(s.convert_size_16k, 2560);
    assert_eq!(s.convert_size, 7680);
    assert_eq!(s.out_size, 5280);
    assert_eq!(s.feature_size, 16);
}

#[test]
fn stream_buffers_fit_windows() {
    let mut state = RvcStreamBuffers::new(48000);
    assert!(state.start_chunk(48000));
    assert!(!state.start_chunk(48000));
    let s = stream_sizes(4800, 48000, 48000, 2400);
    let audio: Vec<u32> = (1..=4800).collect();
    let audio_16k: Vec<u32> = (1..=1600).collect();
    state.commit_chunk(&audio, &audio_16k, &s);
    assert_eq!(state.audio_window().len(), 7680);
    assert_eq!(state.audio_16k_window().len(), 2560);
    assert_eq!(state.pitchf_buffer.len(), 16);
    assert_eq!(state.audio_window()[7680 - 4800 - 1], 0);
    assert_eq!(state.audio_window()[7680 - 4800], 1);
    assert_eq!(*state.audio_window().last().unwrap(), 4800);
    assert_eq!(state.audio_16k_window()[2560 - 1600], 1);
    // A sample-rate change clears everything.
    assert!(state.start_chunk(44100));
    assert!(state.audio_window().is_empty());
    assert_eq!(state.sample_rate, 44100);
}

#[test]
fn stage_reports() {
    let r = stage_report(true, SendOutcome::Sent);
    assert!(!r.error && !r.dropped && !r.exit);
    let r = stage_report(false, SendOutcome::Full);
    assert!(r.error && r.dropped && !r.exit);
    let r = stage_report(true, SendOutcome::Disconnected);
    assert!(!r.error && !r.dropped && r.exit);
    assert_eq!(feed_report(SendOutcome::Sent), (true, false));
    assert_eq!(feed_report(SendOutcome::Full), (false, true));
    assert_eq!(feed_report(SendOutcome::Disconnected), (false, false));
}

#[test]
fn error_stage_produces_silence_frame() {
    let cfg = PipelineConfig { sample_rate: 16000, channels: 2, frame_size: 4, channel_capacity: 2 };
    let f = stage_output_frame(&cfg, 77);
    assert_eq!(f.samples.len(), 16);
    assert!(f.samples.iter().all(|s| *s == 0));
    assert_eq!(f.timestamp, 77);
    assert_eq!(f.channels, 2);
}

#[test]
fn build_inputs_shapes() {
    let layout = ConvertInputLayout::default_hubert();
    let embedding = vec![0.1f32.to_bits(); 256];
    let inputs = layout.build_inputs(&vec![0.5f32.to_bits(); 768], &embedding);
    assert_eq!(inputs.len(), 2);
    assert_eq!(inputs[0].shape, vec![1, 1, 768]);
    assert_eq!(inputs[1].shape, vec![1, 256]);
    assert_eq!(inputs[1].as_f32().unwrap(), embedding.as_slice());
}

#[test]
fn build_inputs_ragged_counts_each_value() {
    let layout = ConvertInputLayout::default_hubert();
    let inputs = layout.build_inputs(&[1, 2, 3], &[]);
    assert_eq!(inputs[0].shape, vec![1, 3, 768]);
    assert_eq!(inputs[1].shape, vec![1, 256]);
}

#[test]
fn build_input_shapes() {
    let layout = VocoderInputLayout::default_16k();
    let tensor = layout.build_input(&vec![0.5f32.to_bits(); 512]);
    assert_eq!(tensor.shape, vec![1, 2, 256]);
}

#[test]
fn output_sample_rate_matches_layout() {
    let layout = VocoderInputLayout::default_16k();
    let f = layout.silent_output(5, 3);
    assert_eq!(f.sample_rate, 16000);
    assert_eq!(f.samples, vec![0, 0, 0]);
    assert_eq!(f.channels, 1);
    assert_eq!(f.timestamp, 5);
}

#[test]
fn trim_front_drops_only_when_longer() {
    let mut v = vec![1, 2, 3, 4];
    trim_front(&mut v, 1);
    assert_eq!(v, vec![2, 3, 4]);
    trim_front(&mut v, 3);
    assert_eq!(v, vec![2, 3, 4]);
}

#[test]
fn tensor_accessors() {
    let t = Tensor::float(vec![1, 2, 3, 4, 5, 6], vec![2, 3]);
    assert_eq!(t.len(), 6);
    assert!(!t.is_empty());
    assert_eq!(t.as_f32().unwrap(), &[1u32, 2, 3, 4, 5, 6][..]);
    assert!(t.as_i64().is_none());
    let i = Tensor::i64(vec![7, 8], vec![2]);
    assert_eq!(i.as_i64().unwrap(), &[7i64, 8][..]);
    assert!(i.as_f32().is_none());
    let e = Tensor::new(vec![1, 0, 5]);
    assert!(e.is_empty());
    assert!(matches!(e.data, TensorData::F32(ref v) if v.is_empty()));
}

#[test]
fn default_eps_in_priority_order() {
    let eps = default_execution_providers();
    assert_eq!(eps[0], EpDescriptor::Cuda);
    assert_eq!(eps[1], EpDescriptor::DirectML);
    assert_eq!(eps[2], EpDescriptor::CoreML);
    assert_eq!(eps[3], EpDescriptor::Cpu);
}

#[test]
fn ep_descriptor_is_copy() {
    let ep = EpDescriptor::Cuda;
    let ep_copy = ep;
    assert_eq!(ep, ep_copy);
}

#[test]
fn ui_start_and_stop() {
    let t = ui_transition(UiState::Idle, UiEvent::StartRequested { running: false });
    assert_eq!(t.state, UiState::Running);
    assert!(t.error.is_none());
    let t = ui_transition(UiState::Running, UiEvent::StartRequested { running: true });
    assert_eq!(t.state, UiState::Running);
    assert_eq!(t.error.as_deref(), Some("engine already running"));
    let t = ui_transition(UiState::Running, UiEvent::StopRequested { running: true });
    assert_eq!(t.state, UiState::Ready);
    let t = ui_transition(UiState::Ready, UiEvent::StopRequested { running: false });
    assert_eq!(t.state, UiState::Ready);
    assert_eq!(t.error.as_deref(), Some("engine not running"));
}

#[test]
fn ui_model_loading() {
    let t = ui_transition(UiState::Idle, UiEvent::RvcStartRequested { running: false });
    assert_eq!(t.state, UiState::LoadingModel);
    let t = ui_transition(UiState::LoadingModel, UiEvent::ModelsLoaded { result: Err("bad model".to_string()) });
    assert_eq!(t.state, UiState::Error);
    assert_eq!(t.error.as_deref(), Some("bad model"));
    let t = ui_transition(UiState::LoadingModel, UiEvent::ModelsLoaded { result: Ok(()) });
    assert_eq!(t.state, UiState::Running);
    let t = ui_transition(UiState::Idle, UiEvent::EngineStarted { running: false });
    assert_eq!(t.state, UiState::Error);
    assert_eq!(t.error.as_deref(), Some("engine failed to start"));
    let t = ui_transition(UiState::Idle, UiEvent::LibraryLoadRequested);
    assert_eq!(t.state, UiState::LoadingModel);
    let t = ui_transition(UiState::LoadingModel, UiEvent::LibraryLoaded { result: Ok(()) });
    assert_eq!(t.state, UiState::Ready);
    let t = ui_transition(UiState::Ready, UiEvent::LibraryLoaded { result: Err("no dir".to_string()) });
    assert_eq!(t.state, UiState::Ready);
    assert_eq!(t.error.as_deref(), Some("no dir"));
}

#[test]
fn devices_marked_default_by_name() {
    let d = DeviceInfo::describe("Mic", 48000, 1, Some("Mic"));
    assert!(d.is_default);
    let d = DeviceInfo::describe("Mic", 48000, 1, None);
    assert!(!d.is_default);
    let list = describe_devices(
        &[("A".to_string(), 44100, 2), ("B".to_string(), 48000, 1)],
        Some("B"),
    );
    assert_eq!(list.len(), 2);
    assert_eq!(list[0].name, "A");
    assert!(!list[0].is_default);
    assert!(list[1].is_default);
    assert_eq!(list[1].sample_rate, 48000);
}

#[test]
fn error_messages() {
    assert_eq!(VoxError::audio("no device").message(), "audio io failure: no device");
    assert_eq!(VoxError::infer("boom").message(), "inference failure: boom");
    assert_eq!(VoxError::invalid_input("rate").message(), "invalid input: rate");
    assert_eq!(VoxError::Dropped.message(), "frame dropped due to backpressure");
    let e = InferError::Load("model.onnx not found".to_string());
    assert_eq!(e.message(), "model load failure: model.onnx not found");
    assert!(matches!(e.into_vox(), VoxError::Infer(ref m) if m == "model load failure: model.onnx not found"));
    assert_eq!(ModelError::NotFound("x".to_string()).message(), "not found: x");
    let c = ConvertError::Model(ModelError::Metadata("bad toml".to_string()));
    assert!(c.message().contains("bad toml"));
}

#[test]
fn try_stream_sizes_checks_fit() {
    assert!(try_stream_sizes(4800, 0, 48000, 2400).is_none());
    assert!(try_stream_sizes(4800, 48000, 0, 2400).is_none());
    assert!(try_stream_sizes(usize::MAX, 48000, 48000, 0).is_none());
    let s = try_stream_sizes(4800, 48000, 48000, 2400).unwrap();
    assert_eq!(s, stream_sizes(4800, 48000, 48000, 2400));
    let t = try_stream_sizes(0, 44100, 40000, 0).unwrap();
    assert_eq!(t.convert_size_16k, 0);
    assert_eq!(t.out_size, 1);
}

#[test]
fn tensor_data_from_samples() {
    let d: TensorData = vec![1u32, 2, 3].into();
    assert_eq!(d.len(), 3);
    assert!(!d.is_empty());
    assert_eq!(d.as_f32().unwrap(), &[1u32, 2, 3][..]);
    assert!(d.as_i64().is_none());
}
