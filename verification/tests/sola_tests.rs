use voxmorph::sola::{JoinPlan, JoinStart, SmoothingKind, SolaChunkJoiner, SolaConfig};

fn config(chunk: usize, crossfade: usize, search: usize, tail: usize) -> SolaConfig {
    SolaConfig {
        kind: SmoothingKind::Sola,
        chunk_samples: chunk,
        sample_rate: 48000,
        crossfade_samples: crossfade,
        sola_search_samples: search,
        tail_discard_samples: tail,
    }
}

fn ramp(n: u32) -> Vec<u32> {
    (0..n).collect()
}

#[test]
fn sola_config_from_ms() {
    let config = SolaConfig::from_ms(SmoothingKind::Sola, 4800, 48000, 85, 12, 10);
    assert_eq!(config.chunk_samples, 4800);
    assert_eq!(config.sample_rate, 48000);
    assert_eq!(config.crossfade_samples, 4080);
    assert_eq!(config.sola_search_samples, 576);
    assert_eq!(config.tail_discard_samples, 480);
}

#[test]
fn sola_joiner_first_chunk_primes() {
    let mut joiner = SolaChunkJoiner::new(&config(100, 20, 10, 5));
    let audio = vec![0.5f32.to_bits(); 200];
    let start = joiner.begin(&audio);
    assert_eq!(start, JoinStart::Finished, "first chunk should prime, not join");
    assert_eq!(joiner.output().len(), 100);
    assert!(joiner.output().iter().all(|s| *s == 0));
    assert_eq!(joiner.reference_len(), 20);
}

#[test]
fn sola_joiner_reset_clears_state() {
    let mut joiner = SolaChunkJoiner::new(&config(100, 20, 10, 5));
    joiner.prime(&vec![0.5f32.to_bits(); 200]);
    assert!(joiner.reference_len() > 0);
    joiner.reset();
    assert_eq!(joiner.reference_len(), 0);
    assert!(joiner.output().is_empty());
}

#[test]
fn candidate_audio_drops_tail_and_keeps_window() {
    let joiner = SolaChunkJoiner::new(&config(100, 20, 10, 5));
    let audio = ramp(200);
    let w = joiner.candidate_audio(&audio);
    assert_eq!(w.len(), 130);
    assert_eq!(w[0], 65);
    assert_eq!(w[129], 194);
    let short = ramp(50);
    assert_eq!(joiner.candidate_audio(&short), &short[..45]);
    assert!(joiner.candidate_audio(&ramp(3)).is_empty());
}

#[test]
fn second_chunk_asks_for_search_and_finish_cuts_output() {
    let mut joiner = SolaChunkJoiner::new(&config(100, 20, 10, 5));
    assert_eq!(joiner.begin(&vec![7u32; 200]), JoinStart::Finished);
    let audio = ramp(200);
    let plan = match joiner.begin(&audio) {
        JoinStart::Search(p) => p,
        JoinStart::Finished => panic!("expected a search"),
    };
    assert_eq!(plan, JoinPlan { crossfade_len: 20, max_offset: 10, candidate_len: 30 });
    assert_eq!(joiner.reference(20), &[7u32; 20][..]);
    let used = joiner.finish(&audio, 3);
    assert_eq!(used, 3);
    let out = joiner.output();
    assert_eq!(out.len(), 100);
    assert_eq!(out[0], 68);
    assert_eq!(out[99], 167);
    let expected_ref: Vec<u32> = (168..188).collect();
    assert_eq!(joiner.reference(20), expected_ref.as_slice());
}

#[test]
fn finish_clamps_offset_to_plan() {
    let mut joiner = SolaChunkJoiner::new(&config(100, 20, 10, 5));
    joiner.begin(&vec![7u32; 200]);
    let audio = ramp(200);
    assert!(matches!(joiner.begin(&audio), JoinStart::Search(_)));
    let used = joiner.finish(&audio, 15);
    assert_eq!(used, 10);
    assert_eq!(joiner.output()[0], 75);
    assert_eq!(joiner.output().len(), 100);
    let expected_ref: Vec<u32> = (175..195).collect();
    assert_eq!(joiner.reference(20), expected_ref.as_slice());
}

#[test]
fn no_crossfade_outputs_window_tail() {
    let mut joiner = SolaChunkJoiner::new(&config(4, 0, 2, 0));
    let audio = ramp(10);
    assert_eq!(joiner.begin(&audio), JoinStart::Finished);
    assert_eq!(joiner.output(), &[6u32, 7, 8, 9][..]);
    assert_eq!(joiner.reference_len(), 0);
}

#[test]
fn short_chunk_is_padded_with_leading_silence() {
    let mut joiner = SolaChunkJoiner::new(&config(6, 0, 0, 0));
    joiner.begin(&[5u32, 6, 7]);
    assert_eq!(joiner.output(), &[0u32, 0, 0, 5, 6, 7][..]);
}

#[test]
fn output_length_is_fixed_across_joins() {
    let mut joiner = SolaChunkJoiner::new(&config(32, 8, 4, 2));
    for n in [0u32, 5, 40, 100, 7, 64] {
        let audio = ramp(n);
        match joiner.begin(&audio) {
            JoinStart::Finished => {}
            JoinStart::Search(plan) => {
                joiner.finish(&audio, plan.max_offset / 2);
            }
        }
        assert_eq!(joiner.output().len(), joiner.output_len());
        assert!(joiner.reference_len() <= 8);
    }
    assert_eq!(joiner.output_len(), 32);
}

#[test]
fn zero_chunk_samples_outputs_one_sample() {
    let joiner = SolaChunkJoiner::new(&config(0, 0, 0, 0));
    assert_eq!(joiner.output_len(), 1);
}

#[test]
fn overwrite_output_head_replaces_prefix() {
    let mut joiner = SolaChunkJoiner::new(&config(4, 0, 0, 0));
    joiner.begin(&[1u32, 2, 3, 4]);
    joiner.overwrite_output_head(&[9, 8]);
    assert_eq!(joiner.output(), &[9u32, 8, 3, 4][..]);
}

#[test]
fn joiner_reports_configuration() {
    let mut cfg = config(10, 2, 2, 0);
    cfg.kind = SmoothingKind::Psola;
    cfg.sample_rate = 40000;
    let joiner = SolaChunkJoiner::new(&cfg);
    assert_eq!(joiner.kind(), SmoothingKind::Psola);
    assert_eq!(joiner.sample_rate(), 40000);
}
