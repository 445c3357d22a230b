use sine_synth::config::{max_amplitude, RenderConfig};
use sine_synth::header::pcm_header;
use sine_synth::phase::PhaseCounter;
use sine_synth::quantize::quantize;
use sine_synth::render::Renderer;

#[test]
fn max_amplitude_of_sixteen_bits() {
    assert_eq!(max_amplitude(16), 32767);
    assert_eq!(max_amplitude(8), 127);
    assert_eq!(max_amplitude(1), 0);
    assert_eq!(max_amplitude(32), 2147483647);
    assert_eq!(RenderConfig::reference().max_amplitude(), 32767);
}

#[test]
fn quantize_full_scale_is_symmetric() {
    let max = max_amplitude(16) as f32;
    let high = (1.0_f32 * max).round() as i64;
    let low = (-1.0_f32 * max).round() as i64;
    assert_eq!(quantize(high, 16), 32767);
    assert_eq!(quantize(low, 16), -32767);
}

#[test]
fn quantize_clamps_out_of_range() {
    assert_eq!(quantize(40000, 16), 32767);
    assert_eq!(quantize(-40000, 16), -32768);
    assert_eq!(quantize(-32768, 16), -32768);
    assert_eq!(quantize(i64::MAX, 32), 2147483647);
    assert_eq!(quantize(i64::MIN, 32), -2147483648);
    assert_eq!(quantize(200, 8), 127);
    assert_eq!(quantize(12, 8), 12);
    assert_eq!(quantize(0, 16), 0);
}

#[test]
fn config_rejects_bad_bit_depth() {
    assert!(RenderConfig::new(44100, 2000, 0).is_none());
    assert!(RenderConfig::new(44100, 2000, 33).is_none());
    let c = RenderConfig::new(48000, 500, 24).unwrap();
    assert_eq!(c.sample_rate, 48000);
    assert_eq!(c.duration_ms, 500);
    assert_eq!(c.bit_depth, 24);
}

#[test]
fn reference_frame_count() {
    let c = RenderConfig::reference();
    assert_eq!(c.sample_rate, 44100);
    assert_eq!(c.duration_ms, 2000);
    assert_eq!(c.bit_depth, 16);
    assert_eq!(c.frame_count(), 88200);
}

#[test]
fn frame_count_rounds_to_nearest() {
    // 44100 Hz for 1 ms is 44.1 frames; for 3 ms it is 132.3; 10 ms of
    // 150 Hz is 1.5 frames, which rounds up.
    assert_eq!(RenderConfig::new(44100, 1, 16).unwrap().frame_count(), 44);
    assert_eq!(RenderConfig::new(44100, 3, 16).unwrap().frame_count(), 132);
    assert_eq!(RenderConfig::new(150, 10, 16).unwrap().frame_count(), 2);
    assert_eq!(RenderConfig::new(44100, 0, 16).unwrap().frame_count(), 0);
    let big = RenderConfig::new(u32::MAX, u32::MAX, 16).unwrap();
    assert_eq!(big.frame_count(), ((u32::MAX as u64) * (u32::MAX as u64) + 500) / 1000);
}

#[test]
fn renderer_rejects_empty_pool() {
    assert!(Renderer::new(RenderConfig::reference(), 0, 7).is_none());
}

#[test]
fn reference_render_has_88200_samples() {
    let mut r = Renderer::new(RenderConfig::reference(), 3, 1).unwrap();
    assert_eq!(r.frame_total(), 88200);
    assert_eq!(r.pool_len(), 3);
    while !r.is_done() {
        let i = r.next_source();
        assert!(i < 3);
        r.accept(i as i64);
    }
    let out = r.finish_pcm16();
    assert_eq!(out.len(), 88200);
}

#[test]
fn accept_appends_quantized_samples_in_order() {
    let config = RenderConfig::new(1000, 5, 16).unwrap();
    let mut r = Renderer::new(config, 1, 0).unwrap();
    assert_eq!(r.frame_total(), 5);
    let inputs: [i64; 5] = [0, 32767, -32767, 50000, -50000];
    for v in inputs {
        assert!(!r.is_done());
        assert_eq!(r.next_source(), 0);
        r.accept(v);
    }
    assert!(r.is_done());
    assert_eq!(r.samples(), &vec![0, 32767, -32767, 32767, -32768]);
    assert_eq!(r.finish(), vec![0, 32767, -32767, 32767, -32768]);
}

#[test]
fn pcm16_output_keeps_values() {
    let config = RenderConfig::new(1000, 3, 12).unwrap();
    let mut r = Renderer::new(config, 2, 5).unwrap();
    r.accept(3000);
    r.accept(-2047);
    r.accept(-9000);
    assert_eq!(r.finish_pcm16(), vec![2047i16, -2047, -2048]);
}

#[test]
fn pool_selection_is_uniform() {
    let config = RenderConfig::new(100000, 1000, 16).unwrap();
    let mut r = Renderer::new(config, 3, 42).unwrap();
    let mut counts = [0u32; 3];
    for _ in 0..100000 {
        counts[r.next_source()] += 1;
    }
    assert_eq!(r.picks(), &vec![counts[0] as u64, counts[1] as u64, counts[2] as u64]);
    assert_eq!(r.draws(), 100000);
    for c in counts {
        let share = c as f64 / 100000.0;
        assert!((share - 1.0 / 3.0).abs() < 0.01, "share {}", share);
    }
}

#[test]
fn same_seed_same_choices() {
    let mut a = Renderer::new(RenderConfig::reference(), 3, 9).unwrap();
    let mut b = Renderer::new(RenderConfig::reference(), 3, 9).unwrap();
    for _ in 0..100 {
        assert_eq!(a.next_source(), b.next_source());
    }
}

#[test]
#[allow(deprecated)]
fn pcm_header_for_reference() {
    let h = pcm_header(&RenderConfig::reference()).unwrap();
    assert_eq!(h.audio_format, 1);
    assert_eq!(h.channel_count, 1);
    assert_eq!(h.sampling_rate, 44100);
    assert_eq!(h.bits_per_sample, 16);
    assert_eq!(h.bytes_per_sample, 2);
    assert_eq!(h.bytes_per_second, 88200);
}

#[test]
fn pcm_header_rejects_other_depths_and_huge_rates() {
    assert!(pcm_header(&RenderConfig::new(44100, 2000, 24).unwrap()).is_none());
    assert!(pcm_header(&RenderConfig::new(u32::MAX, 2000, 16).unwrap()).is_none());
    assert!(pcm_header(&RenderConfig::new(u32::MAX / 2, 2000, 16).unwrap()).is_some());
}

#[test]
fn full_scale_is_symmetric_at_other_depths() {
    for depth in [1u32, 8, 12, 24, 32] {
        let max = max_amplitude(depth);
        assert_eq!(quantize(max, depth) as i64, max);
        assert_eq!(quantize(-max, depth) as i64, -max);
        assert_eq!(quantize(-max - 1, depth) as i64, -max - 1);
    }
}

#[test]
fn phase_starts_at_zero_and_samples_before_advancing() {
    let mut p = PhaseCounter::new();
    assert_eq!(p.steps(), 0);
    assert_eq!(p.advance(), 0);
    assert_eq!(p.steps(), 1);
    assert_eq!(p.advance(), 1);
    assert_eq!(p.steps(), 2);
}

#[test]
fn phase_after_k_calls_is_k_increments() {
    let mut p = PhaseCounter::new();
    for k in 0..88200u64 {
        assert_eq!(p.advance(), k);
    }
    assert_eq!(p.steps(), 88200);
}

#[test]
fn quarter_period_samples_from_phase_steps() {
    // Frequency a quarter of the sample rate: the increment is pi / 2.
    let increment = 2.0 * std::f32::consts::PI * 11025.0 / 44100.0;
    let mut p = PhaseCounter::new();
    let expected = [0.0f32, 1.0, 0.0, -1.0];
    for e in expected {
        let k = p.advance();
        assert!(((k as f32 * increment).sin() - e).abs() < 1e-5);
    }
}

#[test]
fn first_two_samples_at_440_hz() {
    let increment = 2.0 * std::f32::consts::PI * 440.0 / 44100.0;
    let mut p = PhaseCounter::new();
    let first = 0.5 * (p.advance() as f32 * increment).sin();
    assert_eq!(first, 0.0);
    let second = 0.5 * (p.advance() as f32 * increment).sin();
    assert_eq!(second, 0.5 * increment.sin());
}

#[test]
fn each_choice_advances_only_the_chosen_member() {
    let mut r = Renderer::new(RenderConfig::reference(), 3, 11).unwrap();
    assert_eq!(r.picks(), &vec![0u64, 0, 0]);
    assert_eq!(r.draws(), 0);
    for _ in 0..50 {
        let before = r.picks().clone();
        let i = r.next_source();
        for j in 0..3 {
            let bump = if j == i { 1 } else { 0 };
            assert_eq!(r.picks()[j], before[j] + bump);
        }
    }
    assert_eq!(r.draws(), 50);
    assert_eq!(r.picks().iter().sum::<u64>(), 50);
}
