use songdl::waveform::{chunk_peak, frame_amplitude, Frame, Waveform, WAVEFORM_LENGTH};

fn mono(samples: &[i32]) -> Vec<Frame> {
    samples.iter().map(|s| Frame { left: *s, right: *s }).collect()
}

#[test]
fn the_length_is_230() {
    assert_eq!(WAVEFORM_LENGTH, 230);
}

#[test]
fn amplitude_is_the_size_of_the_sum() {
    assert_eq!(frame_amplitude(&Frame { left: 3, right: 4 }), 7);
    assert_eq!(frame_amplitude(&Frame { left: -3, right: -4 }), 7);
    assert_eq!(frame_amplitude(&Frame { left: 5, right: -5 }), 0);
    assert_eq!(frame_amplitude(&Frame { left: i32::MIN, right: i32::MIN }), 1u64 << 32);
    assert_eq!(frame_amplitude(&Frame { left: i32::MAX, right: i32::MAX }), (1u64 << 32) - 2);
}

#[test]
fn chunk_peak_is_the_highest_amplitude() {
    let frames = mono(&[1, -9, 3, 4]);
    assert_eq!(chunk_peak(&frames, 0, 4), 18);
    assert_eq!(chunk_peak(&frames, 2, 4), 8);
    assert_eq!(chunk_peak(&frames, 2, 2), 0);
}

#[test]
fn the_summary_has_230_bars_in_the_unit_range() {
    let samples: Vec<i32> = (0..10_000).map(|i| ((i * 7919) % 2001) - 1000).collect();
    let waveform = Waveform::analyze(&mono(&samples));
    assert_eq!(waveform.peaks.len(), 230);
    assert!(waveform.full_scale > 0);
    assert!(waveform.peaks.iter().all(|p| *p <= waveform.full_scale));
    assert!(waveform.peaks.iter().any(|p| *p == waveform.full_scale));
    for i in 0..230 {
        let (numerator, denominator) = waveform.fraction(i);
        assert!(denominator > 0);
        let height = numerator as f64 / denominator as f64;
        assert!((0.0..=1.0).contains(&height));
    }
}

#[test]
fn each_bar_is_the_peak_of_its_chunk() {
    // 460 frames: chunks of 2.
    let samples: Vec<i32> = (0..460).map(|i| if i % 2 == 0 { i } else { -2 * i }).collect();
    let waveform = Waveform::analyze(&mono(&samples));
    for i in 0..230 {
        assert_eq!(waveform.peaks[i], 2 * 2 * (2 * i as u64 + 1));
    }
    assert_eq!(waveform.full_scale, 2 * 2 * 459);
    assert_eq!(waveform.fraction(0), (4, 1836));
    assert_eq!(waveform.fraction(229), (1836, 1836));
}

#[test]
fn frames_left_over_are_dropped() {
    // 231 frames: chunks of 1, the last frame is in no chunk.
    let mut samples = vec![1; 231];
    samples[230] = 1000;
    let waveform = Waveform::analyze(&mono(&samples));
    assert_eq!(waveform.peaks, vec![2; 230]);
    assert_eq!(waveform.full_scale, 2);
}

#[test]
fn silence_is_flat() {
    let waveform = Waveform::analyze(&mono(&vec![0; 5000]));
    assert_eq!(waveform.peaks, vec![0; 230]);
    assert_eq!(waveform.full_scale, 0);
    assert_eq!(waveform.fraction(17), (0, 1));
}

#[test]
fn channels_that_cancel_are_silence() {
    let frames: Vec<Frame> = (0..460).map(|i| Frame { left: i, right: -i }).collect();
    let waveform = Waveform::analyze(&frames);
    assert_eq!(waveform.peaks, vec![0; 230]);
    assert_eq!(waveform.full_scale, 0);
}

#[test]
fn too_few_frames_are_flat() {
    let waveform = Waveform::analyze(&mono(&vec![500; 229]));
    assert_eq!(waveform.peaks, vec![0; 230]);
    assert_eq!(waveform.full_scale, 0);
    let waveform = Waveform::analyze(&Vec::new());
    assert_eq!(waveform.peaks, vec![0; 230]);
    assert_eq!(waveform.full_scale, 0);
}

#[test]
fn the_default_summary_is_flat() {
    let waveform = Waveform::default();
    assert_eq!(waveform.peaks, vec![0; 230]);
    assert_eq!(waveform.full_scale, 0);
}

#[test]
fn new_keeps_230_peaks_and_nothing_else() {
    let waveform = Waveform::new(vec![3; 230], 5);
    assert_eq!(waveform.peaks, vec![3; 230]);
    assert_eq!(waveform.full_scale, 5);
    let waveform = Waveform::new(vec![3; 229], 5);
    assert_eq!(waveform.peaks, vec![0; 230]);
    assert_eq!(waveform.full_scale, 0);
    let waveform = Waveform::new(vec![3; 231], 5);
    assert_eq!(waveform.peaks, vec![0; 230]);
    assert_eq!(waveform.full_scale, 0);
}

#[test]
fn duplicate_copies_the_summary() {
    let waveform = Waveform::new((0..230).collect(), 229);
    let copy = waveform.duplicate();
    assert_eq!(copy.peaks, waveform.peaks);
    assert_eq!(copy.full_scale, 229);
}
