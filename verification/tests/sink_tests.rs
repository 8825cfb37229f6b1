use keytone::sink::{frame_count, pull_frames, write_data, SinkError};
use keytone::wave::SinWave;

#[test]
fn frames_are_counted_with_the_partial_one() {
    assert_eq!(frame_count(0, 2), Some(0));
    assert_eq!(frame_count(1, 2), Some(1));
    assert_eq!(frame_count(2, 2), Some(1));
    assert_eq!(frame_count(3, 2), Some(2));
    assert_eq!(frame_count(512, 2), Some(256));
    assert_eq!(frame_count(7, 1), Some(7));
    assert_eq!(frame_count(10, 6), Some(2));
    assert_eq!(frame_count(5, 8), Some(1));
    assert_eq!(frame_count(usize::MAX, 1), Some(usize::MAX));
    assert_eq!(frame_count(usize::MAX, 2), Some(usize::MAX / 2 + 1));
    assert_eq!(frame_count(usize::MAX, usize::MAX), Some(1));
}

#[test]
fn no_channels_means_no_frames() {
    assert_eq!(frame_count(0, 0), None);
    assert_eq!(frame_count(16, 0), None);
}

#[test]
fn each_frame_carries_one_sample_on_every_channel() {
    let mut buffer = [0.0f32; 8];
    let samples = [0.25f32, -0.5, 0.75, -1.0];
    assert_eq!(write_data(&mut buffer, 2, &samples), Ok(4));
    assert_eq!(buffer, [0.25, 0.25, -0.5, -0.5, 0.75, 0.75, -1.0, -1.0]);
}

#[test]
fn mono_buffer_takes_the_samples_as_they_are() {
    let mut buffer = [0i16; 5];
    let samples = [10i16, 20, 30, 40, 50];
    assert_eq!(write_data(&mut buffer, 1, &samples), Ok(5));
    assert_eq!(buffer, samples);
}

#[test]
fn leftover_slots_form_a_partial_frame() {
    let mut buffer = [0u8; 7];
    let samples = [1u8, 2, 3];
    assert_eq!(write_data(&mut buffer, 3, &samples), Ok(3));
    assert_eq!(buffer, [1, 1, 1, 2, 2, 2, 3]);
}

#[test]
fn surplus_samples_are_left_unused() {
    let mut buffer = [0i32; 4];
    let samples = [5i32, 6, 7, 8, 9];
    assert_eq!(write_data(&mut buffer, 2, &samples), Ok(2));
    assert_eq!(buffer, [5, 5, 6, 6]);
}

#[test]
fn empty_buffer_takes_no_sample() {
    let mut buffer: [f32; 0] = [];
    assert_eq!(write_data(&mut buffer, 2, &[]), Ok(0));
    assert_eq!(write_data(&mut buffer, 2, &[0.5]), Ok(0));
}

#[test]
fn buffer_without_channels_is_left_untouched() {
    let mut buffer = [9i32; 4];
    assert_eq!(write_data(&mut buffer, 0, &[1, 2, 3, 4]), Err(SinkError::NoChannels));
    assert_eq!(buffer, [9; 4]);
    let mut empty: [i32; 0] = [];
    assert_eq!(write_data(&mut empty, 0, &[]), Err(SinkError::NoChannels));
}

#[test]
fn buffer_with_too_few_samples_is_left_untouched() {
    let mut buffer = [9i32; 5];
    assert_eq!(write_data(&mut buffer, 2, &[1, 2]), Err(SinkError::TooFewSamples));
    assert_eq!(buffer, [9; 5]);
    assert_eq!(write_data(&mut buffer, 2, &[1, 2, 3]), Ok(3));
    assert_eq!(buffer, [1, 1, 2, 2, 3]);
}

#[test]
fn one_sample_is_pulled_for_each_frame() {
    let mut tone = SinWave::new(440.0f64.to_bits()).unwrap();
    let points = pull_frames(&mut tone, 512, 2).unwrap();
    assert_eq!(points.len(), 256);
    assert_eq!(points[0].t, 0);
    assert_eq!(points[255].t, 255);
    assert_eq!(tone.sample_index(), 256);
    let points = pull_frames(&mut tone, 9, 4).unwrap();
    assert_eq!(points.len(), 3);
    assert_eq!(points[0].t, 256);
    assert_eq!(tone.sample_index(), 259);
}

#[test]
fn nothing_is_pulled_without_channels_or_samples() {
    let mut tone = SinWave::new(440.0f64.to_bits()).unwrap();
    assert_eq!(pull_frames(&mut tone, 512, 0), None);
    assert_eq!(tone.sample_index(), 0);
    let mut late = SinWave::starting_at(440.0f64.to_bits(), u64::MAX - 2).unwrap();
    assert_eq!(pull_frames(&mut late, 6, 2), None);
    assert_eq!(late.sample_index(), u64::MAX - 2);
    assert_eq!(pull_frames(&mut late, 4, 2).unwrap().len(), 2);
    assert_eq!(late.sample_index(), u64::MAX);
}

#[test]
fn callback_fills_a_stereo_buffer_with_a_tone() {
    let mut tone = SinWave::new(11000.0f64.to_bits()).unwrap();
    let mut buffer = [0.0f32; 8];
    let points = pull_frames(&mut tone, buffer.len(), 2).unwrap();
    let samples: Vec<f32> = points
        .iter()
        .map(|point| {
            let hz = f64::from_bits(point.hz_bits);
            (2.0 * std::f64::consts::PI * hz * (point.t as f64) / 44000.0).sin() as f32
        })
        .collect();
    assert_eq!(write_data(&mut buffer, 2, &samples), Ok(4));
    let expected = [0.0f32, 0.0, 1.0, 1.0, 0.0, 0.0, -1.0, -1.0];
    for (got, want) in buffer.iter().zip(expected.iter()) {
        assert!((got - want).abs() < 1e-6);
    }
}
