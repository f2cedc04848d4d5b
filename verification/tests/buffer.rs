use std::time::Duration;
use yee_player::buffer::SamplesBuffer;
use yee_player::sample::Sample;

#[test]
fn whole_frames_are_kept_as_given() {
    let buffer = SamplesBuffer::<i16>::new(2, 44100, vec![1, 2, 3, 4]);
    assert_eq!(buffer.channels(), 2);
    assert_eq!(buffer.sample_rate(), 44100);
    assert_eq!(buffer.len(), 4);
    assert_eq!(buffer.frame_count(), 2);
    for i in 0..4 {
        assert_eq!(buffer.sample(i), (i + 1) as i16);
    }
}

#[test]
fn short_last_frame_is_completed_with_silence() {
    let buffer = SamplesBuffer::<i16>::new(3, 48000, vec![7, 8, 9, 10]);
    assert_eq!(buffer.len(), 6);
    assert_eq!(buffer.frame_count(), 2);
    assert_eq!(buffer.sample(3), 10);
    assert_eq!(buffer.sample(4), 0);
    assert_eq!(buffer.sample(5), 0);
}

#[test]
fn one_sample_short_of_a_stereo_frame() {
    let buffer = SamplesBuffer::<i16>::new(2, 48000, vec![5]);
    assert_eq!(buffer.len(), 2);
    assert_eq!(buffer.sample(0), 5);
    assert_eq!(buffer.sample(1), 0);
}

#[test]
fn empty_buffer_has_no_frames_and_no_duration() {
    let buffer = SamplesBuffer::<i16>::new(1, 48000, Vec::new());
    assert_eq!(buffer.len(), 0);
    assert_eq!(buffer.frame_count(), 0);
    assert_eq!(buffer.get_duration(), Duration::new(0, 0));
}

#[test]
fn duration_of_one_second() {
    let buffer = SamplesBuffer::<i16>::new(1, 48000, vec![0; 48000]);
    assert_eq!(buffer.get_duration(), Duration::new(1, 0));
    let stereo = SamplesBuffer::<i16>::new(2, 48000, vec![0; 96000]);
    assert_eq!(stereo.get_duration(), Duration::new(1, 0));
}

#[test]
fn duration_is_rounded_down_to_nanoseconds() {
    // 3 frames at 44100 Hz last 68027.21... nanoseconds.
    let buffer = SamplesBuffer::<i16>::new(1, 44100, vec![0; 3]);
    assert_eq!(buffer.get_duration(), Duration::new(0, 68027));
    // 100000 frames at 44100 Hz last 2.267573696... seconds.
    let long = SamplesBuffer::<i16>::new(2, 44100, vec![0; 200000]);
    assert_eq!(long.get_duration(), Duration::new(2, 267573696));
}

#[test]
fn duration_counts_the_padding() {
    // Five samples in two channels make three frames.
    let buffer = SamplesBuffer::<i16>::new(2, 1000, vec![1; 5]);
    assert_eq!(buffer.get_duration(), Duration::new(0, 3_000_000));
}

#[test]
fn silence_of_sixteen_bit_samples_is_zero() {
    assert_eq!(<i16 as Sample>::zero_value(), 0);
}

#[test]
fn lerp_moves_from_the_first_sample_towards_the_second() {
    assert_eq!(<i16 as Sample>::lerp(0, 100, 0, 4), 0);
    assert_eq!(<i16 as Sample>::lerp(0, 100, 1, 4), 25);
    assert_eq!(<i16 as Sample>::lerp(0, 100, 4, 4), 100);
    assert_eq!(<i16 as Sample>::lerp(100, 0, 1, 4), 75);
    assert_eq!(<i16 as Sample>::lerp(-100, 100, 1, 2), 0);
}

#[test]
fn lerp_rounds_the_distance_towards_the_first_sample() {
    assert_eq!(<i16 as Sample>::lerp(0, 100, 1, 3), 33);
    assert_eq!(<i16 as Sample>::lerp(100, 0, 1, 3), 67);
    assert_eq!(<i16 as Sample>::lerp(0, -100, 2, 3), -66);
    assert_eq!(<i16 as Sample>::lerp(10, 11, 1, 2), 10);
    assert_eq!(<i16 as Sample>::lerp(11, 10, 1, 2), 11);
}

#[test]
fn lerp_spans_the_whole_range() {
    assert_eq!(<i16 as Sample>::lerp(i16::MIN, i16::MAX, 1, 1), i16::MAX);
    assert_eq!(<i16 as Sample>::lerp(i16::MAX, i16::MIN, 1, 1), i16::MIN);
    assert_eq!(
        <i16 as Sample>::lerp(i16::MIN, i16::MAX, 0x4000_0000, 0x8000_0000),
        -1
    );
    assert_eq!(
        <i16 as Sample>::lerp(i16::MAX, i16::MIN, 0x4000_0000, 0x8000_0000),
        0
    );
}

#[test]
fn unsigned_samples_are_silent_at_mid_range() {
    assert_eq!(<u16 as Sample>::zero_value(), 32768);
    let buffer = SamplesBuffer::<u16>::new(2, 48000, vec![1, 2, 3]);
    assert_eq!(buffer.len(), 4);
    assert_eq!(buffer.sample(3), 32768);
}

#[test]
fn lerp_of_unsigned_samples() {
    assert_eq!(<u16 as Sample>::lerp(0, 65535, 1, 2), 32767);
    assert_eq!(<u16 as Sample>::lerp(65535, 0, 1, 2), 32768);
    assert_eq!(<u16 as Sample>::lerp(100, 200, 3, 4), 175);
    assert_eq!(<u16 as Sample>::lerp(200, 100, 1, 3), 167);
    assert_eq!(<u16 as Sample>::lerp(7, 9, 0, 5), 7);
    assert_eq!(<u16 as Sample>::lerp(7, 9, 5, 5), 9);
}
