use std::sync::Arc;
use std::time::Duration;
use yee_player::buffer::SamplesBuffer;
use yee_player::player::BufferPlayer;
use yee_player::speed::{Speed, SPEED_ONE};

fn mono(samples: Vec<i16>, rate: u32) -> Arc<SamplesBuffer<i16>> {
    Arc::new(SamplesBuffer::new(1, rate, samples))
}

fn ramp(frames: usize) -> Vec<i16> {
    (0..frames).map(|i| (i as i16) * 10).collect()
}

fn half() -> Speed {
    Speed::from_raw((SPEED_ONE / 2) as i64)
}

fn frame_of(player: &BufferPlayer<i16>) -> u128 {
    let time = player.get_time();
    let nanos = time.as_secs() as u128 * 1_000_000_000 + time.subsec_nanos() as u128;
    // Times are rounded down, so the frame is the first whose time is not earlier.
    let rate = player.sample_rate() as u128;
    (nanos * rate + 999_999_999) / 1_000_000_000
}

#[test]
fn new_player_starts_at_normal_speed() {
    let player = BufferPlayer::new(mono(ramp(4), 48000));
    assert_eq!(player.get_speed(), Speed::from_frames(1));
    assert_eq!(player.get_time(), Duration::new(0, 0));
    assert_eq!(player.channels(), 1);
    assert_eq!(player.sample_rate(), 48000);
    assert_eq!(player.current_frame_len(), None);
    assert_eq!(player.total_duration(), None);
}

#[test]
fn normal_speed_yields_the_buffer_then_holds_the_last_frame() {
    let samples: Vec<i16> = vec![3, -4, 5, -6, 7, -8];
    let buffer = Arc::new(SamplesBuffer::new(2, 44100, samples.clone()));
    let mut player = BufferPlayer::new(buffer);
    for want in &samples {
        assert_eq!(player.next(), Some(*want));
    }
    for _ in 0..5 {
        assert_eq!(player.next(), Some(7));
        assert_eq!(player.next(), Some(-8));
    }
    assert_eq!(frame_of(&player), 2);
}

#[test]
fn normal_speed_mono() {
    let samples = ramp(100);
    let mut player = BufferPlayer::new(mono(samples.clone(), 8000));
    for want in &samples {
        assert_eq!(player.next(), Some(*want));
    }
    assert_eq!(player.next(), Some(990));
    assert_eq!(player.next(), Some(990));
}

#[test]
fn empty_buffer_yields_silence() {
    let mut player = BufferPlayer::new(mono(Vec::new(), 48000));
    for _ in 0..10 {
        assert_eq!(player.next(), Some(0));
    }
    assert_eq!(player.get_time(), Duration::new(0, 0));
}

#[test]
fn paused_player_yields_silence_and_rests() {
    let mut player = BufferPlayer::new(mono(ramp(10), 48000));
    assert_eq!(player.next(), Some(0));
    assert_eq!(player.next(), Some(10));
    player.set_speed(Speed::from_raw(0));
    for _ in 0..10 {
        assert_eq!(player.next(), Some(0));
    }
    assert_eq!(frame_of(&player), 2);
    player.set_speed(Speed::from_frames(1));
    assert_eq!(player.next(), Some(20));
}

#[test]
fn speed_below_one_frame_a_second_is_a_pause() {
    let mut player = BufferPlayer::new(mono(ramp(10), 4));
    // A quarter of a frame per second at four frames per second is just not a pause.
    player.set_speed(Speed::from_raw((SPEED_ONE / 4) as i64 - 1));
    for _ in 0..20 {
        assert_eq!(player.next(), Some(0));
    }
    assert_eq!(frame_of(&player), 0);
    player.set_speed(Speed::from_raw((SPEED_ONE / 4) as i64));
    for _ in 0..4 {
        player.next();
    }
    assert_eq!(frame_of(&player), 1);
}

#[test]
fn whole_speeds_step_by_frames_and_hold_at_the_ends() {
    for (step, start, frames, want) in [
        (2i32, 0u64, 3usize, 6u128),
        (2, 0, 10, 9),
        (3, 1, 2, 7),
        (-1, 5, 3, 2),
        (-1, 5, 9, 0),
        (-4, 9, 2, 1),
        (-4, 9, 3, 0),
        (1, 9, 5, 9),
    ] {
        let mut player = BufferPlayer::new(Arc::new(SamplesBuffer::new(
            2,
            1000,
            ramp(20),
        )));
        player.set_time(Duration::from_millis(start));
        player.set_speed(Speed::from_frames(step));
        for _ in 0..frames * 2 {
            player.next();
        }
        assert_eq!(frame_of(&player), want, "step {} from {}", step, start);
    }
}

#[test]
fn double_speed_skips_every_other_frame() {
    let mut player = BufferPlayer::new(mono(ramp(10), 1000));
    player.set_speed(Speed::from_frames(2));
    let heard: Vec<i16> = (0..6).map(|_| player.next().unwrap()).collect();
    assert_eq!(heard, vec![0, 20, 40, 60, 80, 90]);
}

#[test]
fn reverse_plays_backwards() {
    let mut player = BufferPlayer::new(mono(ramp(5), 1000));
    player.set_time(Duration::from_millis(4));
    player.set_speed(Speed::from_frames(-1));
    let heard: Vec<i16> = (0..7).map(|_| player.next().unwrap()).collect();
    assert_eq!(heard, vec![40, 30, 20, 10, 0, 0, 0]);
}

#[test]
fn looping_wraps_round_in_both_directions() {
    let mut player = BufferPlayer::new(mono(ramp(5), 1000));
    player.set_loop_mode(true);
    let heard: Vec<i16> = (0..12).map(|_| player.next().unwrap()).collect();
    assert_eq!(heard, vec![0, 10, 20, 30, 40, 0, 10, 20, 30, 40, 0, 10]);
    player.set_speed(Speed::from_frames(-2));
    let heard: Vec<i16> = (0..6).map(|_| player.next().unwrap()).collect();
    assert_eq!(heard, vec![20, 0, 30, 10, 40, 20]);
}

#[test]
fn looping_never_leaves_the_buffer() {
    for raw in [
        (SPEED_ONE as i64) * 7 / 3,
        -(SPEED_ONE as i64) * 7 / 3,
        (SPEED_ONE as i64) * 1000 + 12345,
        -(SPEED_ONE as i64) / 3,
        i64::MAX,
        i64::MIN,
    ] {
        let mut player = BufferPlayer::new(Arc::new(SamplesBuffer::new(2, 48000, ramp(14))));
        player.set_loop_mode(true);
        player.set_speed(Speed::from_raw(raw));
        for _ in 0..500 {
            player.next();
            assert!(frame_of(&player) < 7, "speed {}", raw);
        }
    }
}

#[test]
fn looping_at_a_whole_speed_is_periodic() {
    // Six frames at a speed of four: the greatest common divisor is two,
    // so the cursor is back after three frames.
    let mut player = BufferPlayer::new(mono(ramp(6), 1000));
    player.set_loop_mode(true);
    player.set_speed(Speed::from_frames(4));
    player.set_time(Duration::from_millis(1));
    let heard: Vec<i16> = (0..12).map(|_| player.next().unwrap()).collect();
    assert_eq!(&heard[0..3], &[10, 50, 30]);
    for i in 0..9 {
        assert_eq!(heard[i + 3], heard[i]);
    }
}

#[test]
fn seek_then_time_is_within_a_frame() {
    let mut player = BufferPlayer::new(mono(ramp(44100), 44100));
    for nanos in [0u64, 1, 22_675, 22_676, 500_000_000, 999_977_324, 999_999_999] {
        let asked = Duration::from_nanos(nanos);
        player.set_time(asked);
        let got = player.get_time();
        assert!(got <= asked);
        assert!(asked - got < Duration::from_nanos(22_676 + 1), "at {}", nanos);
    }
}

#[test]
fn seek_past_the_end_stops_at_the_last_frame() {
    let buffer = mono(ramp(1000), 1000);
    let mut player = BufferPlayer::new(Arc::clone(&buffer));
    player.set_time(Duration::new(5, 0));
    assert_eq!(player.get_time(), Duration::from_millis(999));
    assert!(buffer.get_duration() - player.get_time() <= Duration::from_millis(1));
    assert_eq!(player.next(), Some(9990));
    player.set_time(Duration::new(u64::MAX, 999_999_999));
    assert_eq!(player.get_time(), Duration::from_millis(999));
}

#[test]
fn seek_in_an_empty_buffer_stays_at_the_start() {
    let mut player = BufferPlayer::new(mono(Vec::new(), 1000));
    player.set_time(Duration::new(5, 0));
    assert_eq!(player.get_time(), Duration::new(0, 0));
}

#[test]
fn exact_seek_times() {
    let mut player = BufferPlayer::new(mono(ramp(100), 3));
    player.set_time(Duration::new(1, 0));
    assert_eq!(player.next(), Some(30));
    player.set_time(Duration::new(0, 666_666_666));
    assert_eq!(player.get_time(), Duration::new(0, 333_333_333));
    player.set_time(Duration::new(0, 666_666_667));
    assert_eq!(player.get_time(), Duration::new(0, 666_666_666));
}

#[test]
fn replacing_the_buffer_keeps_the_location() {
    let mut player = BufferPlayer::new(mono(ramp(10), 1000));
    for _ in 0..4 {
        player.next();
    }
    let other: Vec<i16> = (0..10).map(|i| -(i as i16)).collect();
    player.set_buffer(mono(other, 1000));
    assert_eq!(player.next(), Some(-4));
    assert_eq!(player.next(), Some(-5));
}

#[test]
fn shorter_buffer_is_read_at_its_last_sample_until_the_cursor_moves() {
    let mut player = BufferPlayer::new(mono(ramp(10), 1000));
    player.set_time(Duration::from_millis(8));
    player.set_buffer(mono(vec![1, 2, 3], 1000));
    assert_eq!(player.next(), Some(3));
    assert_eq!(frame_of(&player), 2);
    assert_eq!(player.next(), Some(3));
}

#[test]
fn fewer_channels_after_a_swap() {
    let stereo = Arc::new(SamplesBuffer::new(2, 1000, vec![1i16, 2, 3, 4, 5, 6]));
    let mut player = BufferPlayer::new(stereo);
    assert_eq!(player.next(), Some(1));
    // The cursor is at the second channel; the new buffer has one only.
    player.set_buffer(mono(vec![10, 20, 30], 1000));
    assert_eq!(player.next(), Some(20));
    assert_eq!(player.next(), Some(20));
    assert_eq!(player.next(), Some(30));
}

#[test]
fn half_speed_plays_a_ramp_with_midpoints() {
    let frames = 48000usize;
    let samples: Vec<i16> = (0..frames)
        .map(|i| ((i % 16000) as i16) * 2 - 16000)
        .collect();
    let mut player = BufferPlayer::new(mono(samples.clone(), 48000));
    player.set_speed(half());
    for j in 0..frames - 1 {
        let here = samples[j] as i32;
        let ahead = samples[j + 1] as i32;
        assert_eq!(player.next(), Some(samples[j]), "frame {}", j);
        let middle = (here + (ahead - here) / 2) as i16;
        assert_eq!(player.next(), Some(middle), "after frame {}", j);
    }
    // Two samples short of two seconds of output, the cursor has reached
    // the last frame: one second of the buffer but for that frame.
    assert_eq!(player.get_time(), Duration::new(0, 999_979_166));
    assert_eq!(player.next(), Some(samples[frames - 1]));
    player.next();
    assert_eq!(player.get_time(), Duration::new(0, 999_979_166));
}

#[test]
fn half_speed_looping_is_back_after_twice_the_playing_time() {
    let frames = 48000usize;
    let samples: Vec<i16> = (0..frames).map(|i| (i % 30000) as i16).collect();
    let mut player = BufferPlayer::new(mono(samples.clone(), 48000));
    player.set_loop_mode(true);
    player.set_speed(half());
    for _ in 0..frames {
        player.next();
    }
    assert_eq!(player.get_time(), Duration::from_millis(500));
    for _ in 0..frames {
        player.next();
    }
    assert_eq!(player.get_time(), Duration::new(0, 0));
    assert_eq!(player.next(), Some(samples[0]));
}

#[test]
fn reverse_fraction_keeps_the_interval_positive() {
    let mut player = BufferPlayer::new(mono(ramp(10), 1000));
    player.set_time(Duration::from_millis(5));
    player.set_speed(Speed::from_raw(-((SPEED_ONE / 2) as i64)));
    // The cursor moves back one frame at once and is then half a frame ahead of it.
    let heard: Vec<i16> = (0..6).map(|_| player.next().unwrap()).collect();
    assert_eq!(heard, vec![50, 45, 40, 35, 30, 25]);
    assert_eq!(frame_of(&player), 2);
}

#[test]
fn speed_of_one_and_a_half() {
    let mut player = BufferPlayer::new(mono(ramp(10), 1000));
    player.set_speed(Speed::from_raw((SPEED_ONE * 3 / 2) as i64));
    let heard: Vec<i16> = (0..6).map(|_| player.next().unwrap()).collect();
    // Locations 0, 1 (half a frame on), 3, 4 (half a frame on), 6, 7 (half a frame on).
    assert_eq!(heard, vec![0, 15, 30, 45, 60, 75]);
}

#[test]
fn interpolation_wraps_to_the_first_frame_at_the_end() {
    let mut player = BufferPlayer::new(mono(vec![100, 200], 1000));
    player.set_time(Duration::from_millis(1));
    player.set_speed(half());
    assert_eq!(player.next(), Some(200));
    assert_eq!(player.next(), Some(150));
}

#[test]
fn stereo_frames_are_interpolated_by_channel() {
    let buffer = Arc::new(SamplesBuffer::new(
        2,
        1000,
        vec![0i16, 1000, 100, 2000, 200, 3000],
    ));
    let mut player = BufferPlayer::new(buffer);
    player.set_speed(half());
    let heard: Vec<i16> = (0..8).map(|_| player.next().unwrap()).collect();
    assert_eq!(heard, vec![0, 1000, 50, 1500, 100, 2000, 150, 2500]);
}
