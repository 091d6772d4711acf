use rgbnode::colour::Colour;
use rgbnode::frame::{FadeChannel, FadeFrame, Frame, HoldFrame, MillisPerNotch, FADE_SPAN_MAX};

fn fade_of(frame: Frame) -> FadeFrame {
    match frame {
        Frame::Fade(fade) => fade,
        _ => panic!("not a fade"),
    }
}

fn lies_between(v: u8, a: u8, b: u8) -> bool {
    (a <= v && v <= b) || (b <= v && v <= a)
}

fn within(c: Colour, a: Colour, b: Colour) -> bool {
    lies_between(c.r, a.r, b.r) && lies_between(c.g, a.g, b.g) && lies_between(c.b, a.b, b.b)
}

/// Plays a fade with a tick every `step` milliseconds and returns the outputs
/// seen while it played, and the state at the first tick at which `duration`
/// milliseconds or more had passed.
fn play(
    from: Colour,
    to: Colour,
    duration: u32,
    start: u32,
    step: u32,
) -> (Vec<Colour>, Frame, Colour) {
    let mut frame = Frame::new_fade(from, to, duration, start);
    let mut output = from;
    let mut seen = Vec::new();
    let mut now = start;
    let mut elapsed: u64 = 0;
    loop {
        now = now.wrapping_add(step);
        elapsed += step as u64;
        let next = fade_of(frame).tick(output, now);
        frame = next.0;
        output = next.1;
        if elapsed >= duration as u64 {
            return (seen, frame, output);
        }
        seen.push(output);
    }
}

#[test]
fn channel_starts_with_a_full_interval() {
    assert_eq!(
        FadeChannel::new(100),
        FadeChannel { millis_per_change: 100, millis_countdown: 100 }
    );
    assert_eq!(FadeChannel::new(-39), FadeChannel { millis_per_change: -39, millis_countdown: 39 });
    assert_eq!(FadeChannel::new(0), FadeChannel { millis_per_change: 0, millis_countdown: 0 });
    assert_eq!(
        FadeChannel::new(i32::MIN),
        FadeChannel { millis_per_change: i32::MIN, millis_countdown: i32::MAX }
    );
}

#[test]
fn adjust_counts_down_and_steps() {
    let mut ch = FadeChannel::new(100);
    assert_eq!(ch.adjust(50, 5), 5);
    assert_eq!(ch.millis_countdown, 50);
    assert_eq!(ch.adjust(50, 5), 5);
    assert_eq!(ch.millis_countdown, 0);
    assert_eq!(ch.adjust(10, 5), 6);
    assert_eq!(ch.millis_countdown, 90);
}

#[test]
fn adjust_steps_down_for_a_negative_rate() {
    let mut ch = FadeChannel::new(-100);
    assert_eq!(ch.adjust(101, 5), 4);
    assert_eq!(ch.millis_countdown, 99);
    assert_eq!(ch.millis_per_change, -100);
}

#[test]
fn adjust_makes_one_step_at_most() {
    let mut ch = FadeChannel::new(10);
    assert_eq!(ch.adjust(1000, 7), 8);
    assert_eq!(ch.millis_countdown, -980);
    assert_eq!(ch.adjust(1, 8), 9);
    assert_eq!(ch.millis_countdown, -971);
}

#[test]
fn adjust_with_rate_zero_does_nothing() {
    let mut ch = FadeChannel::new(0);
    assert_eq!(ch.adjust(1000, 42), 42);
    assert_eq!(ch, FadeChannel { millis_per_change: 0, millis_countdown: 0 });
}

#[test]
fn adjust_stops_at_the_ends_of_the_range() {
    let mut up = FadeChannel::new(1);
    assert_eq!(up.adjust(5, 255), 255);
    let mut down = FadeChannel::new(-1);
    assert_eq!(down.adjust(5, 0), 0);
}

#[test]
fn adjust_holds_the_countdown_in_range() {
    let mut ch = FadeChannel { millis_per_change: 1, millis_countdown: i32::MIN };
    assert_eq!(ch.adjust(i32::MAX, 1), 2);
    assert_eq!(ch.millis_countdown, i32::MIN);
    let mut back = FadeChannel { millis_per_change: 5, millis_countdown: i32::MAX };
    assert_eq!(back.adjust(i32::MIN, 1), 1);
    assert_eq!(back.millis_countdown, i32::MAX);
}

#[test]
fn new_fade_divides_the_duration_by_the_distance() {
    let frame = Frame::new_fade(Colour::new(0, 10, 7), Colour::new(10, 0, 7), 1000, 55);
    assert_eq!(
        frame,
        Frame::Fade(FadeFrame {
            channels: [FadeChannel::new(100), FadeChannel::new(-100), FadeChannel::new(0)],
            target: Colour::new(10, 0, 7),
            last: 55,
            remain: 1000,
        })
    );
}

#[test]
fn new_fade_rounds_rates_towards_zero() {
    let fade = fade_of(Frame::new_fade(Colour::new(0, 3, 0), Colour::new(3, 0, 255), 1000, 0));
    assert_eq!(fade.channels[0].millis_per_change, 333);
    assert_eq!(fade.channels[1].millis_per_change, -333);
    assert_eq!(fade.channels[2].millis_per_change, 3);
    let white_to_orange =
        fade_of(Frame::new_fade(Colour::new(255, 255, 255), Colour::new(255, 32, 0), 10000, 0));
    assert_eq!(white_to_orange.channels[0].millis_per_change, 0);
    assert_eq!(white_to_orange.channels[1].millis_per_change, -44);
    assert_eq!(white_to_orange.channels[2].millis_per_change, -39);
}

#[test]
fn new_fade_shorter_than_the_distance_has_rate_zero() {
    let fade = fade_of(Frame::new_fade(Colour::new(0, 0, 0), Colour::new(10, 0, 0), 5, 0));
    assert_eq!(fade.channels[0], FadeChannel::new(0));
    assert_eq!(fade.remain, 5);
}

#[test]
fn new_fade_holds_the_duration_to_its_maximum() {
    let fade = fade_of(Frame::new_fade(Colour::new(0, 0, 0), Colour::new(1, 2, 0), u32::MAX, 9));
    assert_eq!(fade.remain, FADE_SPAN_MAX);
    assert_eq!(fade.channels[0].millis_per_change, i32::MAX);
    assert_eq!(fade.channels[1].millis_per_change, i32::MAX / 2);
    let exact =
        fade_of(Frame::new_fade(Colour::new(0, 0, 0), Colour::new(1, 0, 0), FADE_SPAN_MAX, 9));
    assert_eq!(exact.remain, FADE_SPAN_MAX);
}

#[test]
fn tick_without_elapsed_time_changes_nothing() {
    let frame = Frame::new_fade(Colour::new(0, 0, 0), Colour::new(10, 0, 0), 1000, 5);
    let next = fade_of(frame).tick(Colour::new(0, 0, 0), 5);
    assert_eq!(next, (frame, Colour::new(0, 0, 0)));
}

#[test]
fn tick_advances_the_fade() {
    let frame = Frame::new_fade(Colour::new(0, 0, 0), Colour::new(10, 0, 0), 1000, 5);
    let (next, output) = fade_of(frame).tick(Colour::new(0, 0, 0), 106);
    assert_eq!(output, Colour::new(1, 0, 0));
    let fade = fade_of(next);
    assert_eq!(fade.remain, 899);
    assert_eq!(fade.last, 106);
    assert_eq!(fade.channels[0], FadeChannel { millis_per_change: 100, millis_countdown: 99 });
    assert_eq!(fade.target, Colour::new(10, 0, 0));
}

#[test]
fn tick_at_the_end_snaps_to_the_target() {
    let frame = Frame::new_fade(Colour::new(0, 0, 0), Colour::new(10, 20, 30), 1000, 5);
    assert_eq!(
        fade_of(frame).tick(Colour::new(0, 0, 0), 1005),
        (Frame::Stop, Colour::new(10, 20, 30))
    );
    assert_eq!(
        fade_of(frame).tick(Colour::new(0, 0, 0), 4),
        (Frame::Stop, Colour::new(10, 20, 30))
    );
    let almost = fade_of(frame).tick(Colour::new(0, 0, 0), 1004);
    assert_eq!(fade_of(almost.0).remain, 1);
}

#[test]
fn tick_measures_time_across_the_wrap_of_the_clock() {
    let frame = Frame::new_fade(Colour::new(0, 0, 0), Colour::new(10, 0, 0), 1000, u32::MAX - 50);
    let (next, output) = fade_of(frame).tick(Colour::new(0, 0, 0), 50);
    assert_eq!(output, Colour::new(1, 0, 0));
    assert_eq!(fade_of(next).remain, 899);
}

#[test]
fn fade_reaches_its_target_at_any_granularity() {
    let from = Colour::new(0, 200, 17);
    let to = Colour::new(10, 100, 17);
    for step in [1u32, 2, 3, 7, 10, 99, 100, 101, 333, 999, 1000, 1001, 5000] {
        let (_, frame, output) = play(from, to, 1000, 12345, step);
        assert_eq!(frame, Frame::Stop);
        assert_eq!(output, to);
    }
}

#[test]
fn fade_reaches_its_target_across_the_wrap_of_the_clock() {
    let (_, frame, output) =
        play(Colour::new(9, 9, 9), Colour::new(0, 255, 9), 3000, u32::MAX - 1000, 7);
    assert_eq!(frame, Frame::Stop);
    assert_eq!(output, Colour::new(0, 255, 9));
}

#[test]
fn fade_of_no_duration_ends_at_the_first_tick() {
    let (seen, frame, output) = play(Colour::new(1, 2, 3), Colour::new(4, 5, 6), 0, 0, 1);
    assert!(seen.is_empty());
    assert_eq!(frame, Frame::Stop);
    assert_eq!(output, Colour::new(4, 5, 6));
}

#[test]
fn steady_fade_stays_between_its_ends() {
    let from = Colour::new(0, 200, 17);
    let to = Colour::new(10, 100, 17);
    for step in [1u32, 2, 3, 7, 10, 99, 100, 101, 333] {
        let (seen, _, _) = play(from, to, 1000, 0, step);
        assert!(!seen.is_empty());
        for colour in seen {
            assert!(within(colour, from, to));
        }
    }
}

#[test]
fn fade_to_the_end_of_the_range_stays_between_its_ends() {
    let from = Colour::new(249, 6, 0);
    let to = Colour::new(255, 0, 0);
    let (seen, _, output) = play(from, to, 10, 0, 1);
    for colour in seen {
        assert!(within(colour, from, to));
    }
    assert_eq!(output, to);
}

#[test]
fn fade_with_a_rounded_rate_runs_ahead_and_still_ends_on_target() {
    let from = Colour::new(0, 0, 0);
    let to = Colour::new(6, 0, 0);
    let (seen, frame, output) = play(from, to, 10, 0, 1);
    assert_eq!(seen.len(), 9);
    assert_eq!(seen[6], Colour::new(6, 0, 0));
    assert_eq!(seen[7], Colour::new(7, 0, 0));
    assert_eq!(frame, Frame::Stop);
    assert_eq!(output, to);
}

#[test]
fn plain_frames_compare_by_value() {
    let hold = Frame::Hold(HoldFrame { start: 1, time: 2 });
    assert_eq!(hold, Frame::Hold(HoldFrame { start: 1, time: 2 }));
    assert_ne!(Frame::Hold(HoldFrame { start: 1, time: 2 }), Frame::Stop);
    assert_eq!(MillisPerNotch { r: 1, g: -2, b: 0 }, MillisPerNotch { r: 1, g: -2, b: 0 });
}
