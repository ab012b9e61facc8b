use plate_reverb::{tap_is_added, DelayLine, LineSamples, SampleStore, Tank};

#[test]
fn store_starts_filled_and_keeps_its_length() {
    let mut s: SampleStore<f32, 10> = SampleStore::filled(0.0);
    assert_eq!(s.length(), 10);
    for i in 0..10 {
        assert_eq!(s.get(i), 0.0);
    }
    s.set(3, 1.5);
    assert_eq!(s.get(3), 1.5);
    assert_eq!(s.get(2), 0.0);
    assert_eq!(s.length(), 10);
}

#[test]
fn fresh_line_is_silent() {
    let d: DelayLine<f32, 142> = DelayLine::new(0.0);
    assert_eq!(d.length(), 142);
    assert_eq!(d.back(), 0.0);
    for k in 0..142 {
        assert_eq!(d.read(k), 0.0);
    }
}

#[test]
fn line_delays_by_exactly_its_length() {
    let mut d: DelayLine<i32, 10> = DelayLine::new(0);
    let mut out = Vec::new();
    for x in 1..=25 {
        out.push(d.get_write_and_step(x));
    }
    let mut expected = vec![0; 10];
    expected.extend(1..=15);
    assert_eq!(out, expected);
}

#[test]
fn zeros_in_give_zeros_out() {
    let mut d: DelayLine<f32, 107> = DelayLine::new(0.0);
    for _ in 0..1000 {
        assert_eq!(d.get_write_and_step(0.0), 0.0);
    }
}

#[test]
fn back_is_what_the_next_step_returns() {
    let mut d: DelayLine<i32, 3> = DelayLine::new(0);
    d.write(7);
    d.write(8);
    d.write(9);
    assert_eq!(d.back(), 7);
    assert_eq!(d.get_write_and_step(10), 7);
    assert_eq!(d.back(), 8);
    d.write(11);
    assert_eq!(d.back(), 9);
}

#[test]
fn read_counts_samples_back_from_the_newest() {
    let mut d: DelayLine<i32, 5> = DelayLine::new(0);
    for x in 1..=7 {
        d.write(x);
    }
    // history, oldest first: 3 4 5 6 7
    assert_eq!(d.read(1), 7);
    assert_eq!(d.read(2), 6);
    assert_eq!(d.read(4), 4);
    assert_eq!(d.read(0), 3);
    assert_eq!(d.read(0), d.back());
}

#[test]
fn read_does_not_change_the_line() {
    let mut d: DelayLine<i32, 4> = DelayLine::new(0);
    d.write(1);
    d.write(2);
    let before: Vec<i32> = (0..4).map(|k| d.read(k)).collect();
    let again: Vec<i32> = (0..4).map(|k| d.read(k)).collect();
    assert_eq!(before, again);
    assert_eq!(d.get_write_and_step(3), 0);
}

#[test]
fn fresh_tank_taps_are_silent() {
    let t: Tank<f32> = Tank::new(0.0);
    assert_eq!(t.left_taps(), [0.0; 7]);
    assert_eq!(t.right_taps(), [0.0; 7]);
}

#[test]
fn fresh_tank_lines_have_the_fixed_capacities() {
    let t: Tank<f32> = Tank::new(0.0);
    let lens = [
        t.pre_delay.length(),
        t.all_pass_in_1.length(),
        t.all_pass_in_2.length(),
        t.all_pass_in_3.length(),
        t.all_pass_in_4.length(),
        t.all_pass_decay_11.length(),
        t.all_pass_decay_12.length(),
        t.delay_11.length(),
        t.delay_12.length(),
        t.all_pass_decay_21.length(),
        t.all_pass_decay_22.length(),
        t.delay_21.length(),
        t.delay_22.length(),
    ];
    assert_eq!(
        lens,
        [10, 142, 107, 379, 277, 672, 1800, 4453, 3720, 908, 2656, 4217, 3163]
    );
}

#[test]
fn left_tap_reads_its_offset() {
    let mut t: Tank<i32> = Tank::new(0);
    // the marker ends up 266 samples old in the second arm's first delay line
    t.delay_21.write(1);
    for _ in 0..265 {
        t.delay_21.write(0);
    }
    assert_eq!(t.left_taps(), [1, 0, 0, 0, 0, 0, 0]);
    assert_eq!(t.right_taps(), [0; 7]);
}

#[test]
fn right_tap_reads_its_offset() {
    let mut t: Tank<i32> = Tank::new(0);
    t.delay_22.write(5);
    for _ in 0..120 {
        t.delay_22.write(0);
    }
    assert_eq!(t.right_taps(), [0, 0, 0, 0, 0, 0, 5]);
    assert_eq!(t.left_taps(), [0; 7]);
}

#[test]
fn every_tap_reads_its_own_line_and_offset() {
    let mut t: Tank<i32> = Tank::new(0);
    // write each line's position (samples old) into it, so a tap returns its offset
    for age in (1..=4453).rev() {
        t.delay_11.write(age);
    }
    for age in (1..=3720).rev() {
        t.delay_12.write(age);
    }
    for age in (1..=4217).rev() {
        t.delay_21.write(age);
    }
    for age in (1..=3163).rev() {
        t.delay_22.write(age);
    }
    for age in (1..=1800).rev() {
        t.all_pass_decay_12.write(age);
    }
    for age in (1..=2656).rev() {
        t.all_pass_decay_22.write(age);
    }
    assert_eq!(t.left_taps(), [266, 2974, 1913, 1996, 1990, 187, 1066]);
    assert_eq!(t.right_taps(), [353, 3627, 1228, 2673, 2111, 335, 121]);
}

fn all_lines(v: i32) -> LineSamples<i32> {
    LineSamples {
        pre_delay: v,
        all_pass_in_1: v + 1,
        all_pass_in_2: v + 2,
        all_pass_in_3: v + 3,
        all_pass_in_4: v + 4,
        all_pass_decay_11: v + 5,
        all_pass_decay_12: v + 6,
        delay_11: v + 7,
        delay_12: v + 8,
        all_pass_decay_21: v + 9,
        all_pass_decay_22: v + 10,
        delay_21: v + 11,
        delay_22: v + 12,
    }
}

#[test]
fn advance_writes_one_sample_into_each_line() {
    let mut t: Tank<i32> = Tank::new(0);
    t.advance(all_lines(100));
    assert_eq!(t.pre_delay.read(1), 100);
    assert_eq!(t.all_pass_in_1.read(1), 101);
    assert_eq!(t.all_pass_in_4.read(1), 104);
    assert_eq!(t.all_pass_decay_12.read(1), 106);
    assert_eq!(t.delay_11.read(1), 107);
    assert_eq!(t.delay_22.read(1), 112);
    assert_eq!(t.delay_22.read(2), 0);
}

#[test]
fn oldest_comes_back_after_each_line_length() {
    let mut t: Tank<i32> = Tank::new(0);
    let o = t.oldest();
    assert_eq!(o.pre_delay, 0);
    assert_eq!(o.delay_11, 0);
    t.advance(all_lines(100));
    for _ in 0..9 {
        t.advance(all_lines(0));
    }
    // the pre-delay holds 10 samples, so the first one is now its oldest
    let o = t.oldest();
    assert_eq!(o.pre_delay, 100);
    assert_eq!(o.all_pass_in_1, 0);
    assert_eq!(o.delay_22, 0);
}

#[test]
fn taps_stay_silent_after_the_first_frame() {
    let mut t: Tank<i32> = Tank::new(0);
    t.advance(all_lines(1000));
    assert_eq!(t.left_taps(), [0; 7]);
    assert_eq!(t.right_taps(), [0; 7]);
}

#[test]
fn tap_signs_follow_the_fixed_pattern() {
    let signs: Vec<bool> = (0..7).map(tap_is_added).collect();
    assert_eq!(signs, vec![true, true, false, true, false, false, false]);
}

#[test]
fn library_types_clone() {
    let mut t: Tank<i32> = Tank::new(0);
    t.advance(all_lines(5));
    let u = t.clone();
    assert_eq!(u.oldest().pre_delay, t.oldest().pre_delay);
    assert_eq!(u.left_taps(), t.left_taps());
    assert_eq!(u.delay_22.read(1), 17);
}

#[test]
fn silent_tank_fed_silence_stays_silent() {
    let mut t: Tank<f32> = Tank::new(0.0);
    let zeros = LineSamples {
        pre_delay: 0.0,
        all_pass_in_1: 0.0,
        all_pass_in_2: 0.0,
        all_pass_in_3: 0.0,
        all_pass_in_4: 0.0,
        all_pass_decay_11: 0.0,
        all_pass_decay_12: 0.0,
        delay_11: 0.0,
        delay_12: 0.0,
        all_pass_decay_21: 0.0,
        all_pass_decay_22: 0.0,
        delay_21: 0.0,
        delay_22: 0.0,
    };
    for _ in 0..5000 {
        let o = t.oldest();
        assert_eq!(o.delay_11, 0.0);
        assert_eq!(o.delay_22, 0.0);
        t.advance(zeros);
        assert_eq!(t.left_taps(), [0.0; 7]);
        assert_eq!(t.right_taps(), [0.0; 7]);
    }
}
