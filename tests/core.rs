use crrshrr::hold::{hold_in_place, sample_and_hold};
use crrshrr::noise::{noise_hash, NOISE_HASH_BOUND};
use crrshrr::processor::Crrshrr;
use crrshrr::state::HoldState;

#[test]
fn noise_hash_exact_values() {
    assert_eq!(noise_hash(0), 1376312589);
    assert_eq!(noise_hash(1), 1316808037);
    assert_eq!(noise_hash(-1), 107238581);
    assert_eq!(noise_hash(7), 941604453);
    assert_eq!(noise_hash(12345), 2032478005);
    assert_eq!(noise_hash(i32::MAX), 107238581);
    assert_eq!(noise_hash(i32::MIN), 1376312589);
}

#[test]
fn noise_hash_is_deterministic_and_bounded() {
    for x in [0, 1, -1, 42, -42, 1 << 20, i32::MAX, i32::MIN, i32::MIN + 1] {
        let a = noise_hash(x);
        let b = noise_hash(x);
        assert_eq!(a, b);
        assert!(a < NOISE_HASH_BOUND);
        let dither = 1.0f64 - a as f64 / 1073741824.0;
        assert!(dither > -1.0 && dither <= 1.0);
    }
}

#[test]
fn rate_three_holds_window_start() {
    let mut data = vec![1, 2, 3, 4, 5, 6, 7, 8];
    sample_and_hold(&mut data, 3, 0);
    assert_eq!(data, vec![1, 1, 1, 4, 4, 4, 7, 7]);
}

#[test]
fn rate_four_holds_window_start() {
    let mut data = vec![1, 2, 3, 4, 5, 6, 7, 8];
    sample_and_hold(&mut data, 4, 0);
    assert_eq!(data, vec![1, 1, 1, 1, 5, 5, 5, 5]);
}

#[test]
fn rate_below_two_is_a_no_op() {
    let input = vec![0.25f32, -0.5, 0.875, 1.0, -1.0];
    for offset in [0usize, 3, 99] {
        let mut data = input.clone();
        sample_and_hold(&mut data, 1, offset);
        assert_eq!(data, input);
    }
}

#[test]
fn offset_widens_the_window() {
    let mut data = vec![10, 20, 30, 40, 50, 60, 70];
    sample_and_hold(&mut data, 2, 1);
    assert_eq!(data, vec![10, 10, 10, 40, 40, 40, 70]);
}

#[test]
fn window_longer_than_channel_holds_first_sample() {
    let mut data = vec![3, 1, 4, 1, 5];
    sample_and_hold(&mut data, 50, 99);
    assert_eq!(data, vec![3, 3, 3, 3, 3]);
}

#[test]
fn hold_on_empty_and_single_channels() {
    let mut empty: Vec<f32> = vec![];
    sample_and_hold(&mut empty, 5, 2);
    assert!(empty.is_empty());
    let mut one = vec![0.5f32];
    sample_and_hold(&mut one, 5, 2);
    assert_eq!(one, vec![0.5]);
}

#[test]
fn held_samples_match_their_lookback() {
    let input: Vec<i32> = (0..40).map(|k| k * 7 - 3).collect();
    for (rate, offset) in [(2, 0), (3, 2), (7, 5), (13, 0)] {
        let mut data = input.clone();
        sample_and_hold(&mut data, rate, offset);
        let p = rate as usize + offset;
        for i in 0..data.len() {
            let j = i % p;
            assert_eq!(data[i], data[i - j]);
            assert_eq!(data[i], input[i - j]);
        }
    }
}

#[test]
fn hold_in_place_with_unit_period_keeps_everything() {
    let mut data = vec![9, 8, 7];
    hold_in_place(&mut data, 1);
    assert_eq!(data, vec![9, 8, 7]);
}

#[test]
fn state_counts_up_until_redraw() {
    let s = HoldState::new();
    assert_eq!(s, HoldState { counter: 0, offset: 0 });
    assert!(!s.redraw_due(0));
    let s = s.advance(0, 10, 0);
    assert_eq!(s, HoldState { counter: 1, offset: 0 });
    assert!(s.redraw_due(0));
    let s = s.advance(0, 10, 7);
    assert_eq!(s, HoldState { counter: 0, offset: 7 });
}

#[test]
fn state_with_zero_rand_keeps_zero_offset() {
    let s = HoldState { counter: 5, offset: 3 };
    let s = s.advance(4, 0, 0);
    assert_eq!(s, HoldState { counter: 0, offset: 0 });
    let mut p = Crrshrr::new(1);
    for _ in 0..50 {
        p.begin_block(0, 0);
        assert_eq!(p.state().offset, 0);
    }
}

#[test]
fn state_keeps_offset_between_redraws() {
    let s = HoldState { counter: 2, offset: 9 };
    let s = s.advance(64, 100, 0);
    assert_eq!(s, HoldState { counter: 3, offset: 9 });
}

#[test]
fn lowered_rand_rate_forces_redraw() {
    let s = HoldState { counter: 65, offset: 1 };
    assert!(s.redraw_due(64));
    assert_eq!(s.advance(64, 5, 4), HoldState { counter: 0, offset: 4 });
}

#[test]
fn processor_redraws_within_rand() {
    let mut p = Crrshrr::new(42);
    assert_eq!(p.state(), HoldState { counter: 0, offset: 0 });
    for block in 0..200 {
        p.begin_block(2, 6);
        let s = p.state();
        assert!(s.offset < 6);
        assert!(s.counter <= 3);
        if block % 4 == 3 {
            assert_eq!(s.counter, 0);
        }
    }
}

#[test]
fn processor_is_reproducible_from_seed() {
    let mut a = Crrshrr::new(7);
    let mut b = Crrshrr::new(7);
    for _ in 0..20 {
        a.begin_block(0, 100);
        b.begin_block(0, 100);
        assert_eq!(a.state(), b.state());
        assert_eq!(a.next_noise(512), b.next_noise(512));
    }
}

#[test]
fn noise_comes_from_a_seed_below_len() {
    let mut p = Crrshrr::new(3);
    let allowed: Vec<u32> = (0..4).map(noise_hash).collect();
    for _ in 0..100 {
        let h = p.next_noise(4);
        assert!(allowed.contains(&h));
    }
    assert_eq!(p.next_noise(1), noise_hash(0));
}

#[test]
fn zero_input_at_low_rate_repeats_across_blocks() {
    let mut p = Crrshrr::new(11);
    let mut outputs = Vec::new();
    for _ in 0..10 {
        p.begin_block(1, 100);
        let mut data = vec![0.0f32; 16];
        p.hold_channel(&mut data, 1);
        outputs.push(data);
    }
    for o in &outputs {
        assert_eq!(o, &outputs[0]);
    }
}

#[test]
fn hold_channel_uses_block_offset() {
    let mut p = Crrshrr::new(5);
    p.begin_block(0, 0);
    p.begin_block(0, 30);
    let off = p.state().offset;
    let mut data: Vec<usize> = (0..100).collect();
    p.hold_channel(&mut data, 2);
    let period = 2 + off;
    for i in 0..data.len() {
        assert_eq!(data[i], i - i % period);
    }
}
