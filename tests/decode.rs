use std::collections::HashSet;
use streamdeck::{
    extract_str, feature_report_request, flip_key_index, read_button_states, read_encoder_input,
    read_lcd_input, state_diff, Kind, StateChange, StreamDeckError, StreamDeckInput,
};

const ALL_KINDS: [Kind; 9] = [
    Kind::Original,
    Kind::OriginalV2,
    Kind::Mini,
    Kind::Xl,
    Kind::XlV2,
    Kind::Mk2,
    Kind::MiniMk2,
    Kind::Pedal,
    Kind::Plus,
];

#[test]
fn kind_geometry() {
    assert_eq!(Kind::Original.key_count(), 15);
    assert_eq!(Kind::Original.column_count(), 5);
    assert_eq!(Kind::Mini.key_count(), 6);
    assert_eq!(Kind::Mini.column_count(), 3);
    assert_eq!(Kind::Xl.key_count(), 32);
    assert_eq!(Kind::Xl.column_count(), 8);
    assert_eq!(Kind::Plus.key_count(), 8);
    assert_eq!(Kind::Plus.encoder_count(), 4);
    assert!(Kind::Plus.has_touch_surface());
    assert_eq!(Kind::Mk2.encoder_count(), 0);
    assert!(!Kind::Mk2.has_touch_surface());
    for kind in ALL_KINDS.iter() {
        assert_eq!(kind.key_count() % kind.column_count(), 0);
    }
}

#[test]
fn flip_key_index_mirrors_rows() {
    assert_eq!(flip_key_index(&Kind::Original, 0), 4);
    assert_eq!(flip_key_index(&Kind::Original, 4), 0);
    assert_eq!(flip_key_index(&Kind::Original, 5), 9);
    assert_eq!(flip_key_index(&Kind::Original, 7), 7);
    assert_eq!(flip_key_index(&Kind::Original, 14), 10);
}

#[test]
fn flip_key_index_is_an_involution() {
    for kind in ALL_KINDS.iter() {
        for k in 0..kind.key_count() {
            let f = flip_key_index(kind, k);
            assert!(f < kind.key_count());
            assert_eq!(flip_key_index(kind, f), k);
        }
    }
}

#[test]
fn button_report_without_data_is_empty() {
    let mut report = vec![0u8; 40];
    for b in report.iter_mut().skip(1) {
        *b = 1;
    }
    for kind in ALL_KINDS.iter() {
        assert!(read_button_states(kind, &report).is_empty());
    }
    assert!(read_button_states(&Kind::Xl, &vec![0u8]).is_empty());
}

#[test]
fn mirrored_key_zero_reads_physical_four() {
    let mut report = vec![0u8; 16];
    report[0] = 1;
    report[5] = 1;
    let states = read_button_states(&Kind::Original, &report);
    assert_eq!(states.len(), 15);
    assert!(states[0]);
    assert_eq!(states.iter().filter(|s| **s).count(), 1);
}

#[test]
fn mini_keys_start_at_byte_one() {
    let report = vec![1u8, 1, 0, 0, 0, 0, 2];
    assert_eq!(
        read_button_states(&Kind::Mini, &report),
        vec![true, false, false, false, false, true]
    );
}

#[test]
fn larger_kinds_skip_four_header_bytes() {
    let mut report = vec![0u8; 12];
    report[0] = 1;
    report[1] = 1;
    report[2] = 1;
    report[3] = 1;
    report[4] = 1;
    report[11] = 7;
    assert_eq!(
        read_button_states(&Kind::Plus, &report),
        vec![true, false, false, false, false, false, false, true]
    );
    let mut xl = vec![0u8; 36];
    xl[0] = 1;
    xl[35] = 1;
    let states = read_button_states(&Kind::Xl, &xl);
    assert_eq!(states.len(), 32);
    assert!(states[31]);
    assert!(!states[0]);
}

fn touch_report(kind: u8, bytes: [u8; 8]) -> Vec<u8> {
    let mut data = vec![0u8; 14];
    data[4] = kind;
    data[6..14].copy_from_slice(&bytes);
    data
}

#[test]
fn touch_press_and_long_press() {
    let data = touch_report(1, [10, 0, 0x2c, 0x01, 0, 0, 0, 0]);
    assert_eq!(read_lcd_input(&data), Ok(StreamDeckInput::TouchScreenPress(10, 300)));
    let data = touch_report(2, [0xff, 0xff, 1, 0, 0, 0, 0, 0]);
    assert_eq!(read_lcd_input(&data), Ok(StreamDeckInput::TouchScreenLongPress(65535, 1)));
}

#[test]
fn touch_swipe_keeps_both_points() {
    let data = touch_report(3, [10, 0, 20, 0, 0x1e, 0x01, 40, 0]);
    assert_eq!(
        read_lcd_input(&data),
        Ok(StreamDeckInput::TouchScreenSwipe((10, 20), (286, 40)))
    );
    let data = touch_report(3, [0x1e, 0x01, 40, 0, 10, 0, 20, 0]);
    assert_eq!(
        read_lcd_input(&data),
        Ok(StreamDeckInput::TouchScreenSwipe((286, 40), (10, 20)))
    );
}

#[test]
fn touch_unknown_kind_is_bad_data() {
    let data = touch_report(9, [10, 0, 20, 0, 30, 0, 40, 0]);
    assert_eq!(read_lcd_input(&data), Err(StreamDeckError::BadData));
    let data = touch_report(0, [10, 0, 20, 0, 30, 0, 40, 0]);
    assert_eq!(read_lcd_input(&data), Err(StreamDeckError::BadData));
    assert_eq!(read_lcd_input(&vec![0u8, 0, 0, 0, 9]), Err(StreamDeckError::BadData));
}

#[test]
fn encoder_presses() {
    let data = vec![0u8, 0, 0, 0, 0, 1, 0, 0, 5];
    assert_eq!(
        read_encoder_input(&Kind::Plus, &data),
        Ok(StreamDeckInput::EncoderStateChange(vec![true, false, false, true]))
    );
    assert_eq!(
        read_encoder_input(&Kind::Mk2, &data),
        Ok(StreamDeckInput::EncoderStateChange(vec![]))
    );
}

#[test]
fn encoder_twist_is_signed() {
    let data = vec![0u8, 0, 0, 0, 1, 1, 0xff, 0x80, 0x7f];
    assert_eq!(
        read_encoder_input(&Kind::Plus, &data),
        Ok(StreamDeckInput::EncoderTwist(vec![1, -1, -128, 127]))
    );
}

#[test]
fn encoder_unknown_kind_is_bad_data() {
    let data = vec![0u8, 0, 0, 0, 9, 1, 1, 1, 1];
    assert_eq!(read_encoder_input(&Kind::Plus, &data), Err(StreamDeckError::BadData));
    assert_eq!(read_encoder_input(&Kind::Plus, &vec![0u8, 0, 0, 0, 2]), Err(StreamDeckError::BadData));
}

#[test]
fn state_diff_reports_rising_edges() {
    let mut saved: HashSet<u8> = HashSet::new();
    let events = state_diff(&mut saved, &[true, false, true]);
    assert_eq!(events, vec![StateChange::Add(0), StateChange::Add(2)]);
    assert_eq!(saved, [0u8, 2].into_iter().collect::<HashSet<u8>>());
}

#[test]
fn state_diff_reports_falling_edges() {
    let mut saved: HashSet<u8> = [0u8, 2].into_iter().collect();
    let events = state_diff(&mut saved, &[false, false, true]);
    assert_eq!(events, vec![StateChange::Remove(0)]);
    assert_eq!(saved, [2u8].into_iter().collect::<HashSet<u8>>());
}

#[test]
fn state_diff_twice_gives_nothing_new() {
    let mut saved: HashSet<u8> = [1u8, 3].into_iter().collect();
    let states = [true, false, true, true, false];
    let first = state_diff(&mut saved, &states);
    assert_eq!(
        first,
        vec![StateChange::Add(0), StateChange::Remove(1), StateChange::Add(2)]
    );
    let after = saved.clone();
    assert!(state_diff(&mut saved, &states).is_empty());
    assert_eq!(saved, after);
}

#[test]
fn state_diff_keeps_indices_past_the_vector() {
    let mut saved: HashSet<u8> = [7u8].into_iter().collect();
    let events = state_diff(&mut saved, &[true]);
    assert_eq!(events, vec![StateChange::Add(0)]);
    assert_eq!(saved, [0u8, 7].into_iter().collect::<HashSet<u8>>());
    assert!(state_diff(&mut saved, &[]).is_empty());
}

#[test]
fn state_diff_on_a_fresh_set_adds_every_active_index() {
    let states = [false, true, true];
    for _ in 0..2 {
        let mut saved: HashSet<u8> = HashSet::new();
        assert_eq!(
            state_diff(&mut saved, &states),
            vec![StateChange::Add(1), StateChange::Add(2)]
        );
    }
}

#[test]
fn state_diff_handles_the_largest_index() {
    let mut saved: HashSet<u8> = HashSet::new();
    let mut states = vec![false; 256];
    states[255] = true;
    assert_eq!(state_diff(&mut saved, &states), vec![StateChange::Add(255)]);
    states[255] = false;
    assert_eq!(state_diff(&mut saved, &states), vec![StateChange::Remove(255)]);
    assert!(saved.is_empty());
}

#[test]
fn extract_str_strips_nul_padding() {
    assert_eq!(extract_str(b"AL12K1A00042\0\0\0\0").unwrap(), "AL12K1A00042");
    assert_eq!(extract_str(b"a\0b").unwrap(), "ab");
    assert_eq!(extract_str(b"").unwrap(), "");
    assert_eq!(extract_str("\u{e9}t\u{e9}\0".as_bytes()).unwrap(), "\u{e9}t\u{e9}");
}

#[test]
fn extract_str_rejects_invalid_utf8() {
    assert!(extract_str(&[0x61, 0xff, 0x00]).is_err());
    assert!(extract_str(&[0xc3, 0x00, 0xa9]).is_err());
}

#[test]
fn feature_report_request_prefixes_report_id() {
    assert_eq!(feature_report_request(0x06, 4), vec![0x06, 0, 0, 0, 0]);
    assert_eq!(feature_report_request(0x03, 0), vec![0x03]);
}
