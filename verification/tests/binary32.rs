use rust_service::binary32::{decode_le_words, is_at_least_half, scale_sample, HALF, INFINITY, ONE, ZERO};

#[test]
fn constants_are_the_patterns_of_their_values() {
    assert_eq!(ZERO, 0.0f32.to_bits());
    assert_eq!(HALF, 0.5f32.to_bits());
    assert_eq!(ONE, 1.0f32.to_bits());
    assert_eq!(INFINITY, f32::INFINITY.to_bits());
}

#[test]
fn scale_sample_agrees_with_division_for_every_sample() {
    for sample in 0..=255u8 {
        let expected = (sample as f32 / 255.0).to_bits();
        assert_eq!(scale_sample(sample), expected, "sample {}", sample);
    }
}

#[test]
fn scale_sample_exact_values() {
    assert_eq!(scale_sample(0), 0x0000_0000);
    assert_eq!(scale_sample(1), 0x3B80_8081);
    assert_eq!(scale_sample(51), 0x3E4C_CCCD);
    assert_eq!(scale_sample(127), 0x3EFE_FEFF);
    assert_eq!(scale_sample(128), 0x3F00_8081);
    assert_eq!(scale_sample(254), 0x3F7E_FEFF);
    assert_eq!(scale_sample(255), 0x3F80_0000);
}

#[test]
fn scale_sample_stays_in_the_unit_interval_and_grows() {
    let mut previous = 0.0f32;
    for sample in 0..=255u8 {
        let value = f32::from_bits(scale_sample(sample));
        assert!((0.0..=1.0).contains(&value));
        if sample > 0 {
            assert!(value > previous);
        }
        previous = value;
    }
}

#[test]
fn at_least_half_at_the_threshold() {
    assert!(is_at_least_half(0.5f32.to_bits()));
    assert!(!is_at_least_half(0.49999f32.to_bits()));
    assert!(!is_at_least_half(f32::from_bits(HALF - 1).to_bits()));
    assert!(is_at_least_half(f32::from_bits(HALF + 1).to_bits()));
}

#[test]
fn at_least_half_special_values() {
    assert!(is_at_least_half(f32::INFINITY.to_bits()));
    assert!(is_at_least_half(f32::MAX.to_bits()));
    assert!(is_at_least_half(1.0f32.to_bits()));
    assert!(!is_at_least_half(f32::NAN.to_bits()));
    assert!(!is_at_least_half(0x7F80_0001));
    assert!(!is_at_least_half(0xFFC0_0000));
    assert!(!is_at_least_half(f32::NEG_INFINITY.to_bits()));
    assert!(!is_at_least_half((-0.5f32).to_bits()));
    assert!(!is_at_least_half((-1.0f32).to_bits()));
    assert!(!is_at_least_half(0.0f32.to_bits()));
    assert!(!is_at_least_half((-0.0f32).to_bits()));
    assert!(!is_at_least_half(f32::MIN_POSITIVE.to_bits()));
    assert!(!is_at_least_half(1u32));
}

#[test]
fn at_least_half_agrees_with_the_comparison_of_values() {
    let mut bits: u32 = 0;
    loop {
        let value = f32::from_bits(bits);
        assert_eq!(is_at_least_half(bits), value >= 0.5, "pattern {:#010x}", bits);
        match bits.checked_add(0x0001_0003) {
            Some(next) => bits = next,
            None => break,
        }
    }
}

#[test]
fn decode_le_words_reads_least_significant_byte_first() {
    assert_eq!(decode_le_words(&[0x78, 0x56, 0x34, 0x12]), vec![0x1234_5678]);
    assert_eq!(decode_le_words(&[0x01, 0x00, 0x00, 0x00, 0x00, 0x00, 0x00, 0x80]), vec![1, 0x8000_0000]);
}

#[test]
fn decode_le_words_decodes_values_in_order() {
    let mut bytes = Vec::new();
    bytes.extend_from_slice(&0.25f32.to_le_bytes());
    bytes.extend_from_slice(&0.75f32.to_le_bytes());
    bytes.extend_from_slice(&(-3.5f32).to_le_bytes());
    let words = decode_le_words(&bytes);
    assert_eq!(words, vec![0.25f32.to_bits(), 0.75f32.to_bits(), (-3.5f32).to_bits()]);
}

#[test]
fn decode_le_words_leaves_out_an_unfinished_word() {
    assert_eq!(decode_le_words(&[]), Vec::<u32>::new());
    assert_eq!(decode_le_words(&[1, 2, 3]), Vec::<u32>::new());
    assert_eq!(decode_le_words(&[1, 0, 0, 0, 9, 9]), vec![1]);
}
