use gpu_util::quantize::{f32_to_u8_clamped, quantize_channels};

fn reference(value: f32) -> u8 {
    (value * 255.0).max(0.0).min(255.0) as u8
}

#[test]
fn saturation_of_one_pixel() {
    let channels: Vec<u32> = vec![2.0f32, -1.0, 0.5, 0.5].into_iter().map(f32::to_bits).collect();
    assert_eq!(quantize_channels(&channels), vec![0xFF, 0x00, 0x7F, 0x7F]);
}

#[test]
fn exact_values_of_the_formula() {
    assert_eq!(f32_to_u8_clamped(0.0f32.to_bits()), 0);
    assert_eq!(f32_to_u8_clamped(1.0f32.to_bits()), 255);
    assert_eq!(f32_to_u8_clamped(0.5f32.to_bits()), 127);
    assert_eq!(f32_to_u8_clamped(0.25f32.to_bits()), 63);
    assert_eq!(f32_to_u8_clamped((1.0f32 / 255.0).to_bits()), 1);
    assert_eq!(f32_to_u8_clamped(0.999f32.to_bits()), 254);
    assert_eq!(f32_to_u8_clamped(1.5f32.to_bits()), 255);
}

#[test]
fn special_values() {
    assert_eq!(f32_to_u8_clamped(f32::NAN.to_bits()), 0);
    assert_eq!(f32_to_u8_clamped(f32::INFINITY.to_bits()), 255);
    assert_eq!(f32_to_u8_clamped(f32::NEG_INFINITY.to_bits()), 0);
    assert_eq!(f32_to_u8_clamped((-0.0f32).to_bits()), 0);
    assert_eq!(f32_to_u8_clamped(f32::MIN_POSITIVE.to_bits()), 0);
    assert_eq!(f32_to_u8_clamped(1u32), 0);
    assert_eq!(f32_to_u8_clamped(f32::MAX.to_bits()), 255);
    assert_eq!(f32_to_u8_clamped(0xFFC0_0000), 0);
}

#[test]
fn agrees_with_float_arithmetic_around_every_step() {
    for step in 0..=256u32 {
        let center = (step as f32 / 255.0).to_bits();
        for offset in 0..=200u32 {
            for bits in [center.wrapping_add(offset), center.wrapping_sub(offset)] {
                assert_eq!(f32_to_u8_clamped(bits), reference(f32::from_bits(bits)), "bits {bits:#x}");
            }
        }
    }
}

#[test]
fn agrees_with_float_arithmetic_on_a_sweep_of_bit_patterns() {
    let mut bits: u32 = 0;
    loop {
        assert_eq!(f32_to_u8_clamped(bits), reference(f32::from_bits(bits)), "bits {bits:#x}");
        match bits.checked_add(9973) {
            Some(next) => bits = next,
            None => break,
        }
    }
}

#[test]
fn agrees_with_float_arithmetic_between_zero_and_one_densely() {
    let low = 0.003f32.to_bits();
    let high = 1.01f32.to_bits();
    let mut bits = low;
    while bits < high {
        assert_eq!(f32_to_u8_clamped(bits), reference(f32::from_bits(bits)), "bits {bits:#x}");
        bits += 37;
    }
}

#[test]
fn quantize_channels_keeps_order_and_length() {
    let values: Vec<f32> = (0..1000).map(|i| i as f32 / 999.0).collect();
    let channels: Vec<u32> = values.iter().map(|value| value.to_bits()).collect();
    let bytes = quantize_channels(&channels);
    assert_eq!(bytes.len(), channels.len());
    for (byte, value) in bytes.iter().zip(values.iter()) {
        assert_eq!(*byte, reference(*value));
    }
    assert!(bytes.windows(2).all(|pair| pair[0] <= pair[1]));
    assert_eq!(quantize_channels(&Vec::new()), Vec::<u8>::new());
}
