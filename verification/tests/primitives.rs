use measurer::primitives::{prefixed_hex, U256};

#[test]
fn decimal_of_zero_is_a_single_digit() {
    assert_eq!(U256::from_u64(0).to_decimal(), "0");
}

#[test]
fn decimal_of_u128_max() {
    assert_eq!(U256::from_u128(u128::MAX).to_decimal(), "340282366920938463463374607431768211455");
}

#[test]
fn decimal_of_twenty_gwei() {
    assert_eq!(U256::from_u64(20_000_000_000).to_decimal(), "20000000000");
}

#[test]
fn prefixed_hex_is_lower_case_with_high_nibble_first() {
    assert_eq!(prefixed_hex(&[0x01, 0xab, 0xF0]), "0x01abf0");
    assert_eq!(prefixed_hex(&[]), "0x");
}

#[test]
fn decimal_agrees_with_the_machine_for_every_128_bit_pattern_tried() {
    let mut x: u128 = 1;
    for i in 0..2000u32 {
        x = x.wrapping_mul(0x2545_f491_4f6c_dd1d_0000_0000_0000_0001).wrapping_add(0x9e37_79b9_7f4a_7c15 + i as u128);
        let shown = x >> (i % 128);
        assert_eq!(U256::from_u128(shown).to_decimal(), shown.to_string());
        assert_eq!(U256::from_u64(shown as u64).to_decimal(), (shown as u64).to_string());
    }
}

#[test]
fn the_limbs_are_least_significant_first() {
    assert_eq!(U256::from_u128((7u128 << 64) + 5).limbs, [5, 7, 0, 0]);
    assert_eq!(U256::from_u64(u64::MAX).limbs, [u64::MAX, 0, 0, 0]);
    assert_eq!(U256 { limbs: [0, 1, 0, 0] }.to_decimal(), "18446744073709551616");
    assert_eq!(
        U256 { limbs: [u64::MAX; 4] }.to_decimal(),
        "115792089237316195423570985008687907853269984665640564039457584007913129639935"
    );
}

#[test]
fn hex_agrees_with_formatting_byte_by_byte() {
    let all: Vec<u8> = (0u8..=255).collect();
    let mut expected = String::from("0x");
    for b in &all {
        expected.push_str(&format!("{:02x}", b));
    }
    assert_eq!(prefixed_hex(&all), expected);
}
