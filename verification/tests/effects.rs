use drv2605::Effect;

#[test]
fn stop_is_zero() {
    assert_eq!(Effect::Stop.code(), 0);
}

#[test]
fn catalog_runs_from_1_to_123() {
    assert_eq!(Effect::StrongClick100.code(), 1);
    assert_eq!(Effect::StrongClick60.code(), 2);
    assert_eq!(Effect::Alert750ms.code(), 15);
    assert_eq!(Effect::BuzzOne100.code(), 47);
    assert_eq!(Effect::TransitionRampDownLongSmoothOne100to0.code(), 70);
    assert_eq!(Effect::LongBuzzForProgrammaticStopping100.code(), 118);
    assert_eq!(Effect::SmoothHumFive10.code(), 123);
}

#[test]
fn delay_sets_the_top_bit() {
    assert_eq!(Effect::Delays(0).code(), 0x80);
    assert_eq!(Effect::Delays(5).code(), 0x85);
    assert_eq!(Effect::Delays(127).code(), 0xFF);
}

#[test]
fn long_delay_keeps_its_low_seven_bits() {
    assert_eq!(Effect::Delays(200).code(), 200);
    assert_eq!(Effect::decode(Effect::Delays(200).code()), Some(Effect::Delays(72)));
    assert_eq!(Effect::Delays(72).code(), 200);
}

#[test]
fn conversion_into_a_byte_gives_the_code() {
    assert_eq!(u8::from(Effect::Alert750ms), 15);
    assert_eq!(u8::from(Effect::Delays(3)), 0x83);
    let byte: u8 = Effect::SoftBump30.into();
    assert_eq!(byte, 9);
}

#[test]
fn decode_examples() {
    assert_eq!(Effect::decode(0), Some(Effect::Stop));
    assert_eq!(Effect::decode(1), Some(Effect::StrongClick100));
    assert_eq!(Effect::decode(123), Some(Effect::SmoothHumFive10));
    assert_eq!(Effect::decode(0x80), Some(Effect::Delays(0)));
    assert_eq!(Effect::decode(0xFF), Some(Effect::Delays(127)));
}

#[test]
fn unused_bytes_decode_to_nothing() {
    for byte in 124u8..=127 {
        assert_eq!(Effect::decode(byte), None);
    }
}

#[test]
fn every_byte_round_trips() {
    for byte in 0u8..=255 {
        match Effect::decode(byte) {
            Some(effect) => {
                assert_eq!(effect.code(), byte);
                assert_eq!(Effect::decode(effect.code()), Some(effect));
            }
            None => assert!((124..=127).contains(&byte)),
        }
    }
}

#[test]
fn every_delay_reencodes_to_its_byte() {
    for steps in 0u8..=255 {
        let effect = Effect::Delays(steps);
        let back = Effect::decode(effect.code()).unwrap();
        assert_eq!(back, Effect::Delays(steps & 0x7F));
        assert_eq!(back.code(), effect.code());
        if steps < 128 {
            assert_eq!(back, effect);
        }
    }
}
