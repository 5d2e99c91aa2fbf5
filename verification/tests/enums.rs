//! Tests for the enumerated tag types: round-trips on every valid code,
//! rejection of invalid codes, and the body kind's coded ranges.

use lf2_parse::{
    BdyKind, BdyKindParseError, CPointKind, CPointKindParseError, Effect, EffectParseError,
    FrameNumberNext, IntParseError, ItrKind, ItrKindParseError, OPointFacing, OPointFacingDir,
    OPointKind, OPointKindParseError, State, StateParseError, WPointKind, WPointKindParseError,
};

#[test]
fn c_point_kind_round_trip() {
    let codes = [1u32, 2];
    for &code in codes.iter() {
        let text = code.to_string();
        let kind = CPointKind::from_str(&text).unwrap();
        assert_eq!(kind.code(), code);
    }
    assert_eq!(
        CPointKind::from_str("3"),
        Err(CPointKindParseError::InvalidValue(3))
    );
    assert_eq!(
        CPointKind::from_str("x"),
        Err(CPointKindParseError::ParseIntError(
            IntParseError::InvalidDigit
        ))
    );
}

#[test]
fn o_point_kind_round_trip() {
    let codes = [1u32, 2];
    for &code in codes.iter() {
        let text = code.to_string();
        let kind = OPointKind::from_str(&text).unwrap();
        assert_eq!(kind.code(), code);
    }
    assert_eq!(
        OPointKind::from_str("0"),
        Err(OPointKindParseError::InvalidValue(0))
    );
}

#[test]
fn w_point_kind_round_trip() {
    let codes = [1u32, 2, 3];
    for &code in codes.iter() {
        let text = code.to_string();
        let kind = WPointKind::from_str(&text).unwrap();
        assert_eq!(kind.code(), code);
    }
    assert_eq!(
        WPointKind::from_str("4"),
        Err(WPointKindParseError::InvalidValue(4))
    );
}

#[test]
fn itr_kind_round_trip() {
    let codes = [0u32, 1, 2, 3, 4, 5, 6, 7, 8, 9, 10, 11, 14, 15, 16];
    for &code in codes.iter() {
        let text = code.to_string();
        let kind = ItrKind::from_str(&text).unwrap();
        assert_eq!(kind.code(), code);
    }
    assert_eq!(ItrKind::from_str("12"), Err(ItrKindParseError::InvalidValue(12)));
    assert_eq!(ItrKind::from_str("17"), Err(ItrKindParseError::InvalidValue(17)));
}

#[test]
fn effect_round_trip() {
    let codes = [0u32, 1, 2, 3, 4, 5, 20, 21, 22, 23, 30];
    for &code in codes.iter() {
        let text = code.to_string();
        let effect = Effect::from_str(&text).unwrap();
        assert_eq!(effect.code(), code);
    }
    assert_eq!(Effect::from_str("6"), Err(EffectParseError::InvalidValue(6)));
    assert_eq!(Effect::from_str("31"), Err(EffectParseError::InvalidValue(31)));
}

#[test]
fn state_round_trip() {
    let mut codes: Vec<u32> = vec![
        0, 1, 2, 3, 4, 5, 6, 7, 8, 9, 10, 11, 12, 13, 14, 15, 16, 17, 18, 19, 100, 301, 400,
        401, 500, 501, 1700, 1000, 1001, 1002, 1003, 1004, 2000, 2001, 2004, 3000, 3001, 3002,
        3003, 3004, 3005, 3006, 9995, 9996, 9997, 9998, 9999,
    ];
    for n in 8000u32..=8099 {
        codes.push(n);
    }
    for &code in codes.iter() {
        let text = code.to_string();
        let state = State::from_str(&text).unwrap();
        assert_eq!(state.code(), code);
    }
    assert_eq!(State::from_str("20"), Err(StateParseError::InvalidValue(20)));
    assert_eq!(State::from_str("8100"), Err(StateParseError::InvalidValue(8100)));
    assert_eq!(
        State::from_str("8050"),
        Ok(State::TransformToObject { object_id: 50 })
    );
}

#[test]
fn bdy_kind_hostage_ranges() {
    assert_eq!(BdyKind::from_str("0"), Ok(BdyKind::Normal));
    for n in [1000isize, 1050, 1999] {
        let text = n.to_string();
        assert_eq!(
            BdyKind::from_str(&text),
            Ok(BdyKind::Hostage {
                freed_frame: FrameNumberNext(n - 1000)
            })
        );
    }
    for n in [-1999isize, -1050, -1000] {
        let text = n.to_string();
        assert_eq!(
            BdyKind::from_str(&text),
            Ok(BdyKind::Hostage {
                freed_frame: FrameNumberNext(n + 1000)
            })
        );
    }
    for n in [-999isize, -1, 1, 999, 2000, -2000, 12345] {
        let text = n.to_string();
        assert_eq!(BdyKind::from_str(&text), Err(BdyKindParseError::InvalidValue(n)));
    }
}

#[test]
fn bdy_kind_message_lists_valid_values() {
    let err = BdyKind::from_str("500").unwrap_err();
    let msg = err.message();
    assert!(msg.contains("500"));
    assert!(msg.contains("Valid values"));
    assert!(msg.contains("Normal"));
}

#[test]
fn unsigned_codes_reject_a_minus_sign() {
    assert_eq!(
        Effect::from_str("-0"),
        Err(EffectParseError::ParseIntError(IntParseError::InvalidDigit))
    );
    assert_eq!(
        State::from_str("-0"),
        Err(StateParseError::ParseIntError(IntParseError::InvalidDigit))
    );
    assert_eq!(
        CPointKind::from_str("-0"),
        Err(CPointKindParseError::ParseIntError(IntParseError::InvalidDigit))
    );
    assert_eq!(OPointFacing::from_str("-0"), Err(IntParseError::InvalidDigit));
    assert_eq!(OPointFacing::from_str("-20"), Err(IntParseError::InvalidDigit));
}

#[test]
fn o_point_facing_packing() {
    assert_eq!(
        OPointFacing::from_str("0"),
        Ok(OPointFacing { count: 1, direction: OPointFacingDir::ParentSame })
    );
    assert_eq!(
        OPointFacing::from_str("1"),
        Ok(OPointFacing { count: 1, direction: OPointFacingDir::ParentOpposite })
    );
    assert_eq!(
        OPointFacing::from_str("10"),
        Ok(OPointFacing { count: 1, direction: OPointFacingDir::Right })
    );
    assert_eq!(
        OPointFacing::from_str("20"),
        Ok(OPointFacing { count: 2, direction: OPointFacingDir::ParentSame })
    );
    assert_eq!(
        OPointFacing::from_str("21"),
        Ok(OPointFacing { count: 2, direction: OPointFacingDir::ParentOpposite })
    );
}

#[test]
fn kind_error_messages_enumerate_the_valid_codes() {
    let msg = CPointKind::from_str("9").unwrap_err().message();
    assert!(msg.contains("9"));
    assert!(msg.contains("1 (Catcher)"));
    assert!(msg.contains("2 (Caught)"));
    let msg = ItrKind::from_str("99").unwrap_err().message();
    assert!(msg.contains("99"));
    assert!(msg.contains("8 (HealBall)"));
    let msg = WPointKind::from_str("7").unwrap_err().message();
    assert!(msg.contains("3 (Dropping)"));
    let msg = OPointKind::from_str("7").unwrap_err().message();
    assert!(msg.contains("2 (HoldLightWeapon)"));
    let msg = Effect::from_str("8").unwrap_err().message();
    assert!(msg.contains("30 (Icicle)"));
}
