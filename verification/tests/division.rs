use crustysynth::division::{Division, DivisionError, TickDuration};

#[test]
fn test_metrical() {
    assert_eq!(Division::try_from(0x0080).unwrap(), Division::Metrical(128));
    assert_eq!(Division::try_from(0x0050).unwrap(), Division::Metrical(80));
    assert_eq!(
        Division::try_from(0x7FFF).unwrap(),
        Division::Metrical(32767)
    );
}

#[test]
fn test_timecode() {
    // One frame at 24 fps, 120 ticks per frame: 1/(24*120) seconds.
    let dur_a = TickDuration { num: 1, den: 2880 };
    assert_eq!(
        Division::try_from(0xE878).unwrap(),
        Division::TimeCode(dur_a)
    );
    // 25 fps, 100 ticks per frame.
    let dur_b = TickDuration { num: 1, den: 2500 };
    assert_eq!(
        Division::try_from(0xE764).unwrap(),
        Division::TimeCode(dur_b)
    );
    // 29.97 fps kept exact as 2997/100, 50 ticks per frame.
    let dur_c = TickDuration {
        num: 100,
        den: 149850,
    };
    assert_eq!(
        Division::try_from(0xE332).unwrap(),
        Division::TimeCode(dur_c)
    );
    // 30 fps, 50 ticks per frame.
    let dur_d = TickDuration { num: 1, den: 1500 };
    assert_eq!(
        Division::try_from(0xE232).unwrap(),
        Division::TimeCode(dur_d)
    );
}

#[test]
fn test_timecode_invalid_frames() {
    for i in 0x80_u16..=0xFF {
        if let -24 | -25 | -29 | -30 = i as i8 {
            continue;
        }
        let value = (i << 8) + 0x32;
        assert_eq!(
            Division::try_from(value).unwrap_err(),
            DivisionError::InvalidFrameFormat(i as i8)
        );
    }
}

#[test]
fn test_zero_division() {
    assert_eq!(
        Division::try_from(0x0000).unwrap_err(),
        DivisionError::ZeroDivision
    );

    assert_eq!(
        Division::try_from(0xE200).unwrap_err(),
        DivisionError::ZeroDivision
    );
}

#[test]
fn test_get_tick_duration_metrical() {
    // 60 ticks per beat at 120 beats per minute: 60/(60*120) seconds.
    let bpm_a = 120;
    let div_a = Division::Metrical(60);
    let dur_a = TickDuration { num: 60, den: 7200 };
    assert_eq!(div_a.get_tick_duration(bpm_a), dur_a);

    let bpm_b = 62;
    let div_b = Division::Metrical(52);
    let dur_b = TickDuration { num: 60, den: 3224 };
    assert_eq!(div_b.get_tick_duration(bpm_b), dur_b);
}

#[test]
fn test_get_tick_duration_timecode() {
    let dur_a = TickDuration { num: 1, den: 2880 };
    let dur_b = TickDuration { num: 1, den: 2500 };
    let dur_c = TickDuration {
        num: 100,
        den: 149850,
    };
    let dur_d = TickDuration { num: 1, den: 1500 };
    // Tempo should not matter with time code.
    assert_eq!(Division::TimeCode(dur_a).get_tick_duration(120), dur_a);
    assert_eq!(Division::TimeCode(dur_b).get_tick_duration(420), dur_b);
    assert_eq!(Division::TimeCode(dur_c).get_tick_duration(1), dur_c);
    assert_eq!(Division::TimeCode(dur_d).get_tick_duration(999), dur_d);
}
