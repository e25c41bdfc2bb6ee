use glass::state::{AnalogGain, ExposureTime, Mu1603BitDepth, Mu1603Mode, Mu1603State};

#[test]
fn modes_have_their_presets() {
    assert_eq!(Mu1603Mode::Mode0.dimensions(), (4632, 3488));
    assert_eq!(Mu1603Mode::Mode1.dimensions(), (2320, 1740));
    assert_eq!(Mu1603Mode::Mode2.dimensions(), (1536, 1160));
    assert_eq!(Mu1603Mode::Mode0.width(), 4632);
    assert_eq!(Mu1603Mode::Mode0.height(), 3488);
    assert_eq!(Mu1603Mode::Mode1.width(), 2320);
    assert_eq!(Mu1603Mode::Mode1.height(), 1740);
    assert_eq!(Mu1603Mode::Mode2.width(), 1536);
    assert_eq!(Mu1603Mode::Mode2.height(), 1160);
    assert_eq!(Mu1603Mode::Mode0.max_hsync(), 0x0e24);
    assert_eq!(Mu1603Mode::Mode1.max_hsync(), 0x08e3);
    assert_eq!(Mu1603Mode::Mode2.max_hsync(), 0x04ca);
    assert_eq!(Mu1603Mode::Mode1.max_hsync(), 2275);
}

#[test]
fn modes_describe_their_resolution() {
    assert_eq!(Mu1603Mode::Mode0.description(), "4632x3488");
    assert_eq!(Mu1603Mode::Mode1.description(), "2320x1740");
    assert_eq!(Mu1603Mode::Mode2.description(), "1536x1160");
}

#[test]
fn bit_depths_have_their_bytes_per_pixel() {
    assert_eq!(Mu1603BitDepth::Depth8.bpp(), 1);
    assert_eq!(Mu1603BitDepth::Depth12.bpp(), 2);
}

#[test]
fn exposure_is_clamped_to_its_limits() {
    assert_eq!(ExposureTime::MIN, 1_000);
    assert_eq!(ExposureTime::MAX, 125_000);
    assert_eq!(ExposureTime::DEFAULT, 94_000);
    assert_eq!(ExposureTime::new_from_us(0).value(), 1_000);
    assert_eq!(ExposureTime::new_from_us(999).value(), 1_000);
    assert_eq!(ExposureTime::new_from_us(1_000).value(), 1_000);
    assert_eq!(ExposureTime::new_from_us(1_001).value(), 1_001);
    assert_eq!(ExposureTime::new_from_us(94_000).value(), 94_000);
    assert_eq!(ExposureTime::new_from_us(124_999).value(), 124_999);
    assert_eq!(ExposureTime::new_from_us(125_000).value(), 125_000);
    assert_eq!(ExposureTime::new_from_us(125_001).value(), 125_000);
    assert_eq!(ExposureTime::new_from_us(usize::MAX).value(), 125_000);
}

#[test]
fn exposure_from_milliseconds_is_clamped() {
    assert_eq!(ExposureTime::new_from_ms(0).value(), 1_000);
    assert_eq!(ExposureTime::new_from_ms(1).value(), 1_000);
    assert_eq!(ExposureTime::new_from_ms(2).value(), 2_000);
    assert_eq!(ExposureTime::new_from_ms(94).value(), 94_000);
    assert_eq!(ExposureTime::new_from_ms(124).value(), 124_000);
    assert_eq!(ExposureTime::new_from_ms(125).value(), 125_000);
    assert_eq!(ExposureTime::new_from_ms(126).value(), 125_000);
    assert_eq!(ExposureTime::new_from_ms(usize::MAX).value(), 125_000);
}

#[test]
fn clamping_an_exposure_again_changes_nothing() {
    for us in [0usize, 1, 999, 1_000, 1_001, 50_000, 124_999, 125_000, 125_001, 10_000_000] {
        let once = ExposureTime::new_from_us(us);
        let twice = ExposureTime::new_from_us(once.value());
        assert_eq!(once, twice);
        assert!(once.value() >= 1_000 && once.value() <= 125_000);
    }
    assert_eq!(ExposureTime::new_from_us(1_000).value(), 1_000);
    assert_eq!(ExposureTime::new_from_us(125_000).value(), 125_000);
}

#[test]
fn exposure_reads_back_in_both_units() {
    let e = ExposureTime::new_from_us(94_999);
    assert_eq!(e.value(), 94_999);
    assert_eq!(e.microseconds(), 94_999);
    assert_eq!(e.milliseconds(), 94);
    assert_eq!(ExposureTime::default().microseconds(), 94_000);
    assert_eq!(ExposureTime::default(), ExposureTime::new_from_us(94_000));
}

#[test]
fn exposure_value_can_be_written_in_place() {
    let mut e = ExposureTime::new_from_us(2_000);
    *e.value_mut() = 3_000;
    assert_eq!(e.value(), 3_000);
    *e.value_mut() += 500;
    assert_eq!(e.microseconds(), 3_500);
}

#[test]
fn default_exposure_on_mode1_reduces_effective_cycles() {
    // (94000 * 54) / 2275 = 2231, which is below 2275 - 10.
    let e = ExposureTime::new_from_us(94_000);
    assert_eq!(e.convert(Mu1603Mode::Mode1, 2275), Some((44, 0, 2275)));
}

#[test]
fn exposure_branches_meet_at_the_boundary() {
    // (95423 * 54) / 2275 = 2264 = 2275 - 11: the sync count stays.
    let below = ExposureTime::new_from_us(95_423);
    assert_eq!(below.convert(Mu1603Mode::Mode1, 2275), Some((11, 0, 2275)));
    // (95424 * 54) / 2275 = 2265 = 2275 - 10: the sync count is expanded.
    let at = ExposureTime::new_from_us(95_424);
    assert_eq!(at.convert(Mu1603Mode::Mode1, 2275), Some((10, 0, 2275)));
    let above = ExposureTime::new_from_us(100_000);
    assert_eq!(above.convert(Mu1603Mode::Mode1, 2275), Some((10, 0, 2383)));
}

#[test]
fn exposure_registers_match_the_known_defaults() {
    // The values that the start sequence sends for 94 ms.
    let e = ExposureTime::new_from_us(94_000);
    assert_eq!(e.convert(Mu1603Mode::Mode1, 1561), Some((0x000a, 0x0000, 0x0cbd)));
    let longest = ExposureTime::new_from_us(125_000);
    assert_eq!(longest.convert(Mu1603Mode::Mode1, 1561), Some((10, 0, 4334)));
}

#[test]
fn exposure_registers_at_the_limits_of_each_mode() {
    let shortest = ExposureTime::new_from_us(1_000);
    assert_eq!(shortest.convert(Mu1603Mode::Mode0, 3488), Some((3605, 0, 3620)));
    assert_eq!(shortest.convert(Mu1603Mode::Mode1, 1740), Some((2244, 0, 2275)));
    let longest = ExposureTime::new_from_us(125_000);
    assert_eq!(longest.convert(Mu1603Mode::Mode2, 1160), Some((10, 0, 5828)));
}

#[test]
fn sync_count_is_pinned_to_seventeen_bits() {
    // One line: 94000 * 54 cycles per line, far above 0x1fff4.
    let e = ExposureTime::new_from_us(94_000);
    assert_eq!(e.convert(Mu1603Mode::Mode1, 1), Some((10, 1, 0xffff)));
    // 2427 * 54 = 131058 cycles per line are below 0x1fff4: expanded by ten.
    let mut edge = ExposureTime::new_from_us(2_427);
    assert_eq!(edge.convert(Mu1603Mode::Mode1, 1), Some((10, 1, 0xfffc)));
    *edge.value_mut() = 2_428;
    assert_eq!(edge.convert(Mu1603Mode::Mode1, 1), Some((10, 1, 0xffff)));
}

#[test]
fn sync_count_is_clamped_only_where_it_would_not_fit() {
    // 46114 * 54 / 19 = 0x1fff4: expanded by ten this is 0x1fffe, which fits.
    let fits = ExposureTime::new_from_us(46_114);
    assert_eq!(fits.convert(Mu1603Mode::Mode1, 19), Some((10, 1, 0xfffe)));
    assert_eq!(fits.convert(Mu1603Mode::Mode0, 19), Some((10, 1, 0xfffe)));
    assert_eq!(fits.convert(Mu1603Mode::Mode2, 19), Some((10, 1, 0xfffe)));
    // 33979 * 54 / 14 = 0x1fff5: expanded by ten this is 0x1ffff, the last that fits.
    let last = ExposureTime::new_from_us(33_979);
    assert_eq!(last.convert(Mu1603Mode::Mode1, 14), Some((10, 1, 0xffff)));
    // 26698 * 54 / 11 = 0x1fff6: expanded by ten this is 0x20000, which is clamped.
    let over = ExposureTime::new_from_us(26_698);
    assert_eq!(over.convert(Mu1603Mode::Mode1, 11), Some((10, 1, 0xffff)));
    // One line at the shortest exposure: 54000 cycles per line, expanded by ten.
    let low = ExposureTime::new_from_us(1_000);
    assert_eq!(low.convert(Mu1603Mode::Mode1, 1), Some((10, 0, 54_010)));
}

#[test]
fn exposure_from_milliseconds_is_the_exposure_of_its_microseconds() {
    for ms in [0usize, 1, 2, 94, 124, 125, 126, 10_000, usize::MAX / 1000] {
        assert_eq!(ExposureTime::new_from_ms(ms), ExposureTime::new_from_us(ms * 1000));
    }
    assert_eq!(ExposureTime::new_from_us(125_001), ExposureTime::new_from_us(125_000));
    assert_eq!(ExposureTime::new_from_us(999), ExposureTime::new_from_us(1_000));
}

#[test]
fn clamping_a_gain_again_changes_nothing() {
    for percent in [0usize, 99, 100, 101, 150, 299, 300, 301, usize::MAX] {
        let once = AnalogGain::new_from_percent(percent);
        assert_eq!(AnalogGain::new_from_percent(once.percent()), once);
    }
    assert_eq!(AnalogGain::new_from_percent(99), AnalogGain::new_from_percent(100));
    assert_eq!(AnalogGain::new_from_percent(301), AnalogGain::new_from_percent(300));
}

#[test]
fn longer_exposure_never_raises_effective_cycles() {
    for mode in [Mu1603Mode::Mode0, Mu1603Mode::Mode1, Mu1603Mode::Mode2] {
        for lines in [1u16, 100, 1160, 1740, 2275, 3488, u16::MAX] {
            let mut last_eff = u16::MAX;
            let mut last_hsync = 0u32;
            let mut us = 1_000usize;
            while us <= 125_000 {
                let (eff, high, low) =
                    ExposureTime::new_from_us(us).convert(mode, lines).unwrap();
                let hsync = ((high as u32) << 16) | low as u32;
                assert!(eff >= 10);
                assert!(eff <= last_eff);
                assert!(hsync >= last_hsync);
                assert!(hsync <= 0x1ffff);
                last_eff = eff;
                last_hsync = hsync;
                us += 997;
            }
        }
    }
}

#[test]
fn conversion_gives_the_same_registers_each_time() {
    let e = ExposureTime::new_from_us(60_000);
    let first = e.convert(Mu1603Mode::Mode2, 1160);
    let second = e.convert(Mu1603Mode::Mode2, 1160);
    assert_eq!(first, second);
    assert_eq!(first, Some((10, 0, 2803)));
}

#[test]
fn gain_is_clamped_to_its_limits() {
    assert_eq!(AnalogGain::MIN, 100);
    assert_eq!(AnalogGain::MAX, 300);
    assert_eq!(AnalogGain::DEFAULT, 100);
    assert_eq!(AnalogGain::new_from_percent(0).value(), 100);
    assert_eq!(AnalogGain::new_from_percent(99).percent(), 100);
    assert_eq!(AnalogGain::new_from_percent(100).percent(), 100);
    assert_eq!(AnalogGain::new_from_percent(101).percent(), 101);
    assert_eq!(AnalogGain::new_from_percent(300).percent(), 300);
    assert_eq!(AnalogGain::new_from_percent(301).percent(), 300);
    assert_eq!(AnalogGain::new_from_percent(usize::MAX).value(), 300);
    assert_eq!(AnalogGain::default().percent(), 100);
    let mut g = AnalogGain::new_from_percent(150);
    *g.value_mut() = 200;
    assert_eq!(g.value(), 200);
}

#[test]
fn state_hands_out_its_settings() {
    let mut s = Mu1603State {
        id: 7,
        mode: Mu1603Mode::Mode2,
        exposure: ExposureTime::new_from_us(33_500),
        analog_gain: AnalogGain::new_from_percent(250),
        bitdepth: Mu1603BitDepth::Depth12,
    };
    assert_eq!(s.exposure_ms(), 33);
    assert_eq!(s.analog_gain_percent(), 250);
    assert_eq!(*s.mode(), Mu1603Mode::Mode2);
    assert_eq!(*s.exposure(), ExposureTime::new_from_us(33_500));
    assert_eq!(*s.analog_gain(), AnalogGain::new_from_percent(250));
    assert_eq!(*s.bitdepth(), Mu1603BitDepth::Depth12);

    *s.mode_mut() = Mu1603Mode::Mode0;
    *s.exposure_mut() = ExposureTime::new_from_ms(10);
    *s.analog_gain_mut() = AnalogGain::new_from_percent(120);
    *s.bitdepth_mut() = Mu1603BitDepth::Depth8;
    assert_eq!(s.mode, Mu1603Mode::Mode0);
    assert_eq!(s.exposure.value(), 10_000);
    assert_eq!(s.analog_gain.value(), 120);
    assert_eq!(s.bitdepth, Mu1603BitDepth::Depth8);
    assert_eq!(s.id, 7);
}
