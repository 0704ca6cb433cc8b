use tspl2::Size;

#[test]
fn one_inch_is_the_resolution() {
    for r in [1u32, 150, 203, 300, 600, 1200] {
        assert_eq!(Size::Metric(25400).to_dots(r), r as i64);
        assert_eq!(Size::Imperial(1000).to_dots(r), r as i64);
    }
}

#[test]
fn to_dots_truncates_toward_zero() {
    // 0.1 mm at 300 dpi is 1.18 dots
    assert_eq!(Size::Metric(100).to_dots(300), 1);
    assert_eq!(Size::Metric(15000).to_dots(300), 177);
    assert_eq!(Size::Metric(14500).to_dots(300), 171);
    assert_eq!(Size::Imperial(1500).to_dots(203), 304);
    assert_eq!(Size::Imperial(-1500).to_dots(203), -304);
    assert_eq!(Size::Metric(-100).to_dots(300), -1);
}

#[test]
fn dots_pass_through() {
    assert_eq!(Size::Dots(42).to_dots(300), 42);
    assert_eq!(Size::Dots(-7).to_dots(600), -7);
    assert_eq!(Size::Dots(i32::MAX).to_dots(0), i32::MAX as i64);
}

#[test]
fn extreme_lengths_do_not_overflow() {
    assert_eq!(
        Size::Imperial(i32::MIN).to_dots(u32::MAX),
        -((2147483648u64 * 4294967295u64 / 1000) as i64)
    );
    assert_eq!(
        Size::Metric(i32::MAX).to_dots(u32::MAX),
        (2147483647u64 * 4294967295u64 / 25400) as i64
    );
}

#[test]
fn length_text_with_units() {
    assert_eq!(Size::Metric(30000).text(), b"30 mm".to_vec());
    assert_eq!(Size::Metric(1400).text(), b"1.4 mm".to_vec());
    assert_eq!(Size::Metric(25400).text(), b"25.4 mm".to_vec());
    assert_eq!(Size::Imperial(1500).text(), b"1.5".to_vec());
    assert_eq!(Size::Imperial(1000).text(), b"1".to_vec());
    assert_eq!(Size::Imperial(1005).text(), b"1.005".to_vec());
    assert_eq!(Size::Imperial(1050).text(), b"1.05".to_vec());
    assert_eq!(Size::Imperial(-250).text(), b"-0.25".to_vec());
    assert_eq!(Size::Imperial(0).text(), b"0".to_vec());
    assert_eq!(Size::Dots(12).text(), b"12 dot".to_vec());
    assert_eq!(Size::Dots(-3).text(), b"-3 dot".to_vec());
}
