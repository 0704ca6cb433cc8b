use tspl2::{Printer, Size, Tape, TsplError};

fn ready(dpi: u32) -> Printer {
    let tape = Tape {
        width: Size::Metric(30000),
        height: Some(Size::Metric(20000)),
        gap: Size::Metric(2000),
        gap_offset: None,
    };
    let mut p = Printer::with_resolution(tape, dpi);
    p.take_output();
    p
}

#[test]
fn test() {
    let tape = Tape {
        width: Size::Metric(30000),
        height: Some(Size::Metric(20000)),
        gap: Size::Metric(1400),
        gap_offset: None,
    };
    let mut printer = Printer::with_resolution(tape, 300);
    printer.gap_detect(Some((Size::Dots(1), Size::Dots(1)))).unwrap();
    printer.auto_detect(Some((Size::Dots(1), Size::Dots(1)))).unwrap();
    assert_eq!(
        printer.output(),
        b"SIZE 30 mm,20 mm\r\nGAP 1.4 mm\r\nCLS\r\nGAPDETECT 1,1\r\nAUTODETECT 1,1\r\n"
    );
}

#[test]
fn construction_declares_geometry_then_clears() {
    let tape = Tape {
        width: Size::Imperial(2000),
        height: None,
        gap: Size::Dots(24),
        gap_offset: Some(Size::Dots(0)),
    };
    let p = Printer::with_resolution(tape, 203);
    assert_eq!(p.resolution(), 203);
    assert_eq!(p.output(), b"SIZE 2\r\nGAP 24 dot,0 dot\r\nCLS\r\n");
}

#[test]
fn take_output_empties_the_buffer() {
    let mut p = ready(300);
    p.cls().unwrap();
    assert_eq!(p.take_output(), b"CLS\r\n".to_vec());
    assert_eq!(p.output(), b"");
    assert_eq!(p.resolution(), 300);
}

#[test]
fn chain_stops_at_first_failure() {
    let mut p = ready(300);
    let run = |p: &mut Printer| -> Result<(), TsplError> {
        p.cls()?;
        p.density(99)?;
        p.cut()?;
        Ok(())
    };
    assert_eq!(run(&mut p), Err(TsplError::Density));
    assert_eq!(p.output(), b"CLS\r\n");
}

#[test]
fn density_boundaries() {
    let mut p = ready(300);
    assert_eq!(p.density(0), Err(TsplError::Density));
    assert_eq!(p.output(), b"");
    assert_eq!(p.density(1), Ok(()));
    assert_eq!(p.density(15), Ok(()));
    assert_eq!(p.density(16), Err(TsplError::Density));
    assert_eq!(p.output(), b"DENSITY 1\r\nDENSITY 15\r\n");
}

#[test]
fn print_boundaries() {
    let mut p = ready(300);
    assert_eq!(p.print(0, None), Err(TsplError::Sets));
    assert_eq!(p.output(), b"");
    assert_eq!(p.print(1, None), Ok(()));
    assert_eq!(p.output(), b"PRINT 1\r\n");
    assert_eq!(p.print(1_000_000_000, None), Err(TsplError::Sets));
    assert_eq!(p.print(2, Some(0)), Err(TsplError::Copies));
    assert_eq!(p.print(2, Some(1_000_000_000)), Err(TsplError::Copies));
    assert_eq!(p.print(999_999_999, Some(3)), Ok(()));
    assert_eq!(p.output(), b"PRINT 1\r\nPRINT 999999999,3\r\n");
}

#[test]
fn sound_boundaries() {
    let mut p = ready(300);
    assert_eq!(p.sound(10, 100), Err(TsplError::Sound));
    assert_eq!(p.sound(5, 0), Err(TsplError::Sound));
    assert_eq!(p.sound(5, 4096), Err(TsplError::Sound));
    assert_eq!(p.sound(0, 1), Ok(()));
    assert_eq!(p.sound(9, 4095), Ok(()));
    assert_eq!(p.output(), b"SOUND 0,1\r\nSOUND 9,4095\r\n");
}

#[test]
fn feed_range_in_dots() {
    let mut p = ready(300);
    assert_eq!(p.feed(Size::Dots(10000)), Err(TsplError::FeedLength));
    assert_eq!(p.backup(Size::Dots(-1)), Err(TsplError::FeedLength));
    assert_eq!(p.backfeed(Size::Imperial(40000)), Err(TsplError::FeedLength));
    assert_eq!(p.output(), b"");
    p.feed(Size::Dots(9999)).unwrap();
    p.backup(Size::Dots(0)).unwrap();
    p.backfeed(Size::Metric(10000)).unwrap();
    assert_eq!(p.output(), b"FEED 9999\r\nBACKUP 0\r\nBACKFEED 118\r\n");
}

#[test]
fn unsupported_commands_fail() {
    let p = ready(300);
    assert_eq!(p.display(), Err(TsplError::Unimplemented));
    assert_eq!(p.menu(), Err(TsplError::Unimplemented));
}

#[test]
fn error_messages_are_descriptive() {
    assert!(TsplError::Density.message().contains("1..=15"));
    assert!(TsplError::Unimplemented.message().contains("not supported"));
}

#[test]
fn bare_commands() {
    let mut p = ready(300);
    p.cls().unwrap();
    p.formfeed().unwrap();
    p.home().unwrap();
    p.cut().unwrap();
    p.eoj().unwrap();
    p.initial_printer().unwrap();
    assert_eq!(
        p.output(),
        b"CLS\r\nFORMFEED\r\nHOME\r\nCUT\r\nEOJ\r\nINITIALPRINTER\r\n"
    );
}

#[test]
fn calibration_without_lengths() {
    let mut p = ready(300);
    p.gap_detect(None).unwrap();
    p.bline_detect(None).unwrap();
    p.auto_detect(None).unwrap();
    p.bline_detect(Some((Size::Metric(25400), Size::Imperial(500)))).unwrap();
    assert_eq!(
        p.output(),
        b"GAPDETECT\r\nBLINEDETECT\r\nAUTODETECT\r\nBLINEDETECT 300,150\r\n"
    );
}

#[test]
fn physical_unit_commands() {
    let mut p = ready(300);
    p.size(Size::Imperial(1500), Some(Size::Imperial(1000))).unwrap();
    p.gap(Size::Metric(2500), None).unwrap();
    p.bline(Size::Metric(3000), Size::Metric(0)).unwrap();
    p.offset(Size::Imperial(-250)).unwrap();
    p.limit_feed(Size::Dots(800), None).unwrap();
    p.limit_feed(Size::Metric(100000), Some((Size::Metric(5000), Size::Metric(3125)))).unwrap();
    assert_eq!(
        p.output(),
        &b"SIZE 1.5,1\r\nGAP 2.5 mm\r\nBLINE 3 mm,0 mm\r\nOFFSET -0.25\r\nLIMITFEED 800 dot\r\nLIMITFEED 100 mm,5 mm,3.125 mm\r\n"[..]
    );
}

#[test]
fn settings_commands() {
    let mut p = ready(203);
    p.speed("4").unwrap();
    p.direction(true, false).unwrap();
    p.reference(Size::Dots(10), Size::Imperial(1000)).unwrap();
    p.shift(None, Size::Dots(-12)).unwrap();
    p.shift(Some(Size::Dots(5)), Size::Dots(6)).unwrap();
    p.delay(std::time::Duration::from_millis(1500).as_millis()).unwrap();
    assert_eq!(
        p.output(),
        b"SPEED 4\r\nDIRECTION 1,0\r\nREFERENCE 10,203\r\nSHIFT -12\r\nSHIFT 5,6\r\nDELAY 1500\r\n"
    );
}
