use tspl2::{
    Alignment, Barcode, BitmapMode, Codepage, Codepage8Bit, CodepageWindows, Country, Font,
    HumanReadable, NarrowWide, Printer, QrCodeJustification, Rotation, RssType, Selftest, Size,
    Tape, TsplError,
};

fn session() -> Printer {
    let tape = Tape {
        width: Size::Metric(30000),
        height: Some(Size::Metric(20000)),
        gap: Size::Metric(2000),
        gap_offset: None,
    };
    let mut p = Printer::with_resolution(tape, 300);
    p.take_output();
    p
}

#[test]
fn barcode_golden_line() {
    let mut p = session();
    p.barcode(
        Size::Metric(15000),
        Size::Metric(0),
        Barcode::Barcode39,
        Size::Metric(15000),
        HumanReadable::ReadableAlignsToCenter,
        Rotation::NoRotation,
        NarrowWide::N1W3,
        Some(Alignment::Center),
        "0123456789AB",
    )
    .unwrap();
    assert_eq!(
        p.output(),
        &b"BARCODE 177,0,\"39\",177,2,0,1,3,2, \"0123456789AB\"\r\n"[..]
    );
}

#[test]
fn barcode_without_alignment() {
    let mut p = session();
    p.barcode(
        Size::Dots(10),
        Size::Dots(20),
        Barcode::BarcodeEan13,
        Size::Dots(100),
        HumanReadable::NotReadable,
        Rotation::Rotation90,
        NarrowWide::N2W5,
        None,
        "590123412345",
    )
    .unwrap();
    assert_eq!(
        p.output(),
        &b"BARCODE 10,20,\"EAN13\",100,0,90,2,5, \"590123412345\"\r\n"[..]
    );
}

#[test]
fn qrcode_line_and_grades() {
    let mut p = session();
    p.qrcode(Size::Metric(9000), Size::Metric(0), 35, 6, Rotation::NoRotation, None, "0123456789AB")
        .unwrap();
    assert_eq!(p.take_output(), b"QRCODE 106,0,H,6,A,0,\"0123456789AB\"\r\n".to_vec());
    for (level, grade) in [(0u8, b'L'), (6, b'L'), (7, b'M'), (14, b'M'), (15, b'Q'), (24, b'Q'), (25, b'H'), (30, b'H')] {
        p.qrcode(Size::Dots(1), Size::Dots(2), level, 1, Rotation::NoRotation, Some(QrCodeJustification::Center), "x")
            .unwrap();
        let mut expected = b"QRCODE 1,2,".to_vec();
        expected.push(grade);
        expected.extend_from_slice(b",1,A,0,J5,\"x\"\r\n");
        assert_eq!(p.take_output(), expected);
    }
}

#[test]
fn qrcode_cell_width_bounds() {
    let mut p = session();
    assert_eq!(
        p.qrcode(Size::Dots(0), Size::Dots(0), 0, 0, Rotation::NoRotation, None, "x"),
        Err(TsplError::CellWidth)
    );
    assert_eq!(
        p.qrcode(Size::Dots(0), Size::Dots(0), 0, 11, Rotation::NoRotation, None, "x"),
        Err(TsplError::CellWidth)
    );
    assert_eq!(p.output(), b"");
    p.qrcode(Size::Dots(0), Size::Dots(0), 0, 10, Rotation::NoRotation, None, "x").unwrap();
    assert_eq!(p.output(), b"QRCODE 0,0,L,10,A,0,\"x\"\r\n");
}

#[test]
fn text_line_and_multiplication() {
    let mut p = session();
    p.text(
        Size::Metric(15000),
        Size::Metric(14500),
        Font::Font24x32,
        Rotation::NoRotation,
        1,
        1,
        Some(Alignment::Center),
        "0123456789AB",
    )
    .unwrap();
    assert_eq!(p.take_output(), b"TEXT 177,171,\"4\",0,1,1,2, \"0123456789AB\"\r\n".to_vec());
    assert_eq!(
        p.text(Size::Dots(0), Size::Dots(0), Font::FontRoman, Rotation::NoRotation, 0, 1, None, "x"),
        Err(TsplError::Multiply)
    );
    assert_eq!(
        p.text(Size::Dots(0), Size::Dots(0), Font::FontRoman, Rotation::NoRotation, 1, 11, None, "x"),
        Err(TsplError::Multiply)
    );
    p.text(Size::Dots(0), Size::Dots(0), Font::FontRoman, Rotation::Rotation180, 10, 10, None, "x")
        .unwrap();
    assert_eq!(p.output(), b"TEXT 0,0,\"ROMAN.TTF\",180,10,10, \"x\"\r\n");
}

#[test]
fn block_with_and_without_options() {
    let mut p = session();
    p.block(
        Size::Dots(10),
        Size::Dots(20),
        Size::Dots(300),
        Size::Dots(100),
        Font::FontRoman,
        Rotation::Rotation90,
        2,
        3,
        Some(Size::Dots(4)),
        Some(Alignment::Left),
        Some(true),
        "hi",
    )
    .unwrap();
    p.block(
        Size::Dots(10),
        Size::Dots(20),
        Size::Dots(300),
        Size::Dots(100),
        Font::FontRoman,
        Rotation::Rotation90,
        2,
        3,
        None,
        None,
        Some(false),
        "hi",
    )
    .unwrap();
    assert_eq!(
        p.output(),
        &b"TEXT 10,20,300,100,\"ROMAN.TTF\",90,2,3,4,1,1,\"hi\"\r\nTEXT 10,20,300,100,\"ROMAN.TTF\",90,2,3,0,\"hi\"\r\n"[..]
    );
}

#[test]
fn block_limits() {
    let mut p = session();
    let long = "a".repeat(4097);
    let full = "a".repeat(4096);
    let d = Size::Dots(1);
    assert_eq!(
        p.block(d, d, d, d, Font::Font8x12, Rotation::NoRotation, 11, 1, None, None, None, "x"),
        Err(TsplError::Multiply)
    );
    assert_eq!(
        p.block(d, d, d, d, Font::Font8x12, Rotation::NoRotation, 0, 1, None, None, None, &long),
        Err(TsplError::Multiply)
    );
    assert_eq!(
        p.block(d, d, d, d, Font::Font8x12, Rotation::NoRotation, 1, 1, None, None, None, &long),
        Err(TsplError::ContentLength)
    );
    assert_eq!(p.output(), b"");
    p.block(d, d, d, d, Font::Font8x12, Rotation::NoRotation, 1, 1, None, None, None, &full)
        .unwrap();
    assert_eq!(p.output().len(), "TEXT 1,1,1,1,\"1\",0,1,1,\"\"\r\n".len() + 4096);
}

#[test]
fn rss_lines() {
    let mut p = session();
    let (x, y) = (Size::Dots(10), Size::Dots(20));
    p.rss(x, y, RssType::Rss14, Rotation::NoRotation, Size::Dots(2), 1, None, None, "1234").unwrap();
    p.rss(x, y, RssType::RssExp, Rotation::NoRotation, Size::Dots(2), 2, Some(4), None, "1234").unwrap();
    p.rss(x, y, RssType::Ucc128Cca, Rotation::Rotation90, Size::Metric(200), 1, None, Some(100), "x").unwrap();
    assert_eq!(
        p.output(),
        &b"RSS 10,20, \"RSS14\",0,2,1, \"1234\"\r\nRSS 10,20, \"RSSEXP\",0,2,2,4, \"1234\"\r\nRSS 10,20, \"UCC128CCA\",90,2,1,100, \"x\"\r\n"[..]
    );
}

#[test]
fn rss_checks_in_order() {
    let mut p = session();
    let (x, y) = (Size::Dots(10), Size::Dots(20));
    let r = Rotation::NoRotation;
    assert_eq!(p.rss(x, y, RssType::Rss14, r, Size::Dots(0), 3, None, None, "1"), Err(TsplError::ModuleWidth));
    assert_eq!(p.rss(x, y, RssType::Rss14, r, Size::Dots(11), 1, None, None, "1"), Err(TsplError::ModuleWidth));
    assert_eq!(p.rss(x, y, RssType::Rss14, r, Size::Dots(1), 3, None, None, "1"), Err(TsplError::SeparatorHeight));
    assert_eq!(p.rss(x, y, RssType::RssExp, r, Size::Dots(1), 1, None, None, "1"), Err(TsplError::MissingSegmentWidth));
    assert_eq!(p.rss(x, y, RssType::RssExp, r, Size::Dots(1), 1, Some(1), None, "1"), Err(TsplError::SegmentWidth));
    assert_eq!(p.rss(x, y, RssType::RssExp, r, Size::Dots(1), 1, Some(23), None, "1"), Err(TsplError::SegmentWidth));
    assert_eq!(p.rss(x, y, RssType::Ucc128Ccc, r, Size::Dots(1), 1, None, None, "1"), Err(TsplError::MissingLinearHeight));
    assert_eq!(p.rss(x, y, RssType::Ucc128Ccc, r, Size::Dots(1), 1, None, Some(0), "1"), Err(TsplError::LinearHeight));
    assert_eq!(p.rss(x, y, RssType::Ucc128Cca, r, Size::Dots(1), 1, Some(5), Some(501), "1"), Err(TsplError::LinearHeight));
    assert_eq!(p.output(), b"");
}

#[test]
fn aztec_line_and_checks() {
    let mut p = session();
    let (x, y) = (Size::Dots(5), Size::Dots(6));
    let r = Rotation::Rotation180;
    assert_eq!(p.aztec(x, y, r, 0, 23, false, true, 6, false, "ABC"), Err(TsplError::AztecSize));
    assert_eq!(p.aztec(x, y, r, 21, 23, false, true, 6, false, "ABC"), Err(TsplError::AztecSize));
    assert_eq!(p.aztec(x, y, r, 10, 301, false, true, 6, false, "ABC"), Err(TsplError::AztecErrorControl));
    assert_eq!(p.aztec(x, y, r, 10, 300, false, true, 0, false, "ABC"), Err(TsplError::AztecSymbols));
    assert_eq!(p.aztec(x, y, r, 10, 300, false, true, 27, false, "ABC"), Err(TsplError::AztecSymbols));
    assert_eq!(p.output(), b"");
    p.aztec(x, y, r, 10, 23, false, true, 6, false, "ABC").unwrap();
    p.aztec(x, y, r, 1, 0, true, false, 26, true, "é").unwrap();
    assert_eq!(
        p.output(),
        "AZTEC 5,6,180,10,23,0,1,6,0,3,ABC\r\nAZTEC 5,6,180,1,0,1,0,26,1,2,é\r\n".as_bytes()
    );
}

#[test]
fn micro_pdf417_columns_and_defaults() {
    let mut p = session();
    let (x, y) = (Size::Dots(1), Size::Dots(2));
    p.mpdf417(x, y, Rotation::NoRotation, None, None, Some(3), "x").unwrap();
    p.mpdf417(x, y, Rotation::NoRotation, Some(Size::Dots(2)), Some(Size::Dots(20)), Some(5), "x").unwrap();
    p.mpdf417(x, y, Rotation::NoRotation, None, None, None, "x").unwrap();
    assert_eq!(
        p.output(),
        &b"MPDF417 1,2,0,1,10,3, \"x\"\r\nMPDF417 1,2,0,2,20,0, \"x\"\r\nMPDF417 1,2,0,1,10,0, \"x\"\r\n"[..]
    );
}

#[test]
fn tlc39_defaults() {
    let mut p = session();
    p.tlc39(Size::Dots(1), Size::Dots(2), Rotation::NoRotation, None, None, None, None, None, "eci", "sn", "add")
        .unwrap();
    p.tlc39(
        Size::Dots(1),
        Size::Dots(2),
        Rotation::Rotation90,
        Some(Size::Dots(50)),
        Some(Size::Dots(3)),
        Some(Size::Dots(6)),
        Some(Size::Dots(3)),
        Some(Size::Dots(5)),
        "a",
        "b",
        "c",
    )
    .unwrap();
    assert_eq!(
        p.output(),
        &b"TLC39 1,2,0,40,2,4,2,4, \"eci,sn,add\"\r\nTLC39 1,2,90,50,3,6,3,5, \"a,b,c\"\r\n"[..]
    );
}

#[test]
fn bitmap_payload_is_raw() {
    let mut p = session();
    p.bitmap(Size::Dots(1), Size::Dots(2), 2, 1, BitmapMode::Xor, vec![0xff, 0x00, b'\r']).unwrap();
    assert_eq!(p.output(), b"BITMAP 1,2,2,1,2,\xff\x00\r\r\n");
}

#[test]
fn shapes() {
    let mut p = session();
    let d = |n| Size::Dots(n);
    p.bar(d(1), d(2), d(3), d(4)).unwrap();
    p.rectangle(d(1), d(2), d(3), d(4), d(5), None).unwrap();
    p.rectangle(d(1), d(2), d(3), d(4), d(5), Some(d(9))).unwrap();
    p.circle(d(1), d(2), d(3), d(4)).unwrap();
    p.ellipse(d(1), d(2), d(3), d(4), d(5)).unwrap();
    p.erase(d(1), d(2), d(3), d(4)).unwrap();
    p.reverse(d(1), d(2), d(3), d(4)).unwrap();
    p.diagonal(d(1), d(2), d(3), d(4), d(5)).unwrap();
    assert_eq!(
        p.output(),
        &b"BAR 1,2,3,4\r\nBOX 1,2,3,4,5,0\r\nBOX 1,2,3,4,5,9\r\nCIRCLE 1,2,3,4\r\nELLIPSE 1,2,3,4,5\r\nERASE 1,2,3,4\r\nREVERSE 1,2,3,4\r\nDIAGONAL 1,2,3,4,5\r\n"[..]
    );
}

#[test]
fn two_dimensional_codes() {
    let mut p = session();
    let d = |n| Size::Dots(n);
    p.codablock(d(1), d(2), Rotation::NoRotation, None, None, "x").unwrap();
    p.codablock(d(1), d(2), Rotation::Rotation270, Some(d(6)), Some(d(3)), "x").unwrap();
    p.data_matrix(d(1), d(2), d(3), d(4), "x").unwrap();
    p.pdf417(d(1), d(2), d(3), d(4), Rotation::Rotation90, "x").unwrap();
    assert_eq!(
        p.output(),
        &b"CODABLOCK 1,2,0,8,8,\"x\"\r\nCODABLOCK 1,2,270,6,3,\"x\"\r\nDMATRIX 1,2,3,4, \"x\"\r\nPDF417 1,2,3,4,90,\"x\"\r\n"[..]
    );
}

#[test]
fn vocabulary_commands() {
    let mut p = session();
    p.country(Country::German).unwrap();
    p.codepage(Codepage::Codepage8Bit(Codepage8Bit::UnitedStates)).unwrap();
    p.codepage(Codepage::CodepageWindows(CodepageWindows::Utf8)).unwrap();
    p.selftest(Selftest::All).unwrap();
    p.selftest(Selftest::Pattern).unwrap();
    assert_eq!(
        p.output(),
        b"COUNTRY 049\r\nCODEPAGE 437\r\nCODEPAGE UTF-8\r\nSELFTEST \r\nSELFTEST PATTERN\r\n"
    );
}
