use tspl2::{
    Alignment, Barcode, BitmapMode, Codepage, Codepage7Bit, Codepage8Bit, CodepageIso,
    CodepageWindows, Country, Font, HumanReadable, NarrowWide, QrCodeJustification, Rotation,
    RssType, Selftest,
};

#[test]
fn country_tokens_are_three_digits() {
    assert_eq!(Country::German.token(), b"049".to_vec());
    assert_eq!(Country::German.code(), 49);
    assert_eq!(Country::Usa.token(), b"001".to_vec());
    assert_eq!(Country::Finnish.token(), b"358".to_vec());
    assert_eq!(Country::English.token(), b"061".to_vec());
}

#[test]
fn codepage_tokens() {
    assert_eq!(Codepage::Codepage7Bit(Codepage7Bit::German).token(), "GER");
    assert_eq!(Codepage::Codepage8Bit(Codepage8Bit::UnitedStates).token(), "437");
    assert_eq!(Codepage::Codepage8Bit(Codepage8Bit::Greek2).token(), "869");
    assert_eq!(Codepage::CodepageWindows(CodepageWindows::Japanese).token(), "932");
    assert_eq!(Codepage::CodepageWindows(CodepageWindows::Utf8).token(), "UTF-8");
    assert_eq!(Codepage::CodepageIso(CodepageIso::Latin9).token(), "8859-15");
    assert_eq!(Codepage::CodepageIso(CodepageIso::Latin6).token(), "8859-10");
}

#[test]
fn barcode_tokens() {
    assert_eq!(Barcode::Barcode39.token(), "39");
    assert_eq!(Barcode::BarcodeEan13.token(), "EAN13");
    assert_eq!(Barcode::BarcodeEan13Plus2.token(), "EAN13+2");
    assert_eq!(Barcode::Barcode128M.token(), "128M");
    assert_eq!(Barcode::BarcodeTelepenN.token(), "TELEPENN");
    assert_eq!(Barcode::BarcodeLogmars.token(), "LOGMARS");
    assert_eq!(RssType::Rss14So.token(), "RSS14SO");
    assert_eq!(RssType::Ucc128Ccc.token(), "UCC128CCC");
}

#[test]
fn font_tokens() {
    assert_eq!(Font::FontMonotye.token(), "0");
    assert_eq!(Font::Font24x32.token(), "4");
    assert_eq!(Font::FontRoman.token(), "ROMAN.TTF");
    assert_eq!(Font::FontEpl3.token(), "3.RFT");
    assert_eq!(Font::FontZplGs.token(), "GS.FNT");
}

#[test]
fn small_vocabulary_tokens() {
    assert_eq!(HumanReadable::NotReadable.token(), "0");
    assert_eq!(HumanReadable::ReadableAlignsToCenter.token(), "2");
    assert_eq!(HumanReadable::ReadableAlignsToRight.token(), "3");
    assert_eq!(Rotation::NoRotation.token(), "0");
    assert_eq!(Rotation::Rotation270.token(), "270");
    assert_eq!(Alignment::Default.token(), "0");
    assert_eq!(Alignment::Center.token(), "2");
    assert_eq!(NarrowWide::N1W3.token(), "1,3");
    assert_eq!(NarrowWide::N3W7.token(), "3,7");
    assert_eq!(BitmapMode::Xor.token(), "2");
    assert_eq!(QrCodeJustification::UpperLeft.token(), "J1");
    assert_eq!(QrCodeJustification::BottomRight.token(), "J9");
    assert_eq!(Selftest::All.token(), "");
    assert_eq!(Selftest::Bt.token(), "BT");
}
