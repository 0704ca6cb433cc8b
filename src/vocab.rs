//! Closed protocol vocabularies and their wire tokens.

use vstd::prelude::*;

use crate::wire::digit;

verus! {

/// Keyboard countries, each with its international dialling code.
#[derive(Debug, Clone, Copy, PartialEq, Eq, Structural)]
pub enum Country {
    Usa,
    CanadianFrench,
    SpanishLatinAmerica,
    Dutch,
    Belgian,
    French,
    Spanish,
    Hungarian,
    Yugoslavian,
    Italian,
    Switzerland,
    Slovak,
    UnitedKingdom,
    Danish,
    Swedish,
    Norwegian,
    Polish,
    German,
    Brazil,
    English,
    Portuguese,
    Finnish,
}

/// The three-digit, zero-padded decimal text of `n < 1000`.
pub open spec fn padded3(n: nat) -> Seq<u8> {
    seq![digit(n / 100), digit(n / 10 % 10), digit(n % 10)]
}

impl Country {
    /// The country's dialling code.
    pub open spec fn number(self) -> nat {
        match self {
            Country::Usa => 1,
            Country::CanadianFrench => 2,
            Country::SpanishLatinAmerica => 3,
            Country::Dutch => 31,
            Country::Belgian => 32,
            Country::French => 33,
            Country::Spanish => 34,
            Country::Hungarian => 36,
            Country::Yugoslavian => 38,
            Country::Italian => 39,
            Country::Switzerland => 41,
            Country::Slovak => 42,
            Country::UnitedKingdom => 44,
            Country::Danish => 45,
            Country::Swedish => 46,
            Country::Norwegian => 47,
            Country::Polish => 48,
            Country::German => 49,
            Country::Brazil => 55,
            Country::English => 61,
            Country::Portuguese => 351,
            Country::Finnish => 358,
        }
    }

    /// The wire token: the dialling code written with exactly three digits.
    pub open spec fn wire(self) -> Seq<u8> {
        padded3(self.number())
    }

    /// The country's dialling code.
    pub fn code(&self) -> (r: u16)
        ensures
            r == self.number(),
    {
        match self {
            Country::Usa => 1,
            Country::CanadianFrench => 2,
            Country::SpanishLatinAmerica => 3,
            Country::Dutch => 31,
            Country::Belgian => 32,
            Country::French => 33,
            Country::Spanish => 34,
            Country::Hungarian => 36,
            Country::Yugoslavian => 38,
            Country::Italian => 39,
            Country::Switzerland => 41,
            Country::Slovak => 42,
            Country::UnitedKingdom => 44,
            Country::Danish => 45,
            Country::Swedish => 46,
            Country::Norwegian => 47,
            Country::Polish => 48,
            Country::German => 49,
            Country::Brazil => 55,
            Country::English => 61,
            Country::Portuguese => 351,
            Country::Finnish => 358,
        }
    }

    /// The wire token: the dialling code written with exactly three digits
    /// (`German` is `049`).
    pub fn token(&self) -> (r: Vec<u8>)
        ensures
            r@ == self.wire(),
    {
        let n = self.code();
        let mut r: Vec<u8> = Vec::new();
        r.push(48 + (n / 100) as u8);
        r.push(48 + (n / 10 % 10) as u8);
        r.push(48 + (n % 10) as u8);
        assert(r@ =~= self.wire());
        r
    }
}

/// 7-bit national code pages.
#[derive(Debug, Clone, Copy, PartialEq, Eq, Structural)]
pub enum Codepage7Bit {
    Usa,
    British,
    German,
    French,
    Danish,
    Italian,
    Spanish,
    Swedish,
    Swiss,
}

impl Codepage7Bit {
    /// The exact text that stands for this value on the wire.
    pub open spec fn wire(self) -> Seq<char> {
        match self {
            Codepage7Bit::Usa => "USA"@,
            Codepage7Bit::British => "BRI"@,
            Codepage7Bit::German => "GER"@,
            Codepage7Bit::French => "FRE"@,
            Codepage7Bit::Danish => "DAN"@,
            Codepage7Bit::Italian => "ITA"@,
            Codepage7Bit::Spanish => "SPA"@,
            Codepage7Bit::Swedish => "SWE"@,
            Codepage7Bit::Swiss => "SWI"@,
        }
    }

    /// The wire token of this value.
    pub fn token(&self) -> (r: &'static str)
        ensures
            r@ == self.wire(),
    {
        match self {
            Codepage7Bit::Usa => "USA",
            Codepage7Bit::British => "BRI",
            Codepage7Bit::German => "GER",
            Codepage7Bit::French => "FRE",
            Codepage7Bit::Danish => "DAN",
            Codepage7Bit::Italian => "ITA",
            Codepage7Bit::Spanish => "SPA",
            Codepage7Bit::Swedish => "SWE",
            Codepage7Bit::Swiss => "SWI",
        }
    }
}

/// 8-bit DOS code pages.
#[derive(Debug, Clone, Copy, PartialEq, Eq, Structural)]
pub enum Codepage8Bit {
    UnitedStates,
    Greek,
    Multilingual,
    Greek1,
    Slavic,
    Cyrillic,
    Turkish,
    Portuguese,
    Icelandic,
    Hebrew,
    CanadianFrench,
    Arabic,
    Nordic,
    Russian,
    Greek2,
}

impl Codepage8Bit {
    /// The exact text that stands for this value on the wire.
    pub open spec fn wire(self) -> Seq<char> {
        match self {
            Codepage8Bit::UnitedStates => "437"@,
            Codepage8Bit::Greek => "737"@,
            Codepage8Bit::Multilingual => "850"@,
            Codepage8Bit::Greek1 => "851"@,
            Codepage8Bit::Slavic => "852"@,
            Codepage8Bit::Cyrillic => "855"@,
            Codepage8Bit::Turkish => "857"@,
            Codepage8Bit::Portuguese => "860"@,
            Codepage8Bit::Icelandic => "861"@,
            Codepage8Bit::Hebrew => "862"@,
            Codepage8Bit::CanadianFrench => "863"@,
            Codepage8Bit::Arabic => "864"@,
            Codepage8Bit::Nordic => "865"@,
            Codepage8Bit::Russian => "866"@,
            Codepage8Bit::Greek2 => "869"@,
        }
    }

    /// The wire token of this value.
    pub fn token(&self) -> (r: &'static str)
        ensures
            r@ == self.wire(),
    {
        match self {
            Codepage8Bit::UnitedStates => "437",
            Codepage8Bit::Greek => "737",
            Codepage8Bit::Multilingual => "850",
            Codepage8Bit::Greek1 => "851",
            Codepage8Bit::Slavic => "852",
            Codepage8Bit::Cyrillic => "855",
            Codepage8Bit::Turkish => "857",
            Codepage8Bit::Portuguese => "860",
            Codepage8Bit::Icelandic => "861",
            Codepage8Bit::Hebrew => "862",
            Codepage8Bit::CanadianFrench => "863",
            Codepage8Bit::Arabic => "864",
            Codepage8Bit::Nordic => "865",
            Codepage8Bit::Russian => "866",
            Codepage8Bit::Greek2 => "869",
        }
    }
}

/// Windows code pages.
#[derive(Debug, Clone, Copy, PartialEq, Eq, Structural)]
pub enum CodepageWindows {
    CentralEurope,
    Cyrillic,
    Latin1,
    Greek,
    Turkish,
    Hebrew,
    Arabic,
    Baltic,
    Vietnam,
    Japanese,
    ChineseSiplified,
    Korean,
    ChineseTraditional,
    Utf8,
}

impl CodepageWindows {
    /// The exact text that stands for this value on the wire.
    pub open spec fn wire(self) -> Seq<char> {
        match self {
            CodepageWindows::CentralEurope => "1250"@,
            CodepageWindows::Cyrillic => "1251"@,
            CodepageWindows::Latin1 => "1252"@,
            CodepageWindows::Greek => "1253"@,
            CodepageWindows::Turkish => "1254"@,
            CodepageWindows::Hebrew => "1255"@,
            CodepageWindows::Arabic => "1256"@,
            CodepageWindows::Baltic => "1257"@,
            CodepageWindows::Vietnam => "1258"@,
            CodepageWindows::Japanese => "932"@,
            CodepageWindows::ChineseSiplified => "936"@,
            CodepageWindows::Korean => "949"@,
            CodepageWindows::ChineseTraditional => "950"@,
            CodepageWindows::Utf8 => "UTF-8"@,
        }
    }

    /// The wire token of this value.
    pub fn token(&self) -> (r: &'static str)
        ensures
            r@ == self.wire(),
    {
        match self {
            CodepageWindows::CentralEurope => "1250",
            CodepageWindows::Cyrillic => "1251",
            CodepageWindows::Latin1 => "1252",
            CodepageWindows::Greek => "1253",
            CodepageWindows::Turkish => "1254",
            CodepageWindows::Hebrew => "1255",
            CodepageWindows::Arabic => "1256",
            CodepageWindows::Baltic => "1257",
            CodepageWindows::Vietnam => "1258",
            CodepageWindows::Japanese => "932",
            CodepageWindows::ChineseSiplified => "936",
            CodepageWindows::Korean => "949",
            CodepageWindows::ChineseTraditional => "950",
            CodepageWindows::Utf8 => "UTF-8",
        }
    }
}

/// ISO 8859 code pages.
#[derive(Debug, Clone, Copy, PartialEq, Eq, Structural)]
pub enum CodepageIso {
    Latin1,
    Latin2,
    Latin3,
    Baltic,
    Cyrillic,
    Arabic,
    Greek,
    Hebrew,
    Turkish,
    Latin6,
    Latin9,
}

impl CodepageIso {
    /// The exact text that stands for this value on the wire.
    pub open spec fn wire(self) -> Seq<char> {
        match self {
            CodepageIso::Latin1 => "8859-1"@,
            CodepageIso::Latin2 => "8859-2"@,
            CodepageIso::Latin3 => "8859-3"@,
            CodepageIso::Baltic => "8859-4"@,
            CodepageIso::Cyrillic => "8859-5"@,
            CodepageIso::Arabic => "8859-6"@,
            CodepageIso::Greek => "8859-7"@,
            CodepageIso::Hebrew => "8859-8"@,
            CodepageIso::Turkish => "8859-9"@,
            CodepageIso::Latin6 => "8859-10"@,
            CodepageIso::Latin9 => "8859-15"@,
        }
    }

    /// The wire token of this value.
    pub fn token(&self) -> (r: &'static str)
        ensures
            r@ == self.wire(),
    {
        match self {
            CodepageIso::Latin1 => "8859-1",
            CodepageIso::Latin2 => "8859-2",
            CodepageIso::Latin3 => "8859-3",
            CodepageIso::Baltic => "8859-4",
            CodepageIso::Cyrillic => "8859-5",
            CodepageIso::Arabic => "8859-6",
            CodepageIso::Greek => "8859-7",
            CodepageIso::Hebrew => "8859-8",
            CodepageIso::Turkish => "8859-9",
            CodepageIso::Latin6 => "8859-10",
            CodepageIso::Latin9 => "8859-15",
        }
    }
}

/// A code page: one member of one of the four families.
#[derive(Debug, Clone, Copy, PartialEq, Eq, Structural)]
pub enum Codepage {
    Codepage7Bit(Codepage7Bit),
    Codepage8Bit(Codepage8Bit),
    CodepageWindows(CodepageWindows),
    CodepageIso(CodepageIso),
}

impl Codepage {
    /// The wire token of the code page, taken from its family's table.
    pub open spec fn wire(self) -> Seq<char> {
        match self {
            Codepage::Codepage7Bit(c) => c.wire(),
            Codepage::Codepage8Bit(c) => c.wire(),
            Codepage::CodepageWindows(c) => c.wire(),
            Codepage::CodepageIso(c) => c.wire(),
        }
    }

    /// The wire token of the code page.
    pub fn token(&self) -> (r: &'static str)
        ensures
            r@ == self.wire(),
    {
        match self {
            Codepage::Codepage7Bit(c) => c.token(),
            Codepage::Codepage8Bit(c) => c.token(),
            Codepage::CodepageWindows(c) => c.token(),
            Codepage::CodepageIso(c) => c.token(),
        }
    }
}

/// Kinds of self-test page.
#[derive(Debug, Clone, Copy, PartialEq, Eq, Structural)]
pub enum Selftest {
    /// Print a self-test page with whole printer information.
    All,
    /// Print a pattern to check the status of print head heat line.
    Pattern,
    /// Print a self-test page with Ethernet settings.
    Ethernet,
    /// Print a self-test page with Wi-Fi settings.
    Wlan,
    /// Print a self-test page with RS-232 settings.
    Rs232,
    /// Print a self-test page with printer settings.
    System,
    /// Print a self-test page with emulated language settings.
    Z,
    /// Print a self-test page with Bluetooth settings.
    Bt,
}

impl Selftest {
    /// The exact text that stands for this value on the wire.
    pub open spec fn wire(self) -> Seq<char> {
        match self {
            Selftest::All => ""@,
            Selftest::Pattern => "PATTERN"@,
            Selftest::Ethernet => "ETHERNET"@,
            Selftest::Wlan => "WLAN"@,
            Selftest::Rs232 => "RS232"@,
            Selftest::System => "SYSTEM"@,
            Selftest::Z => "Z"@,
            Selftest::Bt => "BT"@,
        }
    }

    /// The wire token of this value.
    pub fn token(&self) -> (r: &'static str)
        ensures
            r@ == self.wire(),
    {
        match self {
            Selftest::All => "",
            Selftest::Pattern => "PATTERN",
            Selftest::Ethernet => "ETHERNET",
            Selftest::Wlan => "WLAN",
            Selftest::Rs232 => "RS232",
            Selftest::System => "SYSTEM",
            Selftest::Z => "Z",
            Selftest::Bt => "BT",
        }
    }
}

/// 1D barcode symbologies.
#[derive(Debug, Clone, Copy, PartialEq, Eq, Structural)]
pub enum Barcode {
    /// Code 128, switching code subset automatically.
    Barcode128,
    /// Code 128, switching code subset manually.
    Barcode128M,
    /// EAN128, switching code subset automatically.
    BarcodeEan128,
    /// EAN128M, switching code subset manually.
    BarcodeEan128M,
    /// Interleaved 2 of 5.
    Barcode25,
    /// Interleaved 2 of 5 with check digit.
    Barcode25C,
    /// Standard 2 of 5.
    Barcode25S,
    /// Industrial 2 of 5.
    Barcode25I,
    /// Code 39, switching standard and full ASCII mode automatically
    Barcode39,
    /// Code 39 with check digit.
    Barcode39C,
    /// Code 93.
    Barcode93,
    /// EAN 13
    BarcodeEan13,
    /// EAN 13 with 2 digits add-on.
    BarcodeEan13Plus2,
    /// EAN 13 with 5 digits add-on.
    BarcodeEan13Plus5,
    /// EAN 8.
    BarcodeEan8,
    /// EAN 8 with 2 digits add-on.
    BarcodeEan8Plus2,
    /// EAN 8 with 5 digits add-on.
    BarcodeEan8Plus5,
    /// Codabar.
    BarcodeCoda,
    /// Postnet.
    BarcodePost,
    /// UPC-A
    BarcodeUpca,
    /// UPC-A with 2 digits add-on.
    BarcodeUpcaPlus2,
    /// UPC-A with 5 digits add-on.
    BarcodeUpaPlus5,
    /// UPC-E
    BarcodeUpce,
    /// UPC-E with 2 digits add-on.
    BarcodeUpcePlus2,
    /// UPC-E with 5 digits add-on.
    BarcodeUpePlus5,
    /// MSI
    BarcodeMsi,
    /// MSI with check digit.
    BarcodeMsic,
    /// PLESSEY.
    BarcodePlessey,
    /// China post.
    BarcodeCpost,
    /// ITF14.
    BarcodeItf14,
    /// EAN14.
    BarcodeEan14,
    /// Code 11.
    Barcode11,
    /// Telepen. *Since V6.89EZ.
    BarcodeTelepen,
    /// Telepen number. *Since V6.89EZ.
    BarcodeTelepenN,
    /// Planet. *Since V6.89EZ.
    BarcodePlanet,
    /// Code 49. *Since V6.89EZ.
    BarcodeCode49,
    /// eutsche Post Identcode. *Since V6.91EZ.
    BarcodeDpi,
    /// Deutsche Post Leitcode. *Since V6.91EZ.
    BarcodeDpl,
    /// A special use of Code 39. *Since V6.88EZ.
    BarcodeLogmars,
}

impl Barcode {
    /// The exact text that stands for this value on the wire.
    pub open spec fn wire(self) -> Seq<char> {
        match self {
            Barcode::Barcode128 => "128"@,
            Barcode::Barcode128M => "128M"@,
            Barcode::BarcodeEan128 => "EAN128"@,
            Barcode::BarcodeEan128M => "EAN128M"@,
            Barcode::Barcode25 => "25"@,
            Barcode::Barcode25C => "25C"@,
            Barcode::Barcode25S => "25S"@,
            Barcode::Barcode25I => "25I"@,
            Barcode::Barcode39 => "39"@,
            Barcode::Barcode39C => "39C"@,
            Barcode::Barcode93 => "93"@,
            Barcode::BarcodeEan13 => "EAN13"@,
            Barcode::BarcodeEan13Plus2 => "EAN13+2"@,
            Barcode::BarcodeEan13Plus5 => "EAN13+5"@,
            Barcode::BarcodeEan8 => "EAN8"@,
            Barcode::BarcodeEan8Plus2 => "EAN8+2"@,
            Barcode::BarcodeEan8Plus5 => "EAN8+5"@,
            Barcode::BarcodeCoda => "CODA"@,
            Barcode::BarcodePost => "POST"@,
            Barcode::BarcodeUpca => "UPCA"@,
            Barcode::BarcodeUpcaPlus2 => "UPCA+2"@,
            Barcode::BarcodeUpaPlus5 => "UPCA+5"@,
            Barcode::BarcodeUpce => "UPCE"@,
            Barcode::BarcodeUpcePlus2 => "UPCE+2"@,
            Barcode::BarcodeUpePlus5 => "UPCE+5"@,
            Barcode::BarcodeMsi => "MSI"@,
            Barcode::BarcodeMsic => "MSIC"@,
            Barcode::BarcodePlessey => "PLESSEY"@,
            Barcode::BarcodeCpost => "CPOST"@,
            Barcode::BarcodeItf14 => "ITF14"@,
            Barcode::BarcodeEan14 => "EAN14"@,
            Barcode::Barcode11 => "11"@,
            Barcode::BarcodeTelepen => "TELEPEN"@,
            Barcode::BarcodeTelepenN => "TELEPENN"@,
            Barcode::BarcodePlanet => "PLANET"@,
            Barcode::BarcodeCode49 => "CODE49"@,
            Barcode::BarcodeDpi => "DPI"@,
            Barcode::BarcodeDpl => "DPL"@,
            Barcode::BarcodeLogmars => "LOGMARS"@,
        }
    }

    /// The wire token of this value.
    pub fn token(&self) -> (r: &'static str)
        ensures
            r@ == self.wire(),
    {
        match self {
            Barcode::Barcode128 => "128",
            Barcode::Barcode128M => "128M",
            Barcode::BarcodeEan128 => "EAN128",
            Barcode::BarcodeEan128M => "EAN128M",
            Barcode::Barcode25 => "25",
            Barcode::Barcode25C => "25C",
            Barcode::Barcode25S => "25S",
            Barcode::Barcode25I => "25I",
            Barcode::Barcode39 => "39",
            Barcode::Barcode39C => "39C",
            Barcode::Barcode93 => "93",
            Barcode::BarcodeEan13 => "EAN13",
            Barcode::BarcodeEan13Plus2 => "EAN13+2",
            Barcode::BarcodeEan13Plus5 => "EAN13+5",
            Barcode::BarcodeEan8 => "EAN8",
            Barcode::BarcodeEan8Plus2 => "EAN8+2",
            Barcode::BarcodeEan8Plus5 => "EAN8+5",
            Barcode::BarcodeCoda => "CODA",
            Barcode::BarcodePost => "POST",
            Barcode::BarcodeUpca => "UPCA",
            Barcode::BarcodeUpcaPlus2 => "UPCA+2",
            Barcode::BarcodeUpaPlus5 => "UPCA+5",
            Barcode::BarcodeUpce => "UPCE",
            Barcode::BarcodeUpcePlus2 => "UPCE+2",
            Barcode::BarcodeUpePlus5 => "UPCE+5",
            Barcode::BarcodeMsi => "MSI",
            Barcode::BarcodeMsic => "MSIC",
            Barcode::BarcodePlessey => "PLESSEY",
            Barcode::BarcodeCpost => "CPOST",
            Barcode::BarcodeItf14 => "ITF14",
            Barcode::BarcodeEan14 => "EAN14",
            Barcode::Barcode11 => "11",
            Barcode::BarcodeTelepen => "TELEPEN",
            Barcode::BarcodeTelepenN => "TELEPENN",
            Barcode::BarcodePlanet => "PLANET",
            Barcode::BarcodeCode49 => "CODE49",
            Barcode::BarcodeDpi => "DPI",
            Barcode::BarcodeDpl => "DPL",
            Barcode::BarcodeLogmars => "LOGMARS",
        }
    }
}

/// RSS (GS1 DataBar) symbologies.
#[derive(Debug, Clone, Copy, PartialEq, Eq, Structural)]
pub enum RssType {
    ///RSS14,
    Rss14,
    ///RSS14 Truncated,
    Rss14T,
    ///RSS14 Stacked,
    Rss14S,
    ///RSS14 Stacked Omnidirectional,
    Rss14So,
    ///RSS Limited,
    RssLim,
    ///RSS Expanded,
    RssExp,
    ///UPC-A,
    UpcA,
    ///UPC-E,
    UpcE,
    ///EAN13,
    Ean13,
    ///EAN8,
    Ean8,
    ///UCC/EAN-128 & CC-A/B,
    Ucc128Cca,
    ///UCC/EAN-128 & CC-C,
    Ucc128Ccc,
}

impl RssType {
    /// The exact text that stands for this value on the wire.
    pub open spec fn wire(self) -> Seq<char> {
        match self {
            RssType::Rss14 => "RSS14"@,
            RssType::Rss14T => "RSS14T"@,
            RssType::Rss14S => "RSS14S"@,
            RssType::Rss14So => "RSS14SO"@,
            RssType::RssLim => "RSSLIM"@,
            RssType::RssExp => "RSSEXP"@,
            RssType::UpcA => "UPCA"@,
            RssType::UpcE => "UPCE"@,
            RssType::Ean13 => "EAN13"@,
            RssType::Ean8 => "EAN8"@,
            RssType::Ucc128Cca => "UCC128CCA"@,
            RssType::Ucc128Ccc => "UCC128CCC"@,
        }
    }

    /// The wire token of this value.
    pub fn token(&self) -> (r: &'static str)
        ensures
            r@ == self.wire(),
    {
        match self {
            RssType::Rss14 => "RSS14",
            RssType::Rss14T => "RSS14T",
            RssType::Rss14S => "RSS14S",
            RssType::Rss14So => "RSS14SO",
            RssType::RssLim => "RSSLIM",
            RssType::RssExp => "RSSEXP",
            RssType::UpcA => "UPCA",
            RssType::UpcE => "UPCE",
            RssType::Ean13 => "EAN13",
            RssType::Ean8 => "EAN8",
            RssType::Ucc128Cca => "UCC128CCA",
            RssType::Ucc128Ccc => "UCC128CCC",
        }
    }
}

/// Resident fonts.
#[derive(Debug, Clone, Copy, PartialEq, Eq, Structural)]
pub enum Font {
    /// Monotye CG Triumvirate Bold Condensed, font width and height is stretchable
    FontMonotye,
    /// 8 x 12 fixed pitch dot font
    Font8x12,
    /// 12 x 20 fixed pitch dot font
    Font12x20,
    /// 16 x 24 fixed pitch dot font
    Font16x24,
    /// 24 x 32 fixed pitch dot font
    Font24x32,
    /// 32 x 48 dot fixed pitch font
    Font32x48,
    /// 14 x 19 dot fixed pitch font OCR-B
    Font14x19,
    /// 21 x 27 dot fixed pitch font OCR-B
    Font21x27,
    /// 14 x25 dot fixed pitch font OCR-A
    Font14x25,
    /// Monotye CG Triumvirate Bold Condensed, font width and height proportion is fixed
    FontRoman,
    /// EPL2 font 1
    FontEpl1,
    /// EPL2 font 2
    FontEpl2,
    /// EPL2 font 3
    FontEpl3,
    /// EPL2 font 4
    FontEpl4,
    /// EPL2 font 5
    FontEpl5,
    /// ZPL2 font A
    FontZplA,
    /// ZPL2 font A
    FontZplB,
    /// ZPL2 font D
    FontZplD,
    /// ZPL2 font E8
    FontZplE8,
    /// ZPL2 font F
    FontZplF,
    /// ZPL2 font G
    FontZplG,
    /// ZPL2 font H8
    FontZplH8,
    /// ZPL2 font GS
    FontZplGs,
}

impl Font {
    /// The exact text that stands for this value on the wire.
    pub open spec fn wire(self) -> Seq<char> {
        match self {
            Font::FontMonotye => "0"@,
            Font::Font8x12 => "1"@,
            Font::Font12x20 => "2"@,
            Font::Font16x24 => "3"@,
            Font::Font24x32 => "4"@,
            Font::Font32x48 => "5"@,
            Font::Font14x19 => "6"@,
            Font::Font21x27 => "7"@,
            Font::Font14x25 => "8"@,
            Font::FontRoman => "ROMAN.TTF"@,
            Font::FontEpl1 => "1.EFT"@,
            Font::FontEpl2 => "2.EFT"@,
            Font::FontEpl3 => "3.RFT"@,
            Font::FontEpl4 => "4.EFT"@,
            Font::FontEpl5 => "5.EFT"@,
            Font::FontZplA => "A.FNT"@,
            Font::FontZplB => "B.FNT"@,
            Font::FontZplD => "D.FNT"@,
            Font::FontZplE8 => "E8.FNT"@,
            Font::FontZplF => "F.FNT"@,
            Font::FontZplG => "G.FNT"@,
            Font::FontZplH8 => "H8.FNT"@,
            Font::FontZplGs => "GS.FNT"@,
        }
    }

    /// The wire token of this value.
    pub fn token(&self) -> (r: &'static str)
        ensures
            r@ == self.wire(),
    {
        match self {
            Font::FontMonotye => "0",
            Font::Font8x12 => "1",
            Font::Font12x20 => "2",
            Font::Font16x24 => "3",
            Font::Font24x32 => "4",
            Font::Font32x48 => "5",
            Font::Font14x19 => "6",
            Font::Font21x27 => "7",
            Font::Font14x25 => "8",
            Font::FontRoman => "ROMAN.TTF",
            Font::FontEpl1 => "1.EFT",
            Font::FontEpl2 => "2.EFT",
            Font::FontEpl3 => "3.RFT",
            Font::FontEpl4 => "4.EFT",
            Font::FontEpl5 => "5.EFT",
            Font::FontZplA => "A.FNT",
            Font::FontZplB => "B.FNT",
            Font::FontZplD => "D.FNT",
            Font::FontZplE8 => "E8.FNT",
            Font::FontZplF => "F.FNT",
            Font::FontZplG => "G.FNT",
            Font::FontZplH8 => "H8.FNT",
            Font::FontZplGs => "GS.FNT",
        }
    }
}

/// Placement of the human readable line under a barcode.
#[derive(Debug, Clone, Copy, PartialEq, Eq, Structural)]
pub enum HumanReadable {
    NotReadable,
    ReadableAlignsToLeft,
    ReadableAlignsToCenter,
    ReadableAlignsToRight,
}

impl HumanReadable {
    /// The exact text that stands for this value on the wire.
    pub open spec fn wire(self) -> Seq<char> {
        match self {
            HumanReadable::NotReadable => "0"@,
            HumanReadable::ReadableAlignsToLeft => "1"@,
            HumanReadable::ReadableAlignsToCenter => "2"@,
            HumanReadable::ReadableAlignsToRight => "3"@,
        }
    }

    /// The wire token of this value.
    pub fn token(&self) -> (r: &'static str)
        ensures
            r@ == self.wire(),
    {
        match self {
            HumanReadable::NotReadable => "0",
            HumanReadable::ReadableAlignsToLeft => "1",
            HumanReadable::ReadableAlignsToCenter => "2",
            HumanReadable::ReadableAlignsToRight => "3",
        }
    }
}

/// Clockwise rotation.
#[derive(Debug, Clone, Copy, PartialEq, Eq, Structural)]
pub enum Rotation {
    NoRotation,
    Rotation90,
    Rotation180,
    Rotation270,
}

impl Rotation {
    /// The exact text that stands for this value on the wire.
    pub open spec fn wire(self) -> Seq<char> {
        match self {
            Rotation::NoRotation => "0"@,
            Rotation::Rotation90 => "90"@,
            Rotation::Rotation180 => "180"@,
            Rotation::Rotation270 => "270"@,
        }
    }

    /// The wire token of this value.
    pub fn token(&self) -> (r: &'static str)
        ensures
            r@ == self.wire(),
    {
        match self {
            Rotation::NoRotation => "0",
            Rotation::Rotation90 => "90",
            Rotation::Rotation180 => "180",
            Rotation::Rotation270 => "270",
        }
    }
}

/// Horizontal alignment.
#[derive(Debug, Clone, Copy, PartialEq, Eq, Structural)]
pub enum Alignment {
    Default,
    Left,
    Center,
    Right,
}

impl Alignment {
    /// The exact text that stands for this value on the wire.
    pub open spec fn wire(self) -> Seq<char> {
        match self {
            Alignment::Default => "0"@,
            Alignment::Left => "1"@,
            Alignment::Center => "2"@,
            Alignment::Right => "3"@,
        }
    }

    /// The wire token of this value.
    pub fn token(&self) -> (r: &'static str)
        ensures
            r@ == self.wire(),
    {
        match self {
            Alignment::Default => "0",
            Alignment::Left => "1",
            Alignment::Center => "2",
            Alignment::Right => "3",
        }
    }
}

/// Width in dots of the narrow and of the wide elements.
#[derive(Debug, Clone, Copy, PartialEq, Eq, Structural)]
pub enum NarrowWide {
    N1W1,
    N1W2,
    N1W3,
    N2W5,
    N3W7,
}

impl NarrowWide {
    /// The exact text that stands for this value on the wire.
    pub open spec fn wire(self) -> Seq<char> {
        match self {
            NarrowWide::N1W1 => "1,1"@,
            NarrowWide::N1W2 => "1,2"@,
            NarrowWide::N1W3 => "1,3"@,
            NarrowWide::N2W5 => "2,5"@,
            NarrowWide::N3W7 => "3,7"@,
        }
    }

    /// The wire token of this value.
    pub fn token(&self) -> (r: &'static str)
        ensures
            r@ == self.wire(),
    {
        match self {
            NarrowWide::N1W1 => "1,1",
            NarrowWide::N1W2 => "1,2",
            NarrowWide::N1W3 => "1,3",
            NarrowWide::N2W5 => "2,5",
            NarrowWide::N3W7 => "3,7",
        }
    }
}

/// How a bitmap is combined with the image buffer.
#[derive(Debug, Clone, Copy, PartialEq, Eq, Structural)]
pub enum BitmapMode {
    Overwrite,
    Or,
    Xor,
}

impl BitmapMode {
    /// The exact text that stands for this value on the wire.
    pub open spec fn wire(self) -> Seq<char> {
        match self {
            BitmapMode::Overwrite => "0"@,
            BitmapMode::Or => "1"@,
            BitmapMode::Xor => "2"@,
        }
    }

    /// The wire token of this value.
    pub fn token(&self) -> (r: &'static str)
        ensures
            r@ == self.wire(),
    {
        match self {
            BitmapMode::Overwrite => "0",
            BitmapMode::Or => "1",
            BitmapMode::Xor => "2",
        }
    }
}

/// Anchor point of a QR code.
#[derive(Debug, Clone, Copy, PartialEq, Eq, Structural)]
pub enum QrCodeJustification {
    UpperLeft,
    UpperCenter,
    UpperRight,
    CenterLeft,
    Center,
    CenterRight,
    BottomLeft,
    BottomCenter,
    BottomRight,
}

impl QrCodeJustification {
    /// The exact text that stands for this value on the wire.
    pub open spec fn wire(self) -> Seq<char> {
        match self {
            QrCodeJustification::UpperLeft => "J1"@,
            QrCodeJustification::UpperCenter => "J2"@,
            QrCodeJustification::UpperRight => "J3"@,
            QrCodeJustification::CenterLeft => "J4"@,
            QrCodeJustification::Center => "J5"@,
            QrCodeJustification::CenterRight => "J6"@,
            QrCodeJustification::BottomLeft => "J7"@,
            QrCodeJustification::BottomCenter => "J8"@,
            QrCodeJustification::BottomRight => "J9"@,
        }
    }

    /// The wire token of this value.
    pub fn token(&self) -> (r: &'static str)
        ensures
            r@ == self.wire(),
    {
        match self {
            QrCodeJustification::UpperLeft => "J1",
            QrCodeJustification::UpperCenter => "J2",
            QrCodeJustification::UpperRight => "J3",
            QrCodeJustification::CenterLeft => "J4",
            QrCodeJustification::Center => "J5",
            QrCodeJustification::CenterRight => "J6",
            QrCodeJustification::BottomLeft => "J7",
            QrCodeJustification::BottomCenter => "J8",
            QrCodeJustification::BottomRight => "J9",
        }
    }
}
} // verus!
