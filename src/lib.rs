//! Encoder for the TSPL/TSPL2 label printer command language.
//!
//! Lengths, protocol vocabularies and per-command parameter checks are turned
//! into exact CRLF-terminated command lines. A [`Printer`] session collects the
//! encoded bytes; the program around the library hands them to the device.

pub mod error;
pub mod printer;
pub mod size;
pub mod vocab;
pub mod wire;

pub use error::TsplError;
pub use printer::Printer;
pub use size::{Size, Tape};
pub use vocab::{
    Alignment, Barcode, BitmapMode, Codepage, Codepage7Bit, Codepage8Bit, CodepageIso,
    CodepageWindows, Country, Font, HumanReadable, NarrowWide, QrCodeJustification, Rotation,
    RssType, Selftest,
};
