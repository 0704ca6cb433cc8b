//! Errors reported by the encoder.

use vstd::prelude::*;

verus! {

/// Why a command was refused. Every check runs before any byte of the
/// command is written.
#[derive(Debug, Clone, Copy, PartialEq, Eq, Structural)]
pub enum TsplError {
    /// Density outside 1..=15.
    Density,
    /// Number of label sets outside 1..=999999999.
    Sets,
    /// Number of copies outside 1..=999999999.
    Copies,
    /// Sound level outside 0..=9 or interval outside 1..=4095.
    Sound,
    /// Feed, backup or backfeed length outside 0..=9999 dots.
    FeedLength,
    /// Text multiplication outside 1..=10.
    Multiply,
    /// Block content longer than 4096 bytes.
    ContentLength,
    /// QR code cell width outside 1..=10.
    CellWidth,
    /// Aztec symbol size outside 1..=20.
    AztecSize,
    /// Aztec error control above 300.
    AztecErrorControl,
    /// Aztec symbol count outside 1..=26.
    AztecSymbols,
    /// RSS module width outside 1..=10 dots.
    ModuleWidth,
    /// RSS separator height other than 1 or 2.
    SeparatorHeight,
    /// RSS Expanded segment width outside 2..=22.
    SegmentWidth,
    /// RSS Expanded without a segment width.
    MissingSegmentWidth,
    /// UCC/EAN-128 linear height outside 1..=500.
    LinearHeight,
    /// UCC/EAN-128 without a linear height.
    MissingLinearHeight,
    /// A command that this library does not support.
    Unimplemented,
}

impl TsplError {
    /// A sentence that describes the error.
    pub fn message(&self) -> &'static str {
        match self {
            TsplError::Density => "density must be in range 1..=15",
            TsplError::Sets => "sets quantity must be in range 1..=999999999",
            TsplError::Copies => "copies quantity must be in range 1..=999999999",
            TsplError::Sound => "sound level must be in range 0..=9 and interval in range 1..=4095",
            TsplError::FeedLength => "feed length must be in range 0..=9999 dots",
            TsplError::Multiply => "multiplication must be in range 1..=10",
            TsplError::ContentLength => "content must be at most 4096 bytes long",
            TsplError::CellWidth => "QR code cell width must be in range 1..=10",
            TsplError::AztecSize => "Aztec size must be in range 1..=20",
            TsplError::AztecErrorControl => "Aztec error control must be at most 300",
            TsplError::AztecSymbols => "Aztec number of symbols must be in range 1..=26",
            TsplError::ModuleWidth => "RSS module width must be in range 1..=10 dots",
            TsplError::SeparatorHeight => "RSS separator height must be 1 or 2",
            TsplError::SegmentWidth => "RSS segment width must be in range 2..=22",
            TsplError::MissingSegmentWidth => "RSS Expanded needs a segment width",
            TsplError::LinearHeight => "UCC/EAN-128 linear height must be in range 1..=500",
            TsplError::MissingLinearHeight => "UCC/EAN-128 needs a linear height",
            TsplError::Unimplemented => "command is not supported",
        }
    }
}

} // verus!
