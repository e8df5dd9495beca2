//! The ways in which decoding a cartridge image can fail.

use vstd::prelude::*;

verus! {

/// The region of the image that was being read when the stream ran out.
#[derive(Debug, Clone, Copy, PartialEq, Eq, Structural)]
pub enum Stage {
    Header,
    Trainer,
    ProgramRom,
    GraphicsRom,
}

/// Why an image was rejected. Every error ends the load: nothing is retried
/// and no partial cartridge is handed out.
#[derive(Debug, Clone, Copy, PartialEq, Eq, Structural)]
pub enum LoadError {
    /// The first four bytes are not `N`, `E`, `S`, `0x1A`.
    InvalidSignature,
    /// The header declares zero blocks of program ROM.
    EmptyProgramRom,
    /// The stream ended before the named region was complete.
    ShortRead(Stage),
}

impl Stage {
    /// What a short read at this stage is reported as.
    pub open spec fn message_text(self) -> Seq<char> {
        match self {
            Stage::Header => "Failed to read iNES header"@,
            Stage::Trainer => "Failed to read trainer data"@,
            Stage::ProgramRom => "Failed to read PRG ROM"@,
            Stage::GraphicsRom => "Failed to read CHR ROM"@,
        }
    }

    /// The text that reports a short read at this stage.
    pub fn message(&self) -> (text: String)
        ensures
            text@ == self.message_text(),
    {
        match self {
            Stage::Header => "Failed to read iNES header".to_owned(),
            Stage::Trainer => "Failed to read trainer data".to_owned(),
            Stage::ProgramRom => "Failed to read PRG ROM".to_owned(),
            Stage::GraphicsRom => "Failed to read CHR ROM".to_owned(),
        }
    }
}

impl LoadError {
    /// The human-readable text of each error.
    pub open spec fn message_text(self) -> Seq<char> {
        match self {
            LoadError::InvalidSignature => "Not a valid iNES file format"@,
            LoadError::EmptyProgramRom => "PRG ROM size is 0, which is invalid."@,
            LoadError::ShortRead(stage) => stage.message_text(),
        }
    }

    /// The human-readable text of this error.
    pub fn message(&self) -> (text: String)
        ensures
            text@ == self.message_text(),
    {
        match self {
            LoadError::InvalidSignature => "Not a valid iNES file format".to_owned(),
            LoadError::EmptyProgramRom => "PRG ROM size is 0, which is invalid.".to_owned(),
            LoadError::ShortRead(stage) => stage.message(),
        }
    }
}

} // verus!
