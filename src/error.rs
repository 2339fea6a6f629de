//! Why an operation was rejected.

use vstd::prelude::*;

verus! {

/// The reasons for which an operation is rejected. A rejected operation
/// leaves every account that it names as it was.
#[derive(Clone, Copy, Debug, PartialEq, Eq, Structural)]
pub enum CartridgeError {
    /// The caller is not the identity that the operation requires.
    Unauthorized,
    /// The declared cartridge size is zero.
    InvalidSize,
    /// The declared cartridge size exceeds the maximum.
    CartridgeTooLarge,
    /// A chunk size out of bounds, or chunk data of the wrong length.
    InvalidChunkSize,
    /// The chunk index is not below the manifest's chunk count.
    InvalidChunkIndex,
    /// The chunk was written before.
    ChunkAlreadyWritten,
    /// The cartridge was finalized before.
    CartridgeFinalized,
    /// The page index is not the next page, or not the active page.
    InvalidPageIndex,
    /// The active page holds as many entries as it can.
    PageFull,
    /// The metadata exceeds its maximum length.
    MetadataTooLarge,
    /// Reserved for a check of the cartridge's hash against its chunks,
    /// which no operation makes.
    HashMismatch,
}

impl CartridgeError {
    /// A short description of the error.
    pub fn message(&self) -> &'static str {
        match self {
            CartridgeError::Unauthorized => "Unauthorized action",
            CartridgeError::InvalidSize => "Invalid cartridge size",
            CartridgeError::CartridgeTooLarge => "Cartridge size exceeds maximum (6MB)",
            CartridgeError::InvalidChunkSize => "Invalid chunk size",
            CartridgeError::InvalidChunkIndex => "Invalid chunk index",
            CartridgeError::ChunkAlreadyWritten => "Chunk has already been written",
            CartridgeError::CartridgeFinalized => "Cartridge has already been finalized",
            CartridgeError::InvalidPageIndex => "Invalid page index",
            CartridgeError::PageFull => "Catalog page is full",
            CartridgeError::MetadataTooLarge => "Metadata too large",
            CartridgeError::HashMismatch => "SHA256 hash mismatch",
        }
    }
}

} // verus!
