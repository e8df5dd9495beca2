//! Decoder for iNES cartridge images: a 16-byte header, an optional 512-byte
//! trainer, the program ROM and an optional graphics ROM.
//!
//! [`NesHeader::from_bytes`] decodes the bit-packed header, and
//! [`Cartridge::load`] cuts the regions that follow it out of the bytes of an
//! image. Their contracts are stated against [`header::decode`] and
//! [`cartridge::load_image`], which say what every input decodes to.
//!
//! A caller that reads from a stream of its own drives a [`Loader`]: it asks
//! how many bytes are wanted, reads them, and feeds them in, until the
//! cartridge is done or the load has failed. [`Cartridge::load`] is that loop
//! over bytes in memory.

pub mod cartridge;
pub mod error;
pub mod header;
pub mod loader;

pub use crate::cartridge::{Cartridge, CartridgeView};
pub use crate::error::{LoadError, Stage};
pub use crate::header::{Mirroring, NesHeader};
pub use crate::loader::{Loader, Progress};
