//! The 16-byte iNES header and its bit-packed flags.

use crate::error::LoadError;
use vstd::prelude::*;

verus! {

/// How the cartridge wires background-memory mirroring.
#[derive(Debug, Clone, Copy, PartialEq, Eq, Structural)]
pub enum Mirroring {
    Vertical,
    Horizontal,
    FourScreen,
}

/// The decoded header. The last five fields are derived from `flags6` and
/// `flags7`; see [`NesHeader::wf`].
#[derive(Debug, Clone, Copy, PartialEq, Eq, Structural)]
pub struct NesHeader {
    /// Number of 16 KiB blocks of program ROM.
    pub prg_rom_size: u8,
    /// Number of 8 KiB blocks of graphics ROM; 0 means graphics RAM.
    pub chr_rom_size: u8,
    pub flags6: u8,
    pub flags7: u8,
    pub mapper_number: u8,
    pub mirroring: Mirroring,
    pub has_battery_backed_ram: bool,
    pub has_trainer: bool,
    pub four_screen_mode: bool,
}

/// Length of the header in bytes.
pub const HEADER_LEN: usize = 16;

/// Bit 0 of `flags6`: vertical mirroring.
pub const FLAG_VERTICAL: u8 = 0x01;

/// Bit 1 of `flags6`: battery-backed RAM.
pub const FLAG_BATTERY: u8 = 0x02;

/// Bit 2 of `flags6`: a trainer follows the header.
pub const FLAG_TRAINER: u8 = 0x04;

/// Bit 3 of `flags6`: four-screen mirroring.
pub const FLAG_FOUR_SCREEN: u8 = 0x08;

/// Whether `s` starts with the signature `N`, `E`, `S`, `0x1A`.
pub open spec fn has_signature(s: Seq<u8>) -> bool {
    &&& s.len() >= 4
    &&& s[0] == 0x4E
    &&& s[1] == 0x45
    &&& s[2] == 0x53
    &&& s[3] == 0x1A
}

/// The mirroring that `flags6` selects: the four-screen bit wins over the
/// vertical bit.
pub open spec fn mirroring_of(flags6: u8) -> Mirroring {
    if flags6 & FLAG_FOUR_SCREEN != 0 {
        Mirroring::FourScreen
    } else if flags6 & FLAG_VERTICAL != 0 {
        Mirroring::Vertical
    } else {
        Mirroring::Horizontal
    }
}

/// The mapper number: high nibble from `flags7`, low nibble from the high
/// nibble of `flags6`.
pub open spec fn mapper_of(flags6: u8, flags7: u8) -> u8 {
    (flags7 & 0xF0) | (flags6 >> 4)
}

/// The header that the four raw bytes stand for.
pub open spec fn header_of(prg_rom_size: u8, chr_rom_size: u8, flags6: u8, flags7: u8) -> NesHeader {
    NesHeader {
        prg_rom_size,
        chr_rom_size,
        flags6,
        flags7,
        mapper_number: mapper_of(flags6, flags7),
        mirroring: mirroring_of(flags6),
        has_battery_backed_ram: flags6 & FLAG_BATTERY != 0,
        has_trainer: flags6 & FLAG_TRAINER != 0,
        four_screen_mode: flags6 & FLAG_FOUR_SCREEN != 0,
    }
}

/// What a 16-byte header decodes to. Bytes 8 to 15 are not looked at, and
/// the block counts are taken as they are: a zero count is not an error here.
pub open spec fn decode(s: Seq<u8>) -> Result<NesHeader, LoadError>
    recommends
        s.len() == HEADER_LEN,
{
    if has_signature(s) {
        Ok(header_of(s[4], s[5], s[6], s[7]))
    } else {
        Err(LoadError::InvalidSignature)
    }
}

/// The 16 header bytes that carry the given fields, with the reserved bytes
/// zero.
pub open spec fn encode(prg_rom_size: u8, chr_rom_size: u8, flags6: u8, flags7: u8) -> Seq<u8> {
    seq![0x4Eu8, 0x45u8, 0x53u8, 0x1Au8, prg_rom_size, chr_rom_size, flags6, flags7,
        0u8, 0u8, 0u8, 0u8, 0u8, 0u8, 0u8, 0u8]
}

impl NesHeader {
    /// The derived fields agree with the raw flag bytes.
    pub open spec fn wf(&self) -> bool {
        *self == header_of(self.prg_rom_size, self.chr_rom_size, self.flags6, self.flags7)
    }

    /// Decodes a header from its 16 bytes.
    pub fn from_bytes(header_bytes: &[u8; 16]) -> (r: Result<NesHeader, LoadError>)
        ensures
            r == decode(header_bytes@),
            r is Ok <==> has_signature(header_bytes@),
            r is Err ==> r == Err::<NesHeader, LoadError>(LoadError::InvalidSignature),
            r is Ok ==> r->Ok_0.wf(),
    {
        decode_prefix(header_bytes.as_slice())
    }
}

/// Decodes the header that the first 16 bytes of `bytes` hold.
pub(crate) fn decode_prefix(bytes: &[u8]) -> (r: Result<NesHeader, LoadError>)
    requires
        bytes@.len() >= HEADER_LEN,
    ensures
        r == decode(bytes@.subrange(0, HEADER_LEN as int)),
{
    if bytes[0] != 0x4E || bytes[1] != 0x45 || bytes[2] != 0x53 || bytes[3] != 0x1A {
        return Err(LoadError::InvalidSignature);
    }
    let prg_rom_size: u8 = bytes[4];
    let chr_rom_size: u8 = bytes[5];
    let flags6: u8 = bytes[6];
    let flags7: u8 = bytes[7];

    let four_screen_mode = flags6 & FLAG_FOUR_SCREEN != 0;
    let mirroring = if four_screen_mode {
        Mirroring::FourScreen
    } else if flags6 & FLAG_VERTICAL != 0 {
        Mirroring::Vertical
    } else {
        Mirroring::Horizontal
    };
    let mapper_number: u8 = (flags7 & 0xF0) | (flags6 >> 4);

    Ok(NesHeader {
        prg_rom_size,
        chr_rom_size,
        flags6,
        flags7,
        mapper_number,
        mirroring,
        has_battery_backed_ram: flags6 & FLAG_BATTERY != 0,
        has_trainer: flags6 & FLAG_TRAINER != 0,
        four_screen_mode,
    })
}

/// Sixteen bytes that do not start with `4E 45 53 1A` never decode, whatever
/// the other twelve hold.
pub proof fn lemma_bad_signature_rejected(s: Seq<u8>)
    requires
        s.len() == HEADER_LEN,
        !(s[0] == 0x4E && s[1] == 0x45 && s[2] == 0x53 && s[3] == 0x1A),
    ensures
        decode(s) == Err::<NesHeader, LoadError>(LoadError::InvalidSignature),
{
}

/// Sixteen bytes that start with `4E 45 53 1A` always decode, and the block
/// counts and flag bytes come out as they went in.
pub proof fn lemma_good_signature_accepted(s: Seq<u8>)
    requires
        s.len() == HEADER_LEN,
        s[0] == 0x4E && s[1] == 0x45 && s[2] == 0x53 && s[3] == 0x1A,
    ensures
        decode(s) is Ok,
        decode(s)->Ok_0.prg_rom_size == s[4],
        decode(s)->Ok_0.chr_rom_size == s[5],
        decode(s)->Ok_0.flags6 == s[6],
        decode(s)->Ok_0.flags7 == s[7],
        decode(s)->Ok_0.wf(),
{
}

/// Mirroring by the bits of `flags6`, counted from the lowest: bit 3 set
/// gives four-screen whatever bit 0 holds; else bit 0 set gives vertical;
/// else horizontal. A zero byte gives horizontal.
pub proof fn lemma_mirroring_rule(flags6: u8)
    ensures
        (flags6 / 8) % 2 == 1 ==> mirroring_of(flags6) == Mirroring::FourScreen,
        (flags6 / 8) % 2 == 0 && flags6 % 2 == 1 ==> mirroring_of(flags6) == Mirroring::Vertical,
        (flags6 / 8) % 2 == 0 && flags6 % 2 == 0 ==> mirroring_of(flags6) == Mirroring::Horizontal,
        mirroring_of(0) == Mirroring::Horizontal,
{
    assert((flags6 & 0x08 != 0) <==> (flags6 / 8) % 2 == 1) by (bit_vector);
    assert((flags6 & 0x01 != 0) <==> flags6 % 2 == 1) by (bit_vector);
    assert(0u8 & 0x08 == 0 && 0u8 & 0x01 == 0) by (bit_vector);
}

/// The three flags of `flags6` by its bits, counted from the lowest: bit 1
/// is battery-backed RAM, bit 2 the trainer, bit 3 four-screen mode.
pub proof fn lemma_flag_bits(prg_rom_size: u8, chr_rom_size: u8, flags6: u8, flags7: u8)
    ensures
        header_of(prg_rom_size, chr_rom_size, flags6, flags7).has_battery_backed_ram <==> (flags6
            / 2) % 2 == 1,
        header_of(prg_rom_size, chr_rom_size, flags6, flags7).has_trainer <==> (flags6 / 4) % 2
            == 1,
        header_of(prg_rom_size, chr_rom_size, flags6, flags7).four_screen_mode <==> (flags6 / 8)
            % 2 == 1,
        header_of(prg_rom_size, chr_rom_size, flags6, flags7).four_screen_mode <==> header_of(
            prg_rom_size,
            chr_rom_size,
            flags6,
            flags7,
        ).mirroring == Mirroring::FourScreen,
{
    assert((flags6 & 0x02 != 0) <==> (flags6 / 2) % 2 == 1) by (bit_vector);
    assert((flags6 & 0x04 != 0) <==> (flags6 / 4) % 2 == 1) by (bit_vector);
    assert((flags6 & 0x08 != 0) <==> (flags6 / 8) % 2 == 1) by (bit_vector);
}

/// The mapper number by its nibbles: the low one is the high nibble of
/// `flags6`, the high one is the high nibble of `flags7`.
pub proof fn lemma_mapper_nibbles(flags6: u8, flags7: u8)
    ensures
        mapper_of(flags6, flags7) % 16 == flags6 / 16,
        mapper_of(flags6, flags7) / 16 == flags7 / 16,
        mapper_of(flags6, flags7) == (flags7 / 16) * 16 + flags6 / 16,
{
    assert(((flags7 & 0xF0) | (flags6 >> 4)) % 16 == flags6 / 16) by (bit_vector);
    assert(((flags7 & 0xF0) | (flags6 >> 4)) / 16 == flags7 / 16) by (bit_vector);
}

/// Header bytes built from two block counts and two flag bytes decode to a
/// header with those four fields, and with the mapper number and mirroring
/// that the flag bytes give.
pub proof fn lemma_encode_then_decode(prg_rom_size: u8, chr_rom_size: u8, flags6: u8, flags7: u8)
    ensures
        encode(prg_rom_size, chr_rom_size, flags6, flags7).len() == HEADER_LEN,
        has_signature(encode(prg_rom_size, chr_rom_size, flags6, flags7)),
        decode(encode(prg_rom_size, chr_rom_size, flags6, flags7)) is Ok,
        decode(encode(prg_rom_size, chr_rom_size, flags6, flags7))->Ok_0.prg_rom_size
            == prg_rom_size,
        decode(encode(prg_rom_size, chr_rom_size, flags6, flags7))->Ok_0.chr_rom_size
            == chr_rom_size,
        decode(encode(prg_rom_size, chr_rom_size, flags6, flags7))->Ok_0.flags6 == flags6,
        decode(encode(prg_rom_size, chr_rom_size, flags6, flags7))->Ok_0.flags7 == flags7,
        decode(encode(prg_rom_size, chr_rom_size, flags6, flags7))->Ok_0.mapper_number
            == mapper_of(flags6, flags7),
        decode(encode(prg_rom_size, chr_rom_size, flags6, flags7))->Ok_0.mirroring == mirroring_of(
            flags6,
        ),
{
}

/// Round trip: the bytes built from the raw fields of a well-formed header
/// decode to that header, every field of it.
pub proof fn lemma_round_trip(h: NesHeader)
    requires
        h.wf(),
    ensures
        decode(encode(h.prg_rom_size, h.chr_rom_size, h.flags6, h.flags7)) == Ok::<
            NesHeader,
            LoadError,
        >(h),
{
    lemma_encode_then_decode(h.prg_rom_size, h.chr_rom_size, h.flags6, h.flags7);
}

} // verus!
