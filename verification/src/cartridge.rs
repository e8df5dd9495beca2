//! The cartridge image, and what the bytes of an image load to.

use crate::error::{LoadError, Stage};
use crate::header::{decode, has_signature, NesHeader, FLAG_TRAINER, HEADER_LEN};
use crate::loader::{lemma_feed_keeps_wf, run, Loader, LoaderView, Progress};
use vstd::prelude::*;
use vstd::slice::slice_subrange;

verus! {

/// Length of the trainer in bytes, where there is one.
pub const TRAINER_LEN: usize = 512;

/// Length of one block of program ROM in bytes.
pub const PRG_UNIT_LEN: usize = 16384;

/// Length of one block of graphics ROM in bytes.
pub const CHR_UNIT_LEN: usize = 8192;

/// A decoded cartridge: the header and the regions that follow it.
#[derive(Debug)]
pub struct Cartridge {
    pub header: NesHeader,
    pub prg_rom: Vec<u8>,
    /// Empty where the cartridge has graphics RAM in place of ROM.
    pub chr_rom: Vec<u8>,
    pub trainer: Option<Vec<u8>>,
}

/// The mathematical value of a [`Cartridge`].
pub struct CartridgeView {
    pub header: NesHeader,
    pub prg_rom: Seq<u8>,
    pub chr_rom: Seq<u8>,
    pub trainer: Option<Seq<u8>>,
}

impl View for Cartridge {
    type V = CartridgeView;

    open spec fn view(&self) -> CartridgeView {
        CartridgeView {
            header: self.header,
            prg_rom: self.prg_rom@,
            chr_rom: self.chr_rom@,
            trainer: bytes_view(self.trainer),
        }
    }
}

/// The bytes of a region that may be absent.
pub open spec fn bytes_view(region: Option<Vec<u8>>) -> Option<Seq<u8>> {
    match region {
        Some(bytes) => Some(bytes@),
        None => None,
    }
}

/// Number of trainer bytes that follow a header.
pub open spec fn trainer_len(h: NesHeader) -> int {
    if h.has_trainer {
        TRAINER_LEN as int
    } else {
        0
    }
}

/// Number of program-ROM bytes that a header declares.
pub open spec fn prg_len(h: NesHeader) -> int {
    h.prg_rom_size * PRG_UNIT_LEN
}

/// Number of graphics-ROM bytes that a header declares.
pub open spec fn chr_len(h: NesHeader) -> int {
    h.chr_rom_size * CHR_UNIT_LEN
}

/// Number of bytes that a complete image with this header takes.
pub open spec fn image_len(h: NesHeader) -> int {
    HEADER_LEN + trainer_len(h) + prg_len(h) + chr_len(h)
}

impl CartridgeView {
    /// Every region has the length that the header declares, and there is
    /// program ROM.
    pub open spec fn wf(self) -> bool {
        &&& self.header.wf()
        &&& self.header.prg_rom_size >= 1
        &&& self.prg_rom.len() == prg_len(self.header)
        &&& self.chr_rom.len() == chr_len(self.header)
        &&& self.trainer is Some <==> self.header.has_trainer
        &&& self.trainer is Some ==> self.trainer->Some_0.len() == TRAINER_LEN
    }
}

/// What a byte stream loads to. The regions are read in the order header,
/// trainer, program ROM, graphics ROM, and the first one that fails decides
/// the error: a missing trainer is reported before an empty program ROM.
/// Bytes after the graphics ROM are not looked at.
pub open spec fn load_image(s: Seq<u8>) -> Result<CartridgeView, LoadError> {
    if s.len() < HEADER_LEN {
        Err(LoadError::ShortRead(Stage::Header))
    } else {
        match decode(s.subrange(0, HEADER_LEN as int)) {
            Err(e) => Err(e),
            Ok(h) => {
                let prg_start = HEADER_LEN + trainer_len(h);
                let chr_start = prg_start + prg_len(h);
                if s.len() < prg_start {
                    Err(LoadError::ShortRead(Stage::Trainer))
                } else if h.prg_rom_size == 0 {
                    Err(LoadError::EmptyProgramRom)
                } else if s.len() < chr_start {
                    Err(LoadError::ShortRead(Stage::ProgramRom))
                } else if s.len() < image_len(h) {
                    Err(LoadError::ShortRead(Stage::GraphicsRom))
                } else {
                    Ok(
                        CartridgeView {
                            header: h,
                            prg_rom: s.subrange(prg_start, chr_start),
                            chr_rom: s.subrange(chr_start, image_len(h)),
                            trainer: if h.has_trainer {
                                Some(s.subrange(HEADER_LEN as int, prg_start))
                            } else {
                                None
                            },
                        },
                    )
                }
            },
        }
    }
}

impl Cartridge {
    /// Every region has the length that the header declares.
    pub open spec fn wf(&self) -> bool {
        self@.wf()
    }

    /// Loads a cartridge from the bytes of an image, front to back.
    pub fn load(stream: &[u8]) -> (r: Result<Cartridge, LoadError>)
        ensures
            match r {
                Ok(c) => load_image(stream@) == Ok::<CartridgeView, LoadError>(c@) && c.wf(),
                Err(e) => load_image(stream@) == Err::<CartridgeView, LoadError>(e),
            },
    {
        let n: usize = stream.len();
        let mut loader = Loader::new();
        let mut pos: usize = 0;
        proof {
            lemma_run_is_load_image(stream@);
            assert(stream@.skip(0) =~= stream@);
        }
        loop
            invariant
                pos <= n == stream@.len(),
                loader@.wf(),
                run(loader@, stream@.skip(pos as int)) == load_image(stream@),
            decreases loader@.rank(),
        {
            let want: usize = loader.wanted();
            proof {
                lemma_feed_keeps_wf(loader@, stream@.skip(pos as int));
                if want <= n - pos {
                    assert(stream@.skip(pos as int).skip(want as int) =~= stream@.skip(
                        pos + want,
                    ));
                }
            }
            match loader.feed(slice_subrange(stream, pos, n)) {
                Progress::Continue(next) => {
                    pos = pos + want;
                    loader = next;
                },
                Progress::Done(cartridge) => {
                    return Ok(cartridge);
                },
                Progress::Failed(e) => {
                    return Err(e);
                },
            }
        }
    }
}

/// Feeding the loader read after read from a stream ends as [`load_image`]
/// says: the state machine and the direct description of an image agree on
/// every stream.
pub proof fn lemma_run_is_load_image(s: Seq<u8>)
    ensures
        run(LoaderView::AwaitHeader, s) == load_image(s),
{
    reveal_with_fuel(run, 5);
    if s.len() >= HEADER_LEN {
        if let Ok(h) = decode(s.subrange(0, HEADER_LEN as int)) {
            let prg_start = HEADER_LEN + trainer_len(h);
            let chr_start = prg_start + prg_len(h);
            let after_header = s.skip(HEADER_LEN as int);
            let after_trainer = s.skip(prg_start);
            let after_prg = s.skip(chr_start);
            if s.len() >= prg_start && h.prg_rom_size != 0 {
                assert(after_header.skip(trainer_len(h)) =~= after_trainer);
                assert(after_header.subrange(0, trainer_len(h)) =~= s.subrange(
                    HEADER_LEN as int,
                    prg_start,
                ));
                if s.len() >= chr_start {
                    assert(after_trainer.skip(prg_len(h)) =~= after_prg);
                    assert(after_trainer.subrange(0, prg_len(h)) =~= s.subrange(
                        prg_start,
                        chr_start,
                    ));
                    if s.len() >= image_len(h) {
                        assert(after_prg.subrange(0, chr_len(h)) =~= s.subrange(
                            chr_start,
                            image_len(h),
                        ));
                        assert(Seq::<u8>::empty() =~= s.subrange(chr_start, chr_start));
                    }
                }
            }
        }
    }
}

/// Whatever loads is well formed: there is program ROM, and every region
/// has the length that the header declares.
pub proof fn lemma_loaded_image_wf(s: Seq<u8>)
    requires
        load_image(s) is Ok,
    ensures
        load_image(s)->Ok_0.wf(),
        s.len() >= image_len(load_image(s)->Ok_0.header),
{
}

/// A stream shorter than a header fails at the header, and one that does
/// not start with the signature fails on it, whatever follows.
pub proof fn lemma_header_failures(s: Seq<u8>)
    ensures
        s.len() < HEADER_LEN ==> load_image(s) == Err::<CartridgeView, LoadError>(
            LoadError::ShortRead(Stage::Header),
        ),
        s.len() >= HEADER_LEN && !has_signature(s) ==> load_image(s) == Err::<
            CartridgeView,
            LoadError,
        >(LoadError::InvalidSignature),
{
}

/// A header that announces a trainer, followed by fewer than 512 bytes,
/// fails at the trainer, whatever else the header says.
pub proof fn lemma_truncated_trainer(s: Seq<u8>)
    requires
        s.len() >= HEADER_LEN,
        has_signature(s),
        s[6] & FLAG_TRAINER != 0,
        s.len() - HEADER_LEN < TRAINER_LEN,
    ensures
        load_image(s) == Err::<CartridgeView, LoadError>(LoadError::ShortRead(Stage::Trainer)),
{
}

/// A header that declares no program ROM fails with `EmptyProgramRom`, even
/// where nothing follows it. The one thing that comes first is the trainer:
/// where the header announces one, it has to be there.
pub proof fn lemma_empty_program_rom(s: Seq<u8>)
    requires
        s.len() >= HEADER_LEN,
        has_signature(s),
        s[4] == 0,
        s[6] & FLAG_TRAINER != 0 ==> s.len() - HEADER_LEN >= TRAINER_LEN,
    ensures
        load_image(s) == Err::<CartridgeView, LoadError>(LoadError::EmptyProgramRom),
{
}

/// With no graphics ROM declared, a stream that ends with the program ROM
/// loads, and the graphics region is empty.
pub proof fn lemma_no_graphics_rom(s: Seq<u8>)
    requires
        s.len() >= HEADER_LEN,
        has_signature(s),
        s[4] >= 1,
        s[5] == 0,
        s.len() == HEADER_LEN + (if s[6] & FLAG_TRAINER != 0 {
            TRAINER_LEN as int
        } else {
            0
        }) + s[4] * PRG_UNIT_LEN,
    ensures
        load_image(s) is Ok,
        load_image(s)->Ok_0.chr_rom == Seq::<u8>::empty(),
        load_image(s)->Ok_0.prg_rom.len() == s[4] * PRG_UNIT_LEN,
{
    let c = load_image(s)->Ok_0;
    assert(c.chr_rom =~= Seq::<u8>::empty());
}

/// Bytes that follow a complete image change nothing of what loads.
pub proof fn lemma_trailing_bytes_ignored(s: Seq<u8>, extra: Seq<u8>)
    requires
        load_image(s) is Ok,
    ensures
        load_image(s + extra) == load_image(s),
{
    let t = s + extra;
    assert(t.subrange(0, HEADER_LEN as int) =~= s.subrange(0, HEADER_LEN as int));
    let h = decode(s.subrange(0, HEADER_LEN as int))->Ok_0;
    let prg_start = HEADER_LEN + trainer_len(h);
    let chr_start = prg_start + prg_len(h);
    assert(t.subrange(HEADER_LEN as int, prg_start) =~= s.subrange(HEADER_LEN as int, prg_start));
    assert(t.subrange(prg_start, chr_start) =~= s.subrange(prg_start, chr_start));
    assert(t.subrange(chr_start, image_len(h)) =~= s.subrange(chr_start, image_len(h)));
}

} // verus!
