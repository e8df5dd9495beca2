//! The loader as a state machine: it says how many bytes it wants next, takes
//! what a read gave, and moves on, finishes or fails. The caller owns the
//! stream and does the reading.

use crate::cartridge::{
    bytes_view, chr_len, prg_len, Cartridge, CartridgeView, CHR_UNIT_LEN, PRG_UNIT_LEN,
    TRAINER_LEN,
};
use crate::error::{LoadError, Stage};
use crate::header::{decode, decode_prefix, NesHeader, HEADER_LEN};
use vstd::prelude::*;
use vstd::slice::{slice_subrange, slice_to_vec};

verus! {

/// Where a load stands between two reads, with what was read so far.
#[derive(Debug)]
pub enum Loader {
    AwaitHeader,
    AwaitTrainer { header: NesHeader },
    AwaitProgramRom { header: NesHeader, trainer: Option<Vec<u8>> },
    AwaitGraphicsRom { header: NesHeader, trainer: Option<Vec<u8>>, prg_rom: Vec<u8> },
}

/// What a read led to.
#[derive(Debug)]
pub enum Progress {
    /// Read as many bytes as the loader wants and feed them to it.
    Continue(Loader),
    /// The image is complete.
    Done(Cartridge),
    /// The load has failed for good.
    Failed(LoadError),
}

/// The mathematical value of a [`Loader`].
pub enum LoaderView {
    AwaitHeader,
    AwaitTrainer { header: NesHeader },
    AwaitProgramRom { header: NesHeader, trainer: Option<Seq<u8>> },
    AwaitGraphicsRom { header: NesHeader, trainer: Option<Seq<u8>>, prg_rom: Seq<u8> },
}

/// The mathematical value of a [`Progress`].
pub enum ProgressView {
    Continue(LoaderView),
    Done(CartridgeView),
    Failed(LoadError),
}

impl View for Loader {
    type V = LoaderView;

    open spec fn view(&self) -> LoaderView {
        match *self {
            Loader::AwaitHeader => LoaderView::AwaitHeader,
            Loader::AwaitTrainer { header } => LoaderView::AwaitTrainer { header },
            Loader::AwaitProgramRom { header, trainer } => LoaderView::AwaitProgramRom {
                header,
                trainer: bytes_view(trainer),
            },
            Loader::AwaitGraphicsRom { header, trainer, prg_rom } => LoaderView::AwaitGraphicsRom {
                header,
                trainer: bytes_view(trainer),
                prg_rom: prg_rom@,
            },
        }
    }
}

impl View for Progress {
    type V = ProgressView;

    open spec fn view(&self) -> ProgressView {
        match *self {
            Progress::Continue(loader) => ProgressView::Continue(loader@),
            Progress::Done(cartridge) => ProgressView::Done(cartridge@),
            Progress::Failed(e) => ProgressView::Failed(e),
        }
    }
}

/// The step after the trainer, or after the header where there is none: a
/// header that declares no program ROM is refused before anything is read
/// for it.
pub open spec fn after_trainer(header: NesHeader, trainer: Option<Seq<u8>>) -> ProgressView {
    if header.prg_rom_size == 0 {
        ProgressView::Failed(LoadError::EmptyProgramRom)
    } else {
        ProgressView::Continue(LoaderView::AwaitProgramRom { header, trainer })
    }
}

impl LoaderView {
    /// The region that the next read is for.
    pub open spec fn stage(self) -> Stage {
        match self {
            LoaderView::AwaitHeader => Stage::Header,
            LoaderView::AwaitTrainer { .. } => Stage::Trainer,
            LoaderView::AwaitProgramRom { .. } => Stage::ProgramRom,
            LoaderView::AwaitGraphicsRom { .. } => Stage::GraphicsRom,
        }
    }

    /// Number of bytes that the next read must give.
    pub open spec fn wanted(self) -> int {
        match self {
            LoaderView::AwaitHeader => HEADER_LEN as int,
            LoaderView::AwaitTrainer { .. } => TRAINER_LEN as int,
            LoaderView::AwaitProgramRom { header, .. } => prg_len(header),
            LoaderView::AwaitGraphicsRom { header, .. } => chr_len(header),
        }
    }

    /// Number of reads that may still follow.
    pub open spec fn rank(self) -> nat {
        match self {
            LoaderView::AwaitHeader => 4,
            LoaderView::AwaitTrainer { .. } => 3,
            LoaderView::AwaitProgramRom { .. } => 2,
            LoaderView::AwaitGraphicsRom { .. } => 1,
        }
    }

    /// What was read so far fits the header, and the region waited for is
    /// not empty.
    pub open spec fn wf(self) -> bool {
        match self {
            LoaderView::AwaitHeader => true,
            LoaderView::AwaitTrainer { header } => header.wf() && header.has_trainer,
            LoaderView::AwaitProgramRom { header, trainer } => {
                &&& header.wf()
                &&& header.prg_rom_size >= 1
                &&& trainer is Some <==> header.has_trainer
                &&& trainer is Some ==> trainer->Some_0.len() == TRAINER_LEN
            },
            LoaderView::AwaitGraphicsRom { header, trainer, prg_rom } => {
                &&& header.wf()
                &&& header.prg_rom_size >= 1
                &&& header.chr_rom_size >= 1
                &&& trainer is Some <==> header.has_trainer
                &&& trainer is Some ==> trainer->Some_0.len() == TRAINER_LEN
                &&& prg_rom.len() == prg_len(header)
            },
        }
    }

    /// The step that a read makes. `chunk` is what the read gave: fewer bytes
    /// than wanted is a short read at this stage, and bytes beyond those
    /// wanted are not looked at.
    pub open spec fn feed(self, chunk: Seq<u8>) -> ProgressView {
        if chunk.len() < self.wanted() {
            ProgressView::Failed(LoadError::ShortRead(self.stage()))
        } else {
            let got = chunk.subrange(0, self.wanted());
            match self {
                LoaderView::AwaitHeader => match decode(got) {
                    Err(e) => ProgressView::Failed(e),
                    Ok(header) => if header.has_trainer {
                        ProgressView::Continue(LoaderView::AwaitTrainer { header })
                    } else {
                        after_trainer(header, None)
                    },
                },
                LoaderView::AwaitTrainer { header } => after_trainer(header, Some(got)),
                LoaderView::AwaitProgramRom { header, trainer } => if header.chr_rom_size == 0 {
                    ProgressView::Done(
                        CartridgeView { header, prg_rom: got, chr_rom: Seq::empty(), trainer },
                    )
                } else {
                    ProgressView::Continue(
                        LoaderView::AwaitGraphicsRom { header, trainer, prg_rom: got },
                    )
                },
                LoaderView::AwaitGraphicsRom { header, trainer, prg_rom } => ProgressView::Done(
                    CartridgeView { header, prg_rom, chr_rom: got, trainer },
                ),
            }
        }
    }
}

impl ProgressView {
    /// The loader or the cartridge that it holds is well formed.
    pub open spec fn wf(self) -> bool {
        match self {
            ProgressView::Continue(next) => next.wf(),
            ProgressView::Done(cartridge) => cartridge.wf(),
            ProgressView::Failed(_) => true,
        }
    }
}

/// What the loader ends with when it is fed, read after read, from the bytes
/// `rest` that the stream still holds.
pub open spec fn run(state: LoaderView, rest: Seq<u8>) -> Result<CartridgeView, LoadError>
    decreases state.rank(),
{
    match state.feed(rest) {
        ProgressView::Continue(next) => run(next, rest.skip(state.wanted())),
        ProgressView::Done(cartridge) => Ok(cartridge),
        ProgressView::Failed(e) => Err(e),
    }
}

/// The step after the trainer, or after the header where there is none.
fn enter_program_rom(header: NesHeader, trainer: Option<Vec<u8>>) -> (r: Progress)
    ensures
        r@ == after_trainer(header, bytes_view(trainer)),
{
    if header.prg_rom_size == 0 {
        Progress::Failed(LoadError::EmptyProgramRom)
    } else {
        Progress::Continue(Loader::AwaitProgramRom { header, trainer })
    }
}

impl Loader {
    /// A loader at the start of an image.
    pub fn new() -> (r: Loader)
        ensures
            r@ == LoaderView::AwaitHeader,
            r@.wf(),
    {
        Loader::AwaitHeader
    }

    /// The region that the next read is for.
    pub fn stage(&self) -> (r: Stage)
        ensures
            r == self@.stage(),
    {
        match self {
            Loader::AwaitHeader => Stage::Header,
            Loader::AwaitTrainer { .. } => Stage::Trainer,
            Loader::AwaitProgramRom { .. } => Stage::ProgramRom,
            Loader::AwaitGraphicsRom { .. } => Stage::GraphicsRom,
        }
    }

    /// Number of bytes that the next read must give.
    pub fn wanted(&self) -> (r: usize)
        ensures
            r == self@.wanted(),
    {
        match self {
            Loader::AwaitHeader => HEADER_LEN,
            Loader::AwaitTrainer { .. } => TRAINER_LEN,
            Loader::AwaitProgramRom { header, .. } => header.prg_rom_size as usize * PRG_UNIT_LEN,
            Loader::AwaitGraphicsRom { header, .. } => header.chr_rom_size as usize * CHR_UNIT_LEN,
        }
    }

    /// Takes what a read gave and makes the next step.
    pub fn feed(self, chunk: &[u8]) -> (r: Progress)
        ensures
            r@ == self@.feed(chunk@),
            self@.wf() ==> r@.wf(),
    {
        proof {
            if self@.wf() {
                lemma_feed_keeps_wf(self@, chunk@);
            }
        }
        let want: usize = self.wanted();
        if chunk.len() < want {
            return Progress::Failed(LoadError::ShortRead(self.stage()));
        }
        match self {
            Loader::AwaitHeader => match decode_prefix(chunk) {
                Err(e) => Progress::Failed(e),
                Ok(header) => if header.has_trainer {
                    Progress::Continue(Loader::AwaitTrainer { header })
                } else {
                    enter_program_rom(header, None)
                },
            },
            Loader::AwaitTrainer { header } => {
                let got = slice_to_vec(slice_subrange(chunk, 0, want));
                enter_program_rom(header, Some(got))
            },
            Loader::AwaitProgramRom { header, trainer } => {
                let prg_rom = slice_to_vec(slice_subrange(chunk, 0, want));
                if header.chr_rom_size == 0 {
                    Progress::Done(Cartridge { header, prg_rom, chr_rom: Vec::new(), trainer })
                } else {
                    Progress::Continue(Loader::AwaitGraphicsRom { header, trainer, prg_rom })
                }
            },
            Loader::AwaitGraphicsRom { header, trainer, prg_rom } => {
                let chr_rom = slice_to_vec(slice_subrange(chunk, 0, want));
                Progress::Done(Cartridge { header, prg_rom, chr_rom, trainer })
            },
        }
    }
}

/// A step from a well-formed loader leads to a well-formed loader or to a
/// well-formed cartridge, and to a loader with fewer reads ahead of it.
pub proof fn lemma_feed_keeps_wf(state: LoaderView, chunk: Seq<u8>)
    requires
        state.wf(),
    ensures
        state.feed(chunk).wf(),
        state.feed(chunk) is Continue ==> state.feed(chunk)->Continue_0.rank() < state.rank(),
        state.feed(chunk) is Continue ==> state.feed(chunk)->Continue_0.wanted() >= 1,
{
}

} // verus!
