use nes_cartridge::{Cartridge, LoadError, Loader, Mirroring, Progress, Stage};

/// A complete image with the given header fields, each region filled with a
/// pattern of its own.
fn image(prg: u8, chr: u8, flags6: u8, flags7: u8) -> Vec<u8> {
    let mut bytes: Vec<u8> =
        vec![0x4E, 0x45, 0x53, 0x1A, prg, chr, flags6, flags7, 0, 0, 0, 0, 0, 0, 0, 0];
    if flags6 & 0x04 != 0 {
        bytes.extend((0..512usize).map(|i| (i % 251) as u8));
    }
    bytes.extend((0..prg as usize * 16384).map(|i| (i % 253) as u8 ^ 0x55));
    bytes.extend((0..chr as usize * 8192).map(|i| (i % 241) as u8 ^ 0xAA));
    bytes
}

#[test]
fn loads_all_four_regions() {
    let bytes = image(2, 1, 0b0000_0101, 0);
    assert_eq!(bytes.len(), 16 + 512 + 32768 + 8192);
    let cartridge = Cartridge::load(&bytes).unwrap();
    assert_eq!(cartridge.header.prg_rom_size, 2);
    assert_eq!(cartridge.header.chr_rom_size, 1);
    assert_eq!(cartridge.header.mirroring, Mirroring::Vertical);
    assert!(cartridge.header.has_trainer);
    assert_eq!(cartridge.trainer.as_deref(), Some(&bytes[16..528]));
    assert_eq!(cartridge.prg_rom.len(), 32768);
    assert_eq!(cartridge.prg_rom[..], bytes[528..528 + 32768]);
    assert_eq!(cartridge.chr_rom.len(), 8192);
    assert_eq!(cartridge.chr_rom[..], bytes[528 + 32768..]);
}

#[test]
fn loads_without_trainer() {
    let bytes = image(1, 1, 0, 0);
    assert_eq!(bytes.len(), 16 + 16384 + 8192);
    let cartridge = Cartridge::load(&bytes).unwrap();
    assert_eq!(cartridge.trainer, None);
    assert_eq!(cartridge.prg_rom[..], bytes[16..16 + 16384]);
    assert_eq!(cartridge.chr_rom[..], bytes[16 + 16384..]);
    assert_eq!(cartridge.header.mapper_number, 0);
}

#[test]
fn largest_image_loads() {
    let bytes = image(255, 255, 0x04, 0);
    assert_eq!(bytes.len(), 16 + 512 + 255 * 16384 + 255 * 8192);
    let cartridge = Cartridge::load(&bytes).unwrap();
    assert_eq!(cartridge.prg_rom.len(), 4_177_920);
    assert_eq!(cartridge.chr_rom.len(), 2_088_960);
    assert_eq!(cartridge.trainer.map(|t| t.len()), Some(512));
}

#[test]
fn short_header_fails_at_the_header() {
    assert_eq!(Cartridge::load(&[]).unwrap_err(), LoadError::ShortRead(Stage::Header));
    let bytes = image(1, 1, 0, 0);
    assert_eq!(Cartridge::load(&bytes[..15]).unwrap_err(), LoadError::ShortRead(Stage::Header));
    assert_eq!(Cartridge::load(&bytes[..4]).unwrap_err(), LoadError::ShortRead(Stage::Header));
}

#[test]
fn bad_signature_is_passed_on_by_the_loader() {
    let mut bytes = image(1, 1, 0, 0);
    bytes[3] = 0;
    assert_eq!(Cartridge::load(&bytes).unwrap_err(), LoadError::InvalidSignature);
    assert_eq!(Cartridge::load(&bytes[..16]).unwrap_err(), LoadError::InvalidSignature);
}

#[test]
fn truncated_trainer_fails_at_the_trainer() {
    let bytes = image(1, 1, 0x04, 0);
    assert_eq!(Cartridge::load(&bytes[..16]).unwrap_err(), LoadError::ShortRead(Stage::Trainer));
    assert_eq!(Cartridge::load(&bytes[..300]).unwrap_err(), LoadError::ShortRead(Stage::Trainer));
    assert_eq!(
        Cartridge::load(&bytes[..16 + 511]).unwrap_err(),
        LoadError::ShortRead(Stage::Trainer)
    );
    // with the trainer complete the failure moves on to the program ROM
    assert_eq!(
        Cartridge::load(&bytes[..16 + 512]).unwrap_err(),
        LoadError::ShortRead(Stage::ProgramRom)
    );
}

#[test]
fn zero_program_blocks_fail_even_at_the_end_of_the_stream() {
    let bytes = image(0, 1, 0, 0);
    assert_eq!(Cartridge::load(&bytes[..16]).unwrap_err(), LoadError::EmptyProgramRom);
    assert_eq!(Cartridge::load(&bytes).unwrap_err(), LoadError::EmptyProgramRom);
    // an announced trainer is still read first
    let with_trainer = image(0, 0, 0x04, 0);
    assert_eq!(with_trainer.len(), 16 + 512);
    assert_eq!(Cartridge::load(&with_trainer).unwrap_err(), LoadError::EmptyProgramRom);
    assert_eq!(
        Cartridge::load(&with_trainer[..16]).unwrap_err(),
        LoadError::ShortRead(Stage::Trainer)
    );
}

#[test]
fn truncated_program_rom_fails_at_the_program_rom() {
    let bytes = image(2, 1, 0, 0);
    assert_eq!(
        Cartridge::load(&bytes[..16]).unwrap_err(),
        LoadError::ShortRead(Stage::ProgramRom)
    );
    assert_eq!(
        Cartridge::load(&bytes[..16 + 32767]).unwrap_err(),
        LoadError::ShortRead(Stage::ProgramRom)
    );
}

#[test]
fn truncated_graphics_rom_fails_at_the_graphics_rom() {
    let bytes = image(1, 2, 0, 0);
    assert_eq!(
        Cartridge::load(&bytes[..16 + 16384]).unwrap_err(),
        LoadError::ShortRead(Stage::GraphicsRom)
    );
    assert_eq!(
        Cartridge::load(&bytes[..bytes.len() - 1]).unwrap_err(),
        LoadError::ShortRead(Stage::GraphicsRom)
    );
    assert!(Cartridge::load(&bytes).is_ok());
}

#[test]
fn no_graphics_rom_gives_an_empty_region() {
    let bytes = image(1, 0, 0, 0);
    assert_eq!(bytes.len(), 16 + 16384);
    let cartridge = Cartridge::load(&bytes).unwrap();
    assert!(cartridge.chr_rom.is_empty());
    assert_eq!(cartridge.prg_rom[..], bytes[16..]);
    assert_eq!(cartridge.header.chr_rom_size, 0);
}

#[test]
fn bytes_after_the_image_are_ignored() {
    let mut bytes = image(1, 1, 0x04, 0x20);
    let exact = Cartridge::load(&bytes).unwrap();
    bytes.extend([0xEE; 100]);
    let longer = Cartridge::load(&bytes).unwrap();
    assert_eq!(longer.header, exact.header);
    assert_eq!(longer.trainer, exact.trainer);
    assert_eq!(longer.prg_rom, exact.prg_rom);
    assert_eq!(longer.chr_rom, exact.chr_rom);
    assert_eq!(longer.chr_rom.len(), 8192);
}

#[test]
fn loader_asks_for_each_region_in_turn() {
    let bytes = image(2, 1, 0x04, 0);
    let loader = Loader::new();
    assert_eq!(loader.stage(), Stage::Header);
    assert_eq!(loader.wanted(), 16);

    let loader = match loader.feed(&bytes[..16]) {
        Progress::Continue(next) => next,
        other => panic!("unexpected {:?}", other),
    };
    assert_eq!(loader.stage(), Stage::Trainer);
    assert_eq!(loader.wanted(), 512);

    let loader = match loader.feed(&bytes[16..528]) {
        Progress::Continue(next) => next,
        other => panic!("unexpected {:?}", other),
    };
    assert_eq!(loader.stage(), Stage::ProgramRom);
    assert_eq!(loader.wanted(), 32768);

    let loader = match loader.feed(&bytes[528..528 + 32768]) {
        Progress::Continue(next) => next,
        other => panic!("unexpected {:?}", other),
    };
    assert_eq!(loader.stage(), Stage::GraphicsRom);
    assert_eq!(loader.wanted(), 8192);

    match loader.feed(&bytes[528 + 32768..]) {
        Progress::Done(cartridge) => {
            assert_eq!(cartridge.trainer.as_deref(), Some(&bytes[16..528]));
            assert_eq!(cartridge.prg_rom[..], bytes[528..528 + 32768]);
            assert_eq!(cartridge.chr_rom[..], bytes[528 + 32768..]);
        }
        other => panic!("unexpected {:?}", other),
    }
}

#[test]
fn loader_skips_absent_regions() {
    let bytes = image(1, 0, 0, 0);
    let loader = match Loader::new().feed(&bytes[..16]) {
        Progress::Continue(next) => next,
        other => panic!("unexpected {:?}", other),
    };
    assert_eq!(loader.stage(), Stage::ProgramRom);
    assert_eq!(loader.wanted(), 16384);
    match loader.feed(&bytes[16..]) {
        Progress::Done(cartridge) => {
            assert!(cartridge.chr_rom.is_empty());
            assert_eq!(cartridge.trainer, None);
            assert_eq!(cartridge.prg_rom[..], bytes[16..]);
        }
        other => panic!("unexpected {:?}", other),
    }
}

#[test]
fn loader_fails_on_a_short_chunk() {
    let bytes = image(1, 1, 0x04, 0);
    assert!(matches!(
        Loader::new().feed(&bytes[..15]),
        Progress::Failed(LoadError::ShortRead(Stage::Header))
    ));
    let loader = match Loader::new().feed(&bytes[..16]) {
        Progress::Continue(next) => next,
        other => panic!("unexpected {:?}", other),
    };
    assert!(matches!(loader.feed(&[]), Progress::Failed(LoadError::ShortRead(Stage::Trainer))));
}

#[test]
fn loader_refuses_an_empty_program_rom_before_reading_it() {
    let bytes = image(0, 1, 0, 0);
    assert!(matches!(
        Loader::new().feed(&bytes[..16]),
        Progress::Failed(LoadError::EmptyProgramRom)
    ));
    let mut bad = bytes.clone();
    bad[0] = 0;
    assert!(matches!(Loader::new().feed(&bad[..16]), Progress::Failed(LoadError::InvalidSignature)));
}

#[test]
fn loader_takes_only_the_bytes_it_wanted() {
    let bytes = image(1, 0, 0, 0);
    let mut chunk = bytes[16..].to_vec();
    chunk.extend([0x99; 7]);
    let loader = match Loader::new().feed(&bytes) {
        Progress::Continue(next) => next,
        other => panic!("unexpected {:?}", other),
    };
    match loader.feed(&chunk) {
        Progress::Done(cartridge) => {
            assert_eq!(cartridge.prg_rom.len(), 16384);
            assert_eq!(cartridge.prg_rom[..], bytes[16..]);
        }
        other => panic!("unexpected {:?}", other),
    }
}
