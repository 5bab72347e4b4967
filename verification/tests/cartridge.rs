use pnes::cartridge::{readable_image, slice_to_vec, Mirroring, Rom};

fn image(prg_banks: u8, chr_banks: u8, flags6: u8, flags7: u8, trainer: bool) -> Vec<u8> {
    let mut raw = vec![0x4E, 0x45, 0x53, 0x1A, prg_banks, chr_banks, flags6, flags7, 0, 0, 0, 0, 0, 0, 0, 0];
    if trainer {
        raw.extend(std::iter::repeat(0xEE).take(512));
    }
    for i in 0..(prg_banks as usize * 16384) {
        raw.push((i % 251) as u8);
    }
    for i in 0..(chr_banks as usize * 8192) {
        raw.push((i % 13) as u8 + 100);
    }
    raw
}

#[test]
fn parses_plain_image() {
    let raw = image(1, 1, 0, 0, false);
    let rom = Rom::new(&raw).expect("valid image");
    assert_eq!(rom.prg_rom.len(), 16384);
    assert_eq!(rom.chr_rom.len(), 8192);
    assert_eq!(rom.prg_rom[..], raw[16..16 + 16384]);
    assert_eq!(rom.chr_rom[..], raw[16 + 16384..]);
    assert_eq!(rom.mapper, 0);
    assert_eq!(rom.mirroring, Mirroring::Horizontal);
}

#[test]
fn vertical_and_four_screen_mirroring() {
    let rom = Rom::new(&image(1, 1, 0b0000_0001, 0, false)).unwrap();
    assert_eq!(rom.mirroring, Mirroring::Vertical);
    let rom = Rom::new(&image(1, 1, 0b0000_1001, 0, false)).unwrap();
    assert_eq!(rom.mirroring, Mirroring::FourScreen);
}

#[test]
fn mapper_number_from_both_flags() {
    let rom = Rom::new(&image(1, 0, 0x10, 0x40, false)).unwrap();
    assert_eq!(rom.mapper, 0x41);
}

#[test]
fn trainer_is_skipped() {
    let raw = image(2, 1, 0b0000_0100, 0, true);
    let rom = Rom::new(&raw).unwrap();
    assert_eq!(rom.prg_rom.len(), 32768);
    assert_eq!(rom.prg_rom[0], 0);
    assert_eq!(rom.prg_rom[..], raw[16 + 512..16 + 512 + 32768]);
    assert_eq!(rom.chr_rom[..], raw[16 + 512 + 32768..]);
}

#[test]
fn ines2_header_is_still_parsed() {
    let rom = Rom::new(&image(1, 1, 0, 0b0000_1000, false)).unwrap();
    assert_eq!(rom.prg_rom.len(), 16384);
}

#[test]
fn missing_magic_is_rejected() {
    let mut raw = image(1, 1, 0, 0, false);
    raw[3] = 0x00;
    match Rom::new(&raw) {
        Err(e) => assert_eq!(e, "[CART] only iNES roms are supported!"),
        Ok(_) => panic!("accepted an image without the magic number"),
    }
}

#[test]
fn slice_copies_range() {
    let raw = vec![1, 2, 3, 4, 5];
    assert_eq!(slice_to_vec(&raw, 1, 4), vec![2, 3, 4]);
    assert_eq!(slice_to_vec(&raw, 2, 2), Vec::<u8>::new());
}

#[test]
fn readable_images() {
    assert!(!readable_image(&vec![0x4E, 0x45, 0x53]));
    assert!(readable_image(&vec![1, 2, 3, 4]));
    let mut raw = image(1, 1, 0, 0, false);
    assert!(readable_image(&raw));
    raw.pop();
    assert!(!readable_image(&raw));
    assert!(!readable_image(&vec![0x4E, 0x45, 0x53, 0x1A, 0, 0, 0]));
    assert!(readable_image(&image(1, 0, 0b100, 0, true)));
}
