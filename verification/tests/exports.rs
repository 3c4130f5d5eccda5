use mtga_tracker::injector::error::InjectError;
use mtga_tracker::injector::mono::{find_game_process, find_mono_module, Module};
use mtga_tracker::injector::pe::{get_exports_for_module, ExportTableError};

fn put_u32(image: &mut [u8], at: usize, v: u32) {
    image[at..at + 4].copy_from_slice(&v.to_le_bytes());
}

fn put_u16(image: &mut [u8], at: usize, v: u16) {
    image[at..at + 2].copy_from_slice(&v.to_le_bytes());
}

fn put_str(image: &mut [u8], at: usize, s: &[u8]) {
    image[at..at + s.len()].copy_from_slice(s);
    image[at + s.len()] = 0;
}

fn sample_image() -> Vec<u8> {
    let mut image = vec![0u8; 0x400];
    put_u32(&mut image, 0x3C, 0x80);
    put_u32(&mut image, 0x80 + 0x88, 0x200);
    put_u32(&mut image, 0x210, 5);
    put_u32(&mut image, 0x218, 2);
    put_u32(&mut image, 0x21C, 0x300);
    put_u32(&mut image, 0x220, 0x280);
    put_u32(&mut image, 0x224, 0x2A0);
    put_u32(&mut image, 0x280, 0x340);
    put_u32(&mut image, 0x284, 0x360);
    put_str(&mut image, 0x340, b"mono_thread_attach");
    put_str(&mut image, 0x360, b"mono_image_close");
    put_u16(&mut image, 0x2A0, 1);
    put_u16(&mut image, 0x2A2, 0);
    put_u32(&mut image, 0x300, 0x1000);
    put_u32(&mut image, 0x304, 0x2000);
    image
}

#[test]
fn exports_are_read_from_the_module_image() {
    let load = 0x7FF0_0000_0000usize;
    let exports = get_exports_for_module(&sample_image(), load).ok().unwrap();
    assert_eq!(exports.len(), 2);
    assert_eq!(exports[0].name(), "mono_thread_attach");
    assert_eq!(exports[0].ordinal, 6);
    assert_eq!(exports[0].address(), load + 0x2000);
    assert_eq!(exports[1].name(), "mono_image_close");
    assert_eq!(exports[1].ordinal, 5);
    assert_eq!(exports[1].address(), load + 0x1000);
}

#[test]
fn a_table_outside_the_image_cannot_be_read() {
    let image = sample_image();
    assert_eq!(get_exports_for_module(&image[..0x300], 0x1000).err(), Some(ExportTableError::Unreadable));
    assert_eq!(get_exports_for_module(&image[..0x20], 0x1000).err(), Some(ExportTableError::Unreadable));
}

#[test]
fn names_must_be_utf8() {
    let mut image = sample_image();
    image[0x362] = 0xFF;
    assert_eq!(get_exports_for_module(&image, 0x1000).err(), Some(ExportTableError::InvalidName));
}

#[test]
fn the_mono_module_and_the_game_are_found_by_name() {
    let modules = vec![
        Module { name: String::from("UnityPlayer.dll"), load_address: 0x1000 },
        Module { name: String::from("mono-2.0-bdwgc.dll"), load_address: 0x2000 },
        Module { name: String::from("mono-other.dll"), load_address: 0x3000 },
    ];
    assert_eq!(find_mono_module(&modules).ok().map(|m| m.load_address), Some(0x2000));
    match find_mono_module(&modules[..1]) {
        Err(InjectError::CustomError(m)) => assert_eq!(m, "Could not find the mono module"),
        _ => panic!(),
    }
    let names = vec![String::from("explorer.exe"), String::from("MTGA.exe")];
    assert_eq!(find_game_process(&names).ok(), Some(1));
    assert!(find_game_process(&names[..1]).is_err());
}
