//! Tests of the settings builder and of the ROM-path and save-path rules.

use gba_core::EmulatorCoreError;
use gba_core::settings::GBASettings;
use gba_core::settings::GBASettingsBuilder;
use gba_core::settings::make_save_path;
use gba_core::settings::validate_bios_path;
use gba_core::settings::validate_rom_path;

fn settings(rom: &str, bios: &str, save: &str) -> GBASettings {
    GBASettings {
        rom_path: String::from(rom),
        bios_path: String::from(bios),
        save_dir: String::from(save),
    }
}

#[test]
fn builder_requires_rom_and_bios_paths() {
    let r = GBASettingsBuilder::new().build();
    assert_eq!(r.err().unwrap(), "There must be a ROM path for GBA");
    let r = GBASettingsBuilder::new().with_rom_path(String::from("a.gba")).build();
    assert_eq!(r.err().unwrap(), "There must be a BIOS path for GBA");
}

#[test]
fn builder_keeps_an_explicit_save_dir() {
    let s = GBASettingsBuilder::new()
        .with_rom_path(String::from("roms/game.gba"))
        .with_bios_path(String::from("bios.bin"))
        .with_save_dir(String::from("saves"))
        .build()
        .unwrap();
    assert_eq!(s.rom_path, "roms/game.gba");
    assert_eq!(s.bios_path, "bios.bin");
    assert_eq!(s.save_dir, "saves");
}

#[test]
fn builder_defaults_save_dir_to_the_rom_directory() {
    let s = GBASettingsBuilder::new()
        .with_rom_path(String::from("path/to/game.gba"))
        .with_bios_path(String::from("bios.bin"))
        .build()
        .unwrap();
    assert_eq!(s.save_dir, "path/to");
    // A bare file name has an empty directory part.
    let s = GBASettingsBuilder::new()
        .with_rom_path(String::from("game.gba"))
        .with_bios_path(String::from("bios.bin"))
        .build()
        .unwrap();
    assert_eq!(s.save_dir, "");
    // An empty ROM path cannot supply one.
    let r = GBASettingsBuilder::new()
        .with_rom_path(String::new())
        .with_bios_path(String::from("bios.bin"))
        .build();
    assert_eq!(r.err().unwrap(), "The ROM path must be a file");
}

#[test]
fn rom_extension_must_be_gba() {
    assert_eq!(validate_rom_path(&settings("path/to/game.gba", "b", "s")).unwrap(), "path/to/game.gba");
    assert_eq!(validate_rom_path(&settings("game.gba", "b", "s")).unwrap(), "game.gba");
    // Wrong extension, no extension, hidden file, and a dot only in a
    // directory name are all incompatible.
    for rom in ["game.gb", "game.gbaa", "game", ".gba", "dir.gba/rom", "game.", ""] {
        assert!(
            matches!(
                validate_rom_path(&settings(rom, "b", "s")),
                Err(EmulatorCoreError::IncompatibleRom)
            ),
            "{rom:?} should be incompatible"
        );
    }
}

#[test]
fn bios_path_is_accepted_only_as_an_existing_file() {
    let s = settings("game.gba", "path/to/bios.bin", "");
    assert_eq!(validate_bios_path(&s, true).unwrap(), "path/to/bios.bin");
    match validate_bios_path(&s, false) {
        Err(EmulatorCoreError::InvalidBiosFile(p)) => assert_eq!(p, "path/to/bios.bin"),
        other => panic!("expected an invalid BIOS error, found {other:?}"),
    }
}

#[test]
fn save_path_joins_stem_and_extension() {
    let s = settings("roms/game.gba", "bios.bin", "saves");
    assert_eq!(make_save_path(&s), "saves/game.sav");
    let s = settings("game.gba", "bios.bin", "");
    assert_eq!(make_save_path(&s), "game.sav");
    let s = settings("a/b/c.d.gba", "bios.bin", "x/y");
    assert_eq!(make_save_path(&s), "x/y/c.d.sav");
    // A directory that already ends with a separator gets no second one.
    let s = settings("roms/game.gba", "bios.bin", "saves/");
    assert_eq!(make_save_path(&s), "saves/game.sav");
}
