//! Settings for building a console core: the ROM, BIOS and save-directory
//! paths, a builder that collects them, and the path rules the core
//! enforces - the ROM extension check and the save-file derivation.
//!
//! Paths are plain strings here; `/` separates components, the extension is
//! what follows the last dot of the final component (a dot that begins the
//! component does not count), and the file stem is that component without
//! its extension.

use vstd::prelude::*;
use vstd::string::StrSliceExecFns;
use vstd::string::StringExecFns;

use crate::EmulatorCoreError;
use crate::EmulatorCoreResult;

verus! {

/// The index of the last separator in `s`, or minus one when there is none.
pub open spec fn last_sep(s: Seq<char>) -> int
    decreases s.len(),
{
    if s.len() == 0 {
        -1
    } else if s[s.len() - 1] == '/' {
        s.len() - 1
    } else {
        last_sep(s.drop_last())
    }
}

/// The index of the last dot of `s` that lies strictly after `lo`, or minus
/// one when there is none.
pub open spec fn last_dot_after(s: Seq<char>, lo: int) -> int
    decreases s.len(),
{
    if s.len() == 0 {
        -1
    } else if s.len() - 1 > lo && s[s.len() - 1] == '.' {
        s.len() - 1
    } else {
        last_dot_after(s.drop_last(), lo)
    }
}

/// The index of the dot that begins the extension of `s`'s final component,
/// or minus one when that component has no extension. A dot that begins the
/// component does not count.
pub open spec fn ext_dot(s: Seq<char>) -> int {
    last_dot_after(s, last_sep(s) + 1)
}

/// Whether the path's final component carries an extension.
pub open spec fn has_extension(s: Seq<char>) -> bool {
    ext_dot(s) >= 0
}

/// The extension of the path's final component: what follows its last dot.
pub open spec fn extension_of(s: Seq<char>) -> Seq<char> {
    s.subrange(ext_dot(s) + 1, s.len() as int)
}

/// The path's final component: everything after the last separator.
pub open spec fn file_name_of(s: Seq<char>) -> Seq<char> {
    s.subrange(last_sep(s) + 1, s.len() as int)
}

/// The path's final component without its extension.
pub open spec fn file_stem_of(s: Seq<char>) -> Seq<char> {
    if has_extension(s) {
        s.subrange(last_sep(s) + 1, ext_dot(s))
    } else {
        file_name_of(s)
    }
}

/// The directory part of the path: everything before the last separator,
/// empty when there is none.
pub open spec fn parent_of(s: Seq<char>) -> Seq<char> {
    if last_sep(s) >= 0 {
        s.subrange(0, last_sep(s))
    } else {
        Seq::empty()
    }
}

/// Whether the path carries the console's `gba` extension.
pub open spec fn rom_has_gba_extension(s: Seq<char>) -> bool {
    has_extension(s) && extension_of(s) == seq!['g', 'b', 'a']
}

/// The save file's path: the ROM's file stem with the `sav` extension,
/// joined to the save directory; a separator is inserted only when the
/// directory is nonempty and does not already end with one.
pub open spec fn spec_save_path(rom: Seq<char>, dir: Seq<char>) -> Seq<char> {
    (if dir.len() > 0 && dir[dir.len() - 1] != '/' {
        dir + seq!['/']
    } else {
        dir
    }) + file_stem_of(rom) + seq!['.', 's', 'a', 'v']
}

/// The last separator's index is in range, holds a separator, and nothing
/// after it is a separator.
pub proof fn lemma_last_sep_bounds(s: Seq<char>)
    ensures
        -1 <= last_sep(s) < s.len(),
        last_sep(s) >= 0 ==> s[last_sep(s)] == '/',
        forall|j: int| last_sep(s) < j < s.len() ==> s[j] != '/',
    decreases s.len(),
{
    if s.len() == 0 {
    } else if s[s.len() - 1] == '/' {
    } else {
        lemma_last_sep_bounds(s.drop_last());
        assert(forall|j: int| 0 <= j < s.len() - 1 ==> s.drop_last()[j] == s[j]);
    }
}

/// The last qualifying dot's index is in range, lies after `lo`, holds a
/// dot, and nothing after it that lies after `lo` is a dot.
pub proof fn lemma_last_dot_after_bounds(s: Seq<char>, lo: int)
    ensures
        -1 <= last_dot_after(s, lo) < s.len(),
        last_dot_after(s, lo) >= 0 ==> last_dot_after(s, lo) > lo && s[last_dot_after(s, lo)]
            == '.',
        forall|j: int|
            last_dot_after(s, lo) < j < s.len() && j > lo ==> s[j] != '.',
    decreases s.len(),
{
    if s.len() == 0 {
    } else if s.len() - 1 > lo && s[s.len() - 1] == '.' {
    } else {
        lemma_last_dot_after_bounds(s.drop_last(), lo);
        assert(forall|j: int| 0 <= j < s.len() - 1 ==> s.drop_last()[j] == s[j]);
    }
}

/// The index of the last separator of `s`, when `s` has one.
fn find_last_sep(s: &str) -> (r: Option<usize>)
    ensures
        (match r {
            Some(i) => i == last_sep(s@),
            None => last_sep(s@) == -1,
        }),
{
    proof {
        lemma_last_sep_bounds(s@);
    }
    let n = s.unicode_len();
    let mut i: usize = n;
    while i > 0
        invariant
            i <= n,
            n == s@.len(),
            forall|j: int| i <= j < s@.len() ==> s@[j] != '/',
        decreases i,
    {
        i = i - 1;
        if s.get_char(i) == '/' {
            proof {
                lemma_last_sep_bounds(s@);
            }
            return Some(i);
        }
    }
    None
}

/// The index of the dot that begins the extension of `s`'s final component,
/// when there is one.
fn find_ext_dot(s: &str) -> (r: Option<usize>)
    ensures
        (match r {
            Some(i) => i == ext_dot(s@),
            None => ext_dot(s@) == -1,
        }),
{
    let ghost lo = last_sep(s@) + 1;
    proof {
        lemma_last_sep_bounds(s@);
        lemma_last_dot_after_bounds(s@, lo);
    }
    let n = s.unicode_len();
    let name_start: usize = match find_last_sep(s) {
        Some(i) => i + 1,
        None => 0,
    };
    let mut i: usize = n;
    while i > name_start
        invariant
            name_start <= i <= n,
            n == s@.len(),
            name_start == lo,
            lo == last_sep(s@) + 1,
            forall|j: int| i <= j < s@.len() && j > lo ==> s@[j] != '.',
        decreases i,
    {
        i = i - 1;
        if i > name_start && s.get_char(i) == '.' {
            proof {
                lemma_last_dot_after_bounds(s@, lo);
                let ld = last_dot_after(s@, lo);
                if ld > i {
                    assert(s@[ld] != '.');
                } else if ld < i {
                    assert(s@[i as int] != '.');
                }
            }
            return Some(i);
        }
    }
    None
}

/// The settings a console core is built from.
pub struct GBASettings {
    pub rom_path: String,
    pub bios_path: String,
    pub save_dir: String,
}

/// Collects the paths a core needs; the save directory is optional and
/// defaults to the ROM's directory.
pub struct GBASettingsBuilder {
    pub rom_path: Option<String>,
    pub bios_path: Option<String>,
    pub save_dir: Option<String>,
}

impl GBASettingsBuilder {
    /// A builder with nothing set.
    pub fn new() -> (b: GBASettingsBuilder)
        ensures
            b.rom_path is None,
            b.bios_path is None,
            b.save_dir is None,
    {
        GBASettingsBuilder { rom_path: None, bios_path: None, save_dir: None }
    }

    /// The builder with the ROM path set.
    pub fn with_rom_path(self, rom_path: String) -> (b: GBASettingsBuilder)
        ensures
            b == (GBASettingsBuilder { rom_path: Some(rom_path), ..self }),
    {
        GBASettingsBuilder { rom_path: Some(rom_path), ..self }
    }

    /// The builder with the BIOS path set.
    pub fn with_bios_path(self, bios_path: String) -> (b: GBASettingsBuilder)
        ensures
            b == (GBASettingsBuilder { bios_path: Some(bios_path), ..self }),
    {
        GBASettingsBuilder { bios_path: Some(bios_path), ..self }
    }

    /// The builder with the save directory set.
    pub fn with_save_dir(self, save_dir: String) -> (b: GBASettingsBuilder)
        ensures
            b == (GBASettingsBuilder { save_dir: Some(save_dir), ..self }),
    {
        GBASettingsBuilder { save_dir: Some(save_dir), ..self }
    }

    /// The settings these choices describe. The ROM and BIOS paths must have
    /// been set; a missing save directory defaults to the ROM's directory,
    /// which an empty ROM path cannot supply.
    pub fn build(self) -> (r: Result<GBASettings, String>)
        ensures
            (match (self.rom_path, self.bios_path) {
                (Option::None, _) => r matches Err(m) && m@ == "There must be a ROM path for GBA"@,
                (Option::Some(rp), Option::None) => r matches Err(m) && m@
                    == "There must be a BIOS path for GBA"@,
                (Option::Some(rp), Option::Some(bp)) => match self.save_dir {
                    Option::Some(sd) => r matches Ok(s) && s.rom_path@ == rp@ && s.bios_path@
                        == bp@ && s.save_dir@ == sd@,
                    Option::None => if rp@.len() == 0 {
                        r matches Err(m) && m@ == "The ROM path must be a file"@
                    } else {
                        r matches Ok(s) && s.rom_path@ == rp@ && s.bios_path@ == bp@
                            && s.save_dir@ == parent_of(rp@)
                    },
                },
            }),
    {
        let rom_path = match self.rom_path {
            Some(rp) => rp,
            None => {
                return Err(String::from_str("There must be a ROM path for GBA"));
            },
        };
        let bios_path = match self.bios_path {
            Some(bp) => bp,
            None => {
                return Err(String::from_str("There must be a BIOS path for GBA"));
            },
        };
        let save_dir = match self.save_dir {
            Some(sd) => sd,
            None => {
                if rom_path.unicode_len() == 0 {
                    return Err(String::from_str("The ROM path must be a file"));
                }
                proof {
                    lemma_last_sep_bounds(rom_path@);
                }
                let parent = match find_last_sep(rom_path.as_str()) {
                    Some(i) => rom_path.as_str().substring_char(0, i),
                    None => "",
                };
                proof {
                    if last_sep(rom_path@) < 0 {
                        reveal_strlit("");
                        assert(parent@ =~= parent_of(rom_path@));
                    }
                }
                String::from_str(parent)
            },
        };
        Ok(GBASettings { rom_path, bios_path, save_dir })
    }
}

/// Accepts the settings' ROM path exactly when its extension is the
/// console's `gba`; any other path is an incompatible ROM.
pub fn validate_rom_path(settings: &GBASettings) -> (r: EmulatorCoreResult<&str>)
    ensures
        (if rom_has_gba_extension(settings.rom_path@) {
            r matches Ok(p) && p@ == settings.rom_path@
        } else {
            r == Err::<&str, EmulatorCoreError>(EmulatorCoreError::IncompatibleRom)
        }),
{
    let path = settings.rom_path.as_str();
    proof {
        lemma_last_dot_after_bounds(path@, last_sep(path@) + 1);
    }
    let n = path.unicode_len();
    match find_ext_dot(path) {
        Some(dot) => {
            if n - dot == 4 {
                if path.get_char(dot + 1) == 'g' && path.get_char(dot + 2) == 'b' && path.get_char(
                    dot + 3,
                ) == 'a' {
                    proof {
                        assert(extension_of(path@) =~= seq!['g', 'b', 'a']);
                    }
                    Ok(path)
                } else {
                    proof {
                        assert(extension_of(path@) != seq!['g', 'b', 'a']);
                    }
                    Err(EmulatorCoreError::IncompatibleRom)
                }
            } else {
                proof {
                    assert(extension_of(path@).len() != 3);
                }
                Err(EmulatorCoreError::IncompatibleRom)
            }
        },
        None => Err(EmulatorCoreError::IncompatibleRom),
    }
}

/// Accepts the settings' BIOS path exactly when it names an existing
/// regular file - a fact only the host's file system can supply, handed in
/// as `bios_is_file`; otherwise the path is reported as an invalid BIOS.
pub fn validate_bios_path(settings: &GBASettings, bios_is_file: bool) -> (r: EmulatorCoreResult<
    String,
>)
    ensures
        (if bios_is_file {
            r matches Ok(p) && p@ == settings.bios_path@
        } else {
            r matches Err(e) && e matches EmulatorCoreError::InvalidBiosFile(p) && p@
                == settings.bios_path@
        }),
{
    if bios_is_file {
        Ok(settings.bios_path.clone())
    } else {
        Err(EmulatorCoreError::InvalidBiosFile(settings.bios_path.clone()))
    }
}

/// The save file's path: the ROM's file stem with the `sav` extension,
/// joined to the save directory. ROM validation must come first, so the ROM
/// path is known to carry an extension.
pub fn make_save_path(settings: &GBASettings) -> (r: String)
    requires
        has_extension(settings.rom_path@),
    ensures
        r@ == spec_save_path(settings.rom_path@, settings.save_dir@),
{
    let rom = settings.rom_path.as_str();
    proof {
        lemma_last_sep_bounds(rom@);
        lemma_last_dot_after_bounds(rom@, last_sep(rom@) + 1);
    }
    let n = rom.unicode_len();
    let name_start: usize = match find_last_sep(rom) {
        Some(i) => i + 1,
        None => 0,
    };
    let dot: usize = match find_ext_dot(rom) {
        Some(i) => i,
        None => 0,
    };
    let stem = rom.substring_char(name_start, dot);
    let mut out = settings.save_dir.clone();
    let out_len = out.unicode_len();
    if out_len > 0 && out.as_str().get_char(out_len - 1) != '/' {
        out.append("/");
    }
    out.append(stem);
    out.append(".sav");
    proof {
        reveal_strlit("/");
        reveal_strlit(".sav");
        assert("/"@ =~= seq!['/']);
        assert(".sav"@ =~= seq!['.', 's', 'a', 'v']);
        assert(out@ =~= spec_save_path(settings.rom_path@, settings.save_dir@));
    }
    out
}

} // verus!
