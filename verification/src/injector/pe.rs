//! The export table of a module loaded in the target process, read from an image of the
//! module's memory: the DOS header leads to the NT headers, whose first data directory is the
//! export directory; it lists, for each exported name, the name's address, the function's
//! ordinal and, through the ordinal, the function's address.

use vstd::prelude::*;
use vstd::utf8::{decode_utf8, valid_utf8};
use crate::injector::mono::ExportedFunction;
use crate::text::string_from_utf8;

verus! {

/// Where the DOS header holds the offset of the NT headers (`IMAGE_DOS_HEADER::e_lfanew`).
pub const E_LFANEW_OFFSET: usize = 0x3C;
/// The size of `IMAGE_DOS_HEADER`.
pub const DOS_HEADER_SIZE: usize = 64;
/// The size of `IMAGE_NT_HEADERS64`.
pub const NT_HEADERS_SIZE: usize = 264;
/// Where `IMAGE_NT_HEADERS64` holds the address of the export directory
/// (`OptionalHeader.DataDirectory[0].VirtualAddress`).
pub const EXPORT_RVA_OFFSET: usize = 0x88;
/// The size of `IMAGE_EXPORT_DIRECTORY`.
pub const EXPORT_DIRECTORY_SIZE: usize = 40;

/// Whether `n` bytes from `off` lie in the image.
pub open spec fn readable(image: Seq<u8>, off: int, n: int) -> bool {
    0 <= off && off + n <= image.len()
}

/// The little-endian `u16` at `off`.
pub open spec fn u16_at(image: Seq<u8>, off: int) -> int {
    image[off] as int + 256 * image[off + 1] as int
}

/// The little-endian `u32` at `off`.
pub open spec fn u32_at(image: Seq<u8>, off: int) -> int {
    image[off] as int + 256 * image[off + 1] as int + 65536 * image[off + 2] as int + 16777216
        * image[off + 3] as int
}

/// The `i32` at `off`, read as two's complement.
pub open spec fn i32_at(image: Seq<u8>, off: int) -> int {
    if u32_at(image, off) >= 0x8000_0000 {
        u32_at(image, off) - 0x1_0000_0000
    } else {
        u32_at(image, off)
    }
}

/// The fields of the export directory that the table is read from.
pub struct ExportDirectory {
    pub base: int,
    pub number_of_names: int,
    pub address_of_functions: int,
    pub address_of_names: int,
    pub address_of_name_ordinals: int,
}

/// The export directory of the image: `None` when a header does not lie in the image.
pub open spec fn export_directory(image: Seq<u8>) -> Option<ExportDirectory> {
    if !readable(image, 0, DOS_HEADER_SIZE as int) {
        None
    } else {
        let nt = i32_at(image, E_LFANEW_OFFSET as int);
        if !readable(image, nt, NT_HEADERS_SIZE as int) {
            None
        } else {
            let dir = u32_at(image, nt + EXPORT_RVA_OFFSET);
            if !readable(image, dir, EXPORT_DIRECTORY_SIZE as int) {
                None
            } else {
                Some(
                    ExportDirectory {
                        base: u32_at(image, dir + 0x10),
                        number_of_names: u32_at(image, dir + 0x18),
                        address_of_functions: u32_at(image, dir + 0x1C),
                        address_of_names: u32_at(image, dir + 0x20),
                        address_of_name_ordinals: u32_at(image, dir + 0x24),
                    },
                )
            }
        }
    }
}

/// Where the nul-terminated string at `off` ends, if a nul follows it in the image.
pub open spec fn c_string_end(image: Seq<u8>, off: int) -> Option<int> {
    if 0 <= off && exists|k: int| off <= k < image.len() && image[k] == 0 {
        Some(choose|k: int| off <= k < image.len() && image[k] == 0 && forall|j: int| off <= j < k ==> image[j] != 0)
    } else {
        None
    }
}

/// Why the export table could not be read.
#[derive(Debug, Clone, Copy, PartialEq, Eq, Structural)]
pub enum ExportTableError {
    /// A header, an array entry or a name does not lie in the image.
    Unreadable,
    /// An exported name is not UTF-8.
    InvalidName,
}

/// What is read for the exported name `i`: its name's bytes, its ordinal (the index into the
/// functions' addresses) and its function's address, or why it could not be read. The steps
/// go in order: the name's address, the name, the ordinal, the function's address.
pub enum EntryRead {
    Read { name: Seq<u8>, ordinal: int, rva: int },
    Failed(ExportTableError),
}

/// What is read for the exported name `i`.
pub open spec fn export_entry(image: Seq<u8>, dir: ExportDirectory, i: int) -> EntryRead {
    let name_ptr = dir.address_of_names + 4 * i;
    if !readable(image, name_ptr, 4) {
        EntryRead::Failed(ExportTableError::Unreadable)
    } else {
        let name_rva = u32_at(image, name_ptr);
        match c_string_end(image, name_rva) {
            None => EntryRead::Failed(ExportTableError::Unreadable),
            Some(end) => {
                let name = image.subrange(name_rva, end);
                if !valid_utf8(name) {
                    EntryRead::Failed(ExportTableError::InvalidName)
                } else {
                    let ord_ptr = dir.address_of_name_ordinals + 2 * i;
                    if !readable(image, ord_ptr, 2) {
                        EntryRead::Failed(ExportTableError::Unreadable)
                    } else {
                        let ordinal = u16_at(image, ord_ptr);
                        let fn_ptr = dir.address_of_functions + 4 * ordinal;
                        if !readable(image, fn_ptr, 4) {
                            EntryRead::Failed(ExportTableError::Unreadable)
                        } else {
                            EntryRead::Read { name, ordinal, rva: u32_at(image, fn_ptr) }
                        }
                    }
                }
            },
        }
    }
}

/// An export, as a view.
pub struct ExportView {
    pub ordinal: u32,
    pub name: Seq<char>,
    pub address: int,
}

/// The view of an exported function.
pub open spec fn export_view(e: ExportedFunction) -> ExportView {
    ExportView { ordinal: e.ordinal, name: e.name@, address: e.address as int }
}

/// The first entry that could not be read, if any.
pub open spec fn first_failed(image: Seq<u8>, dir: ExportDirectory) -> Option<int> {
    if exists|i: int| 0 <= i < dir.number_of_names && #[trigger] export_entry(image, dir, i) is Failed {
        Some(choose|i: int| 0 <= i < dir.number_of_names && export_entry(image, dir, i) is Failed && forall|j: int|
            0 <= j < i ==> !(#[trigger] export_entry(image, dir, j) is Failed))
    } else {
        None
    }
}

/// The exports of the module whose memory from `load_address` on is `image`: one per exported
/// name, in the order of the names, with the ordinal made absolute (the directory's base, cut
/// to 16 bits, added) and the address made absolute. Else the error of the first name that
/// could not be read.
pub open spec fn module_exports(image: Seq<u8>, load_address: int) -> Result<Seq<ExportView>, ExportTableError> {
    match export_directory(image) {
        None => Err(ExportTableError::Unreadable),
        Some(dir) => match first_failed(image, dir) {
            Some(i) => Err(export_entry(image, dir, i)->Failed_0),
            None => Ok(
                Seq::new(
                    dir.number_of_names as nat,
                    |i: int| ExportView {
                        ordinal: (export_entry(image, dir, i)->Read_ordinal + dir.base % 0x10000) as u32,
                        name: decode_utf8(export_entry(image, dir, i)->Read_name),
                        address: load_address + export_entry(image, dir, i)->Read_rva,
                    },
                ),
            ),
        },
    }
}

/// What reading the table needs so that no address or ordinal overflows: the module lies low
/// enough that every address computed from it fits, the NT headers do not lie before the
/// module, and no exported ordinal plus the base passes 16 bits.
pub open spec fn export_arithmetic_fits(image: Seq<u8>, load_address: int) -> bool {
    &&& load_address + 0x8_0000_0000 <= usize::MAX
    &&& (readable(image, 0, DOS_HEADER_SIZE as int) ==> i32_at(image, E_LFANEW_OFFSET as int) >= 0)
    &&& (export_directory(image) matches Some(dir) ==> forall|i: int|
        0 <= i < dir.number_of_names ==> (#[trigger] export_entry(image, dir, i) matches EntryRead::Read { ordinal, .. }
            ==> ordinal + dir.base % 0x10000 < 0x10000))
}

/// The little-endian `u16` at `off`, if it lies in the image.
fn read_u16(image: &[u8], off: u64) -> (r: Option<u64>)
    ensures
        match r {
            Some(v) => readable(image@, off as int, 2) && v == u16_at(image@, off as int),
            None => !readable(image@, off as int, 2),
        },
{
    if off >= image.len() as u64 || image.len() as u64 - off < 2 {
        return None;
    }
    let o = off as usize;
    Some(image[o] as u64 + 256 * image[o + 1] as u64)
}

/// The little-endian `u32` at `off`, if it lies in the image.
fn read_u32(image: &[u8], off: u64) -> (r: Option<u64>)
    ensures
        match r {
            Some(v) => readable(image@, off as int, 4) && v == u32_at(image@, off as int) && v < 0x1_0000_0000,
            None => !readable(image@, off as int, 4),
        },
{
    if off >= image.len() as u64 || image.len() as u64 - off < 4 {
        return None;
    }
    let o = off as usize;
    Some(
        image[o] as u64 + 256 * image[o + 1] as u64 + 65536 * image[o + 2] as u64 + 16777216
            * image[o + 3] as u64,
    )
}

/// The export directory, if its headers lie in the image.
fn read_export_directory(image: &[u8]) -> (r: Option<(u64, u64, u64, u64, u64)>)
    requires
        readable(image@, 0, DOS_HEADER_SIZE as int) ==> i32_at(image@, E_LFANEW_OFFSET as int) >= 0,
    ensures
        match r {
            Some((base, n, functions, names, ordinals)) => export_directory(image@) == Some(
                ExportDirectory {
                    base: base as int,
                    number_of_names: n as int,
                    address_of_functions: functions as int,
                    address_of_names: names as int,
                    address_of_name_ordinals: ordinals as int,
                },
            ) && base < 0x1_0000_0000 && n < 0x1_0000_0000 && functions < 0x1_0000_0000 && names
                < 0x1_0000_0000 && ordinals < 0x1_0000_0000,
            None => export_directory(image@) is None,
        },
{
    if image.len() < DOS_HEADER_SIZE {
        return None;
    }
    let nt = match read_u32(image, E_LFANEW_OFFSET as u64) {
        Some(v) => v,
        None => return None,
    };
    if nt >= 0x8000_0000 {
        return None;
    }
    if nt >= image.len() as u64 || image.len() as u64 - nt < NT_HEADERS_SIZE as u64 {
        return None;
    }
    let dir = match read_u32(image, nt + EXPORT_RVA_OFFSET as u64) {
        Some(v) => v,
        None => return None,
    };
    if dir >= image.len() as u64 || image.len() as u64 - dir < EXPORT_DIRECTORY_SIZE as u64 {
        return None;
    }
    let base = read_u32(image, dir + 0x10).unwrap();
    let n = read_u32(image, dir + 0x18).unwrap();
    let functions = read_u32(image, dir + 0x1C).unwrap();
    let names = read_u32(image, dir + 0x20).unwrap();
    let ordinals = read_u32(image, dir + 0x24).unwrap();
    Some((base, n, functions, names, ordinals))
}

/// Where the nul-terminated string at `off` ends, if a nul follows it in the image.
fn find_nul(image: &[u8], off: u64) -> (r: Option<usize>)
    ensures
        match r {
            Some(k) => c_string_end(image@, off as int) == Some(k as int) && off <= k < image@.len(),
            None => c_string_end(image@, off as int) is None,
        },
{
    if off >= image.len() as u64 {
        return None;
    }
    let mut k: usize = off as usize;
    while k < image.len()
        invariant
            off <= k <= image@.len(),
            forall|j: int| off <= j < k ==> image@[j] != 0,
        decreases image.len() - k,
    {
        if image[k] == 0 {
            proof {
                let c = choose|c: int| off <= c < image@.len() && image@[c] == 0 && forall|j: int|
                    off <= j < c ==> image@[j] != 0;
                if c < k {
                } else if c > k {
                    assert(image@[k as int] == 0);
                }
            }
            return Some(k);
        }
        k = k + 1;
    }
    None
}

/// What is read for the exported name `i`.
fn read_entry(image: &[u8], functions: u64, names: u64, ordinals: u64, i: u64) -> (r: Result<(String, u64, u64), ExportTableError>)
    requires
        functions < 0x1_0000_0000,
        names < 0x1_0000_0000,
        ordinals < 0x1_0000_0000,
        i < 0x1_0000_0000,
    ensures
        ({
            let dir = ExportDirectory {
                base: 0,
                number_of_names: 0,
                address_of_functions: functions as int,
                address_of_names: names as int,
                address_of_name_ordinals: ordinals as int,
            };
            match r {
                Ok((name, ordinal, rva)) => export_entry(image@, dir, i as int) matches EntryRead::Read { name: n, ordinal: o, rva: a }
                    && name@ == decode_utf8(n) && ordinal == o && rva == a && ordinal < 0x10000,
                Err(e) => export_entry(image@, dir, i as int) == EntryRead::Failed(e),
            }
        }),
{
    let name_rva = match read_u32(image, names + 4 * i) {
        Some(v) => v,
        None => return Err(ExportTableError::Unreadable),
    };
    let end = match find_nul(image, name_rva) {
        Some(k) => k,
        None => return Err(ExportTableError::Unreadable),
    };
    let start = name_rva as usize;
    let mut bytes: Vec<u8> = Vec::new();
    let mut k: usize = start;
    while k < end
        invariant
            start <= k <= end <= image@.len(),
            bytes@ == image@.subrange(start as int, k as int),
        decreases end - k,
    {
        bytes.push(image[k]);
        k = k + 1;
        assert(bytes@ =~= image@.subrange(start as int, k as int));
    }
    let name = match string_from_utf8(bytes.as_slice()) {
        Ok(s) => s,
        Err(_) => return Err(ExportTableError::InvalidName),
    };
    let ordinal = match read_u16(image, ordinals + 2 * i) {
        Some(v) => v,
        None => return Err(ExportTableError::Unreadable),
    };
    let rva = match read_u32(image, functions + 4 * ordinal) {
        Some(v) => v,
        None => return Err(ExportTableError::Unreadable),
    };
    Ok((name, ordinal, rva))
}

/// The views of exported functions.
pub open spec fn exports_view(v: Seq<ExportedFunction>) -> Seq<ExportView> {
    v.map_values(|e: ExportedFunction| export_view(e))
}

/// The exports of the module loaded at `load_address`, read from `image`, the module's memory
/// from that address on (see `module_exports`).
pub fn get_exports_for_module(image: &[u8], load_address: usize) -> (r: Result<Vec<ExportedFunction>, ExportTableError>)
    requires
        export_arithmetic_fits(image@, load_address as int),
    ensures
        match r {
            Ok(v) => module_exports(image@, load_address as int) == Ok::<Seq<ExportView>, ExportTableError>(exports_view(v@)),
            Err(e) => module_exports(image@, load_address as int) == Err::<Seq<ExportView>, ExportTableError>(e),
        },
{
    let (base, n, functions, names, ordinals) = match read_export_directory(image) {
        Some(d) => d,
        None => return Err(ExportTableError::Unreadable),
    };
    let ghost dir = export_directory(image@)->0;
    let base16: u64 = base % 0x10000;
    let mut out: Vec<ExportedFunction> = Vec::new();
    let mut i: u64 = 0;
    while i < n
        invariant
            export_arithmetic_fits(image@, load_address as int),
            export_directory(image@) == Some(dir),
            dir.base == base && dir.number_of_names == n && dir.address_of_functions == functions
                && dir.address_of_names == names && dir.address_of_name_ordinals == ordinals,
            base16 == base % 0x10000,
            n < 0x1_0000_0000,
            functions < 0x1_0000_0000,
            names < 0x1_0000_0000,
            ordinals < 0x1_0000_0000,
            i <= n,
            out@.len() == i,
            forall|j: int| 0 <= j < i ==> #[trigger] export_entry(image@, dir, j) is Read,
            forall|j: int| 0 <= j < i ==> #[trigger] exports_view(out@)[j] == (ExportView {
                ordinal: (export_entry(image@, dir, j)->Read_ordinal + dir.base % 0x10000) as u32,
                name: decode_utf8(export_entry(image@, dir, j)->Read_name),
                address: load_address + export_entry(image@, dir, j)->Read_rva,
            }),
        decreases n - i,
    {
        let ghost partial = ExportDirectory {
            base: 0,
            number_of_names: 0,
            address_of_functions: functions as int,
            address_of_names: names as int,
            address_of_name_ordinals: ordinals as int,
        };
        assert(export_entry(image@, dir, i as int) == export_entry(image@, partial, i as int));
        match read_entry(image, functions, names, ordinals, i) {
            Ok((name, ordinal, rva)) => {
                assert(ordinal + base16 < 0x10000);
                let e = ExportedFunction {
                    ordinal: (ordinal + base16) as u32,
                    name,
                    address: load_address + rva as usize,
                };
                proof {
                    assert(exports_view(out@.push(e)) =~= exports_view(out@).push(export_view(e)));
                }
                out.push(e);
            },
            Err(err) => {
                proof {
                    assert(export_entry(image@, dir, i as int) is Failed);
                    let f = first_failed(image@, dir);
                    assert(f == Some(i as int)) by {
                        let c = choose|c: int| 0 <= c < dir.number_of_names && export_entry(image@, dir, c) is Failed && forall|j: int|
                            0 <= j < c ==> !(#[trigger] export_entry(image@, dir, j) is Failed);
                        if c < i {
                            assert(export_entry(image@, dir, c) is Read);
                        } else if c > i {
                            assert(!(export_entry(image@, dir, i as int) is Failed));
                        }
                    }
                }
                return Err(err);
            },
        }
        i = i + 1;
    }
    proof {
        assert(first_failed(image@, dir) is None) by {
            if exists|j: int| 0 <= j < dir.number_of_names && #[trigger] export_entry(image@, dir, j) is Failed {
                let j = choose|j: int| 0 <= j < dir.number_of_names && #[trigger] export_entry(image@, dir, j) is Failed;
                assert(export_entry(image@, dir, j) is Read);
            }
        }
        let spec_seq = Seq::new(
            dir.number_of_names as nat,
            |j: int| ExportView {
                ordinal: (export_entry(image@, dir, j)->Read_ordinal + dir.base % 0x10000) as u32,
                name: decode_utf8(export_entry(image@, dir, j)->Read_name),
                address: load_address + export_entry(image@, dir, j)->Read_rva,
            },
        );
        assert(exports_view(out@) =~= spec_seq);
    }
    Ok(out)
}

} // verus!
