//! Decoding the nul-terminated UTF-16 names that the Windows tool-help snapshots give.

use vstd::prelude::*;

verus! {

/// Whether `u` is a leading (high) surrogate code unit.
pub open spec fn is_high_surrogate(u: u16) -> bool {
    0xD800 <= u <= 0xDBFF
}

/// Whether `u` is a trailing (low) surrogate code unit.
pub open spec fn is_low_surrogate(u: u16) -> bool {
    0xDC00 <= u <= 0xDFFF
}

/// The text that the UTF-16 code units encode, or `None` when they hold an unpaired
/// surrogate: what `String::from_utf16` gives.
pub open spec fn utf16_decode(units: Seq<u16>) -> Option<Seq<char>>
    decreases units.len(),
{
    if units.len() == 0 {
        Some(Seq::empty())
    } else if is_low_surrogate(units[0]) {
        None
    } else if is_high_surrogate(units[0]) {
        if units.len() >= 2 && is_low_surrogate(units[1]) {
            match utf16_decode(units.skip(2)) {
                Some(rest) => Some(
                    seq![(0x10000 + (units[0] - 0xD800) * 0x400 + (units[1] - 0xDC00)) as char]
                        + rest,
                ),
                None => None,
            }
        } else {
            None
        }
    } else {
        match utf16_decode(units.drop_first()) {
            Some(rest) => Some(seq![units[0] as char] + rest),
            None => None,
        }
    }
}

/// `String::from_utf16`: decodes UTF-16 code units, failing on an unpaired surrogate.
#[verifier::external_body]
fn from_utf16(units: &[u16]) -> (r: Option<String>)
    ensures
        match r {
            Some(s) => utf16_decode(units@) == Some(s@),
            None => utf16_decode(units@) is None,
        },
{
    String::from_utf16(units).ok()
}

/// The number of code units before the first nul, or all of them when there is none.
pub open spec fn nul_terminated_len(units: Seq<u16>) -> int {
    if exists|i: int| 0 <= i < units.len() && units[i] == 0 {
        choose|i: int| 0 <= i < units.len() && units[i] == 0 && forall|j: int| 0 <= j < i ==> units[j] != 0
    } else {
        units.len() as int
    }
}

/// The code units before the first nul.
fn nul_terminated(units: &[u16]) -> (r: Vec<u16>)
    ensures
        r@ == units@.take(nul_terminated_len(units@)),
{
    let mut r: Vec<u16> = Vec::new();
    let mut i: usize = 0;
    while i < units.len() && units[i] != 0
        invariant
            i <= units.len(),
            forall|j: int| 0 <= j < i ==> units@[j] != 0,
            r@ == units@.take(i as int),
        decreases units.len() - i,
    {
        r.push(units[i]);
        i = i + 1;
        assert(r@ =~= units@.take(i as int));
    }
    proof {
        if i < units.len() {
            let k = choose|k: int|
                0 <= k < units@.len() && units@[k] == 0 && forall|j: int| 0 <= j < k ==> units@[j] != 0;
            assert(k == i as int) by {
                if k > i {
                    assert(units@[i as int] == 0);
                }
            }
        }
    }
    r
}

/// The name in a nul-terminated UTF-16 buffer, or `None` when it is not valid UTF-16.
pub fn try_decode_name(raw: &[u16]) -> (r: Option<String>)
    ensures
        match r {
            Some(s) => utf16_decode(raw@.take(nul_terminated_len(raw@))) == Some(s@),
            None => utf16_decode(raw@.take(nul_terminated_len(raw@))) is None,
        },
{
    let units = nul_terminated(raw);
    from_utf16(units.as_slice())
}

/// The executable name of a process entry (`PROCESSENTRY32W::szExeFile`).
pub fn get_process_name(process_name_raw: &[u16]) -> (r: String)
    requires
        utf16_decode(process_name_raw@.take(nul_terminated_len(process_name_raw@))) is Some,
    ensures
        utf16_decode(process_name_raw@.take(nul_terminated_len(process_name_raw@))) == Some(r@),
{
    match try_decode_name(process_name_raw) {
        Some(s) => s,
        None => {
            proof {
                assert(false);
            }
            String::new()
        },
    }
}

/// The module name of a module entry (`MODULEENTRY32W::szModule`).
pub fn get_module_name(raw_module_name: &[u16]) -> (r: String)
    requires
        utf16_decode(raw_module_name@.take(nul_terminated_len(raw_module_name@))) is Some,
    ensures
        utf16_decode(raw_module_name@.take(nul_terminated_len(raw_module_name@))) == Some(r@),
{
    match try_decode_name(raw_module_name) {
        Some(s) => s,
        None => {
            proof {
                assert(false);
            }
            String::new()
        },
    }
}

} // verus!
