//! Starting with Windows: the command stored in the per-user Run key and
//! how the registry's answers are read. The registry itself is the host
//! program's business.

use vstd::prelude::*;

verus! {

/// The quote character as a UTF-16 code unit.
pub const QUOTE: u16 = 0x22;

/// The capacity of the buffer the executable path is read into; a path
/// that fills it may have been cut short.
pub const EXE_PATH_CAPACITY: usize = 2048;

/// The executable path wrapped in double quotes and zero-terminated, so
/// that a path with spaces starts as one program; nothing when the path
/// is empty or filled the whole buffer.
pub open spec fn quoted_command(path: Seq<u16>, capacity: nat) -> Option<Seq<u16>> {
    if path.len() == 0 || path.len() >= capacity {
        None
    } else {
        Some(seq![QUOTE] + path + seq![QUOTE, 0u16])
    }
}

/// Quote the executable path read into a buffer of `capacity` units.
pub fn quoted_exe_path(path: &[u16], capacity: usize) -> (r: Option<Vec<u16>>)
    ensures
        match r {
            Some(v) => quoted_command(path@, capacity as nat) == Some(v@),
            None => quoted_command(path@, capacity as nat) is None,
        },
{
    if path.len() == 0 || path.len() >= capacity {
        return None;
    }
    let mut out: Vec<u16> = Vec::new();
    out.push(QUOTE);
    let mut i: usize = 0;
    while i < path.len()
        invariant
            i <= path@.len(),
            out@ == seq![QUOTE] + path@.subrange(0, i as int),
        decreases path@.len() - i,
    {
        out.push(path[i]);
        i = i + 1;
        assert(out@ =~= seq![QUOTE] + path@.subrange(0, i as int));
    }
    out.push(QUOTE);
    out.push(0u16);
    assert(path@.subrange(0, path@.len() as int) =~= path@);
    assert(out@ =~= seq![QUOTE] + path@ + seq![QUOTE, 0u16]);
    Some(out)
}

/// Registry status codes.
pub const ERROR_SUCCESS: u32 = 0;
pub const ERROR_FILE_NOT_FOUND: u32 = 2;

/// Whether writing (or removing) the Run entry succeeded: removing an
/// entry that is not there counts as success, so the toggle can be
/// repeated.
pub fn set_enabled_succeeded(enabled: bool, status: u32) -> (ok: bool)
    ensures
        ok == (status == ERROR_SUCCESS || (!enabled && status == ERROR_FILE_NOT_FOUND)),
{
    status == ERROR_SUCCESS || (!enabled && status == ERROR_FILE_NOT_FOUND)
}

/// Whether autostart is on: the Run key opened and the value was found.
pub fn is_enabled_from(open_status: u32, query_status: u32) -> (on: bool)
    ensures
        on == (open_status == ERROR_SUCCESS && query_status == ERROR_SUCCESS),
{
    open_status == ERROR_SUCCESS && query_status == ERROR_SUCCESS
}

} // verus!
