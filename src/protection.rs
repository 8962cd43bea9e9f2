//! Page protections, and the rewrite that makes fresh executable memory
//! fault on its first execution.
use vstd::prelude::*;

verus! {

/// No access.
pub const PAGE_NOACCESS: u32 = 0x01;
/// Read only.
pub const PAGE_READONLY: u32 = 0x02;
/// Read and write.
pub const PAGE_READWRITE: u32 = 0x04;
/// Read and copy-on-write.
pub const PAGE_WRITECOPY: u32 = 0x08;
/// Execute only.
pub const PAGE_EXECUTE: u32 = 0x10;
/// Execute and read.
pub const PAGE_EXECUTE_READ: u32 = 0x20;
/// Execute, read and write.
pub const PAGE_EXECUTE_READWRITE: u32 = 0x40;
/// Execute, read and copy-on-write.
pub const PAGE_EXECUTE_WRITECOPY: u32 = 0x80;
/// The low byte of a protection value holds its access kind; the bits above
/// it are modifiers (guard, no-cache, write-combine).
pub const ACCESS_MASK: u32 = 0xff;

/// The access kind of a protection value.
pub open spec fn access(p: u32) -> u32 {
    p & ACCESS_MASK
}

/// The modifier bits of a protection value.
pub open spec fn modifiers(p: u32) -> u32 {
    p & !ACCESS_MASK
}

/// Whether a protection lets the region be written.
pub open spec fn is_writable(p: u32) -> bool {
    let a = access(p);
    a == PAGE_READWRITE || a == PAGE_WRITECOPY || a == PAGE_EXECUTE_READWRITE || a
        == PAGE_EXECUTE_WRITECOPY
}

/// Whether a protection lets the region be executed.
pub open spec fn is_executable(p: u32) -> bool {
    let a = access(p);
    a == PAGE_EXECUTE || a == PAGE_EXECUTE_READ || a == PAGE_EXECUTE_READWRITE || a
        == PAGE_EXECUTE_WRITECOPY
}

/// The same protection with execution taken away: execute-read-write
/// becomes read-write, execute-write-copy becomes write-copy, modifiers stay.
pub open spec fn without_execute(p: u32) -> u32 {
    if access(p) == PAGE_EXECUTE_READWRITE {
        modifiers(p) | PAGE_READWRITE
    } else {
        modifiers(p) | PAGE_WRITECOPY
    }
}

/// The rewrite applied to a requested protection: only a request for
/// memory both writable and executable is changed.
pub open spec fn flip_spec(p: u32) -> Option<u32> {
    if is_writable(p) && is_executable(p) {
        Some(without_execute(p))
    } else {
        None
    }
}

/// The protection to request instead of `p`, or `None` when `p` is kept.
pub fn flip_protection(p: u32) -> (r: Option<u32>)
    ensures
        r == flip_spec(p),
{
    let a = p & ACCESS_MASK;
    if a == PAGE_EXECUTE_READWRITE {
        Some((p & !ACCESS_MASK) | PAGE_READWRITE)
    } else if a == PAGE_EXECUTE_WRITECOPY {
        Some((p & !ACCESS_MASK) | PAGE_WRITECOPY)
    } else {
        None
    }
}

/// A request for writable and executable memory is rewritten to one that
/// is writable and not executable, with the same modifiers.
pub proof fn lemma_flip_clears_execute(p: u32)
    requires
        is_writable(p),
        is_executable(p),
    ensures
        flip_spec(p) == Some(without_execute(p)),
        is_writable(without_execute(p)),
        !is_executable(without_execute(p)),
        modifiers(without_execute(p)) == modifiers(p),
{
    let m = p & !0xffu32;
    assert((m | 4u32) & 0xffu32 == 4u32 && (m | 4u32) & !0xffu32 == m) by (bit_vector)
        requires
            m == p & !0xffu32,
    ;
    assert((m | 8u32) & 0xffu32 == 8u32 && (m | 8u32) & !0xffu32 == m) by (bit_vector)
        requires
            m == p & !0xffu32,
    ;
}

/// A request that is not both writable and executable is left alone.
pub proof fn lemma_flip_keeps_other(p: u32)
    requires
        !(is_writable(p) && is_executable(p)),
    ensures
        flip_spec(p) is None,
{
}

} // verus!
