//! Checks on what a read of the target's memory returned.
use vstd::prelude::*;

verus! {

/// A read returned fewer bytes than were asked for.
#[derive(Clone, Copy, Debug, PartialEq, Eq, Structural)]
pub struct ShortRead {
    /// Bytes asked for.
    pub expected: usize,
    /// Bytes read.
    pub read: usize,
}

/// A string read returned no characters, not even its terminator.
#[derive(Clone, Copy, Debug, PartialEq, Eq, Structural)]
pub struct EmptyString;

/// Accept a read only when it filled the whole buffer.
pub fn expect_exact_read(expected: usize, read: usize) -> (r: Result<(), ShortRead>)
    ensures
        r == (if read == expected {
            Ok::<(), ShortRead>(())
        } else {
            Err(ShortRead { expected, read })
        }),
{
    if read != expected {
        Err(ShortRead { expected, read })
    } else {
        Ok(())
    }
}

/// The bytes of `s` resized to `n`: cut, or padded with zeros.
pub open spec fn resized(s: Seq<u8>, n: nat) -> Seq<u8> {
    if n <= s.len() {
        s.subrange(0, n as int)
    } else {
        s + Seq::new((n - s.len()) as nat, |i: int| 0u8)
    }
}

/// The string's bytes out of a buffer that a string read filled, given the
/// length it reported, terminator included: the first `length - 1` bytes
/// (zero bytes past the buffer's end); an error for a length of zero.
pub fn terminated_string_bytes(buffer: Vec<u8>, length: u32) -> (r: Result<Vec<u8>, EmptyString>)
    ensures
        length == 0 ==> r == Err::<Vec<u8>, EmptyString>(EmptyString),
        length > 0 ==> (r matches Ok(v) && v@ == resized(buffer@, (length - 1) as nat)),
{
    if length == 0 {
        return Err(EmptyString);
    }
    let n = (length - 1) as usize;
    let mut out: Vec<u8> = Vec::new();
    let mut i: usize = 0;
    while i < n
        invariant
            n == length - 1,
            0 <= i <= n,
            out@ =~= resized(buffer@, n as nat).subrange(0, i as int),
        decreases n - i,
    {
        if i < buffer.len() {
            out.push(buffer[i]);
        } else {
            out.push(0u8);
        }
        i += 1;
    }
    proof {
        assert(resized(buffer@, n as nat).subrange(0, n as int) =~= resized(buffer@, n as nat));
    }
    Ok(out)
}

} // verus!
