//! Names of the files that hold captured regions.
use vstd::prelude::*;

verus! {

/// The ASCII character of a digit below 16 (lower-case letters above 9).
pub open spec fn digit_char(d: nat) -> u8 {
    if d < 10 {
        (48 + d) as u8
    } else {
        (87 + d) as u8
    }
}

/// The hexadecimal digits of `n`, most significant first, without leading
/// zeros (zero itself is one digit).
pub open spec fn hex_digits(n: nat) -> Seq<u8>
    decreases n,
{
    if n < 16 {
        seq![digit_char(n)]
    } else {
        hex_digits(n / 16).push(digit_char(n % 16))
    }
}

/// The decimal digits of `n`, most significant first, without leading
/// zeros (zero itself is one digit).
pub open spec fn dec_digits(n: nat) -> Seq<u8>
    decreases n,
{
    if n < 10 {
        seq![digit_char(n)]
    } else {
        dec_digits(n / 10).push(digit_char(n % 10))
    }
}

/// The digits of `n` in base 16, or else in base 10.
pub open spec fn digits(n: nat, radix: nat) -> Seq<u8> {
    if radix == 16 {
        hex_digits(n)
    } else {
        dec_digits(n)
    }
}

/// The name of the file holding the region at `base` of `size` bytes:
/// `dump_<base in hex>_<size in decimal>.bin`.
pub open spec fn dump_name(base: u64, size: u64) -> Seq<u8> {
    seq![100u8, 117u8, 109u8, 112u8, 95u8] + digits(base as nat, 16) + seq![95u8] + digits(
        size as nat,
        10,
    ) + seq![46u8, 98u8, 105u8, 110u8]
}

fn digit(d: u64) -> (r: u8)
    requires
        d < 16,
    ensures
        r == digit_char(d as nat),
{
    if d < 10 {
        (48 + d) as u8
    } else {
        (87 + d) as u8
    }
}

fn push_digits(out: &mut Vec<u8>, n: u64, radix: u64)
    requires
        radix == 10 || radix == 16,
    ensures
        final(out)@ == old(out)@ + digits(n as nat, radix as nat),
{
    let mut acc: Vec<u8> = Vec::new();
    let mut q: u64 = n;
    while q >= radix
        invariant
            radix == 10 || radix == 16,
            digits(n as nat, radix as nat) == digits(q as nat, radix as nat) + acc@,
        decreases q,
    {
        let d = digit(q % radix);
        let ghost before = acc@;
        acc.insert(0, d);
        proof {
            assert(digits(q as nat, radix as nat) == digits((q / radix) as nat, radix as nat).push(d));
            assert(digits((q / radix) as nat, radix as nat).push(d) + before =~= digits(
                (q / radix) as nat,
                radix as nat,
            ) + acc@);
        }
        q = q / radix;
    }
    let d = digit(q);
    let ghost before = acc@;
    acc.insert(0, d);
    proof {
        assert(digits(q as nat, radix as nat) == seq![d]);
        assert(seq![d] + before =~= acc@);
    }
    let mut i: usize = 0;
    let ghost start = out@;
    while i < acc.len()
        invariant
            0 <= i <= acc@.len(),
            out@ == start + acc@.subrange(0, i as int),
        decreases acc.len() - i,
    {
        out.push(acc[i]);
        i += 1;
        proof {
            assert(acc@.subrange(0, i as int) =~= acc@.subrange(0, i - 1).push(acc@[i - 1]));
        }
    }
    proof {
        assert(acc@.subrange(0, i as int) =~= acc@);
    }
}

/// The name of the file that holds the region at `base` of `size` bytes,
/// as ASCII bytes: `dump_<base in hex>_<size in decimal>.bin`.
pub fn dump_file_name(base: u64, size: u64) -> (r: Vec<u8>)
    ensures
        r@ == dump_name(base, size),
{
    let mut out: Vec<u8> = vec![100u8, 117u8, 109u8, 112u8, 95u8];
    push_digits(&mut out, base, 16);
    out.push(95u8);
    push_digits(&mut out, size, 10);
    out.push(46u8);
    out.push(98u8);
    out.push(105u8);
    out.push(110u8);
    proof {
        assert(out@ =~= dump_name(base, size));
    }
    out
}

} // verus!
