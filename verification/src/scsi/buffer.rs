//! Building blocks of response buffers.

use crate::scsi::sense::ScsiSense;
use vstd::prelude::*;

verus! {

/// `n` bytes: those of `s` as far as they go, then zeros.
pub open spec fn fit(s: Seq<u8>, n: int) -> Seq<u8> {
    Seq::new(
        n as nat,
        |i: int|
            if i < s.len() {
                s[i]
            } else {
                0u8
            },
    )
}

/// `n` zero bytes.
pub open spec fn zeros(n: int) -> Seq<u8> {
    Seq::new(n as nat, |i: int| 0u8)
}

/// The outcome of an emulated command with its bytes as a sequence.
pub open spec fn outcome_of(got: Result<Vec<u8>, ScsiSense>) -> Result<Seq<u8>, ScsiSense> {
    match got {
        Ok(data) => Ok(data@),
        Err(sense) => Err(sense),
    }
}

/// Whether the outcome `got` of an emulated command is the outcome `want`.
pub open spec fn is_outcome(got: Result<Vec<u8>, ScsiSense>, want: Result<Seq<u8>, ScsiSense>) -> bool {
    outcome_of(got) == want
}

/// `n` bytes: those of `src` as far as they go, then zeros.
pub fn fit_bytes(src: &[u8], n: usize) -> (r: Vec<u8>)
    ensures
        r@ == fit(src@, n as int),
{
    let mut r: Vec<u8> = Vec::new();
    let mut i: usize = 0;
    while i < n
        invariant
            i <= n,
            r@.len() == i,
            forall|j: int|
                0 <= j < i ==> r@[j] == if j < src@.len() {
                    src@[j]
                } else {
                    0u8
                },
        decreases n - i,
    {
        if i < src.len() {
            r.push(src[i]);
        } else {
            r.push(0);
        }
        i = i + 1;
    }
    assert(r@ =~= fit(src@, n as int));
    r
}

/// Appends the bytes of `src` to `out`.
pub fn append_bytes(out: &mut Vec<u8>, src: &[u8])
    ensures
        final(out)@ == old(out)@ + src@,
{
    let mut i: usize = 0;
    while i < src.len()
        invariant
            i <= src@.len(),
            out@ == old(out)@ + src@.subrange(0, i as int),
        decreases src@.len() - i,
    {
        out.push(src[i]);
        i = i + 1;
        assert(out@ =~= old(out)@ + src@.subrange(0, i as int));
    }
    assert(src@.subrange(0, i as int) =~= src@);
}

/// Appends `n` zero bytes to `out`.
pub fn append_zeros(out: &mut Vec<u8>, n: usize)
    ensures
        final(out)@ == old(out)@ + zeros(n as int),
{
    let mut i: usize = 0;
    while i < n
        invariant
            i <= n,
            out@ == old(out)@ + zeros(i as int),
        decreases n - i,
    {
        out.push(0);
        i = i + 1;
        assert(out@ =~= old(out)@ + zeros(i as int));
    }
}

} // verus!
