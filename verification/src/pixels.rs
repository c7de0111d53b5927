//! Pixel-buffer helpers: the red/blue channel swizzle that converts between
//! the UI renderer's byte order and the overlay texture's byte order.

use vstd::prelude::*;

verus! {

/// The buffer with byte 0 and byte 2 of every 4-byte pixel group exchanged.
pub open spec fn chan_swapped(s: Seq<u8>) -> Seq<u8> {
    Seq::new(
        s.len(),
        |i: int|
            if i % 4 == 0 {
                s[i + 2]
            } else if i % 4 == 2 {
                s[i - 2]
            } else {
                s[i]
            },
    )
}

/// Exchanging the two channels twice gives back the original buffer.
pub proof fn lemma_chan_swap_involution(s: Seq<u8>)
    requires
        s.len() % 4 == 0,
    ensures
        chan_swapped(chan_swapped(s)) == s,
{
    let t = chan_swapped(chan_swapped(s));
    assert forall|i: int| 0 <= i < s.len() implies t[i] == s[i] by {
        if i % 4 == 0 {
            assert(i + 2 < s.len());
            assert((i + 2) % 4 == 2);
        } else if i % 4 == 2 {
            assert((i - 2) % 4 == 0);
        }
    }
    assert(t =~= s);
}

/// Copy a byte buffer (the render callback may not keep the buffer it is
/// handed, so it works on a copy).
pub fn copy_bytes(data: &Vec<u8>) -> (out: Vec<u8>)
    ensures
        out@ == data@,
{
    let n = data.len();
    let mut out: Vec<u8> = Vec::new();
    let mut i: usize = 0;
    while i < n
        invariant
            i <= n,
            n == data@.len(),
            out@.len() == i,
            forall|j: int| 0 <= j < i ==> out@[j] == data@[j],
        decreases n - i,
    {
        out.push(data[i]);
        i = i + 1;
    }
    assert(out@ =~= data@);
    out
}

/// Exchange byte 0 and byte 2 of every 4-byte pixel group in place.
pub fn swap_red_blue(data: &mut Vec<u8>)
    requires
        old(data)@.len() % 4 == 0,
    ensures
        final(data)@ == chan_swapped(old(data)@),
{
    let ghost orig = data@;
    let n = data.len();
    let mut i: usize = 0;
    while i < n
        invariant
            n == orig.len(),
            n % 4 == 0,
            i % 4 == 0,
            i <= n,
            data@.len() == n,
            forall|j: int| 0 <= j < i ==> data@[j] == chan_swapped(orig)[j],
            forall|j: int| i <= j < n ==> data@[j] == orig[j],
        decreases n - i,
    {
        assert(i + 4 <= n);
        let a = data[i];
        let b = data[i + 2];
        data[i] = b;
        data[i + 2] = a;
        i = i + 4;
    }
    assert(data@ =~= chan_swapped(orig));
}

} // verus!
