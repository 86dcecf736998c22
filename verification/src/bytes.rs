//! Little-endian encoding of 32-bit words into the byte streams that GPU
//! buffers are created from.

use vstd::prelude::*;

verus! {

/// The four little-endian bytes of one word.
pub open spec fn le_bytes_of(w: u32) -> Seq<u8> {
    seq![
        (w & 0xff) as u8,
        ((w >> 8) & 0xff) as u8,
        ((w >> 16) & 0xff) as u8,
        ((w >> 24) & 0xff) as u8,
    ]
}

/// All words encoded back to back, little endian, four bytes each.
pub open spec fn words_to_bytes(ws: Seq<u32>) -> Seq<u8> {
    Seq::new((ws.len() * 4) as nat, |i: int| le_bytes_of(ws[i / 4])[i % 4])
}

proof fn lemma_masked_byte(w: u32)
    ensures
        w & 0xff < 256,
        (w >> 8) & 0xff < 256,
        (w >> 16) & 0xff < 256,
        (w >> 24) & 0xff < 256,
{
    assert(w & 0xff < 256 && (w >> 8) & 0xff < 256 && (w >> 16) & 0xff < 256 && (w >> 24) & 0xff
        < 256) by (bit_vector);
}

/// Encodes every word to its four little-endian bytes, in order.
pub fn encode_words_le(ws: &Vec<u32>) -> (b: Vec<u8>)
    ensures
        b@ == words_to_bytes(ws@),
{
    let mut b: Vec<u8> = Vec::new();
    let mut k: usize = 0;
    while k < ws.len()
        invariant
            0 <= k <= ws@.len(),
            b@.len() == 4 * k,
            forall|i: int| 0 <= i < b@.len() ==> b@[i] == #[trigger] words_to_bytes(ws@)[i],
        decreases ws@.len() - k,
    {
        let w = ws[k];
        proof {
            lemma_masked_byte(w);
        }
        b.push((w & 0xff) as u8);
        b.push(((w >> 8) & 0xff) as u8);
        b.push(((w >> 16) & 0xff) as u8);
        b.push(((w >> 24) & 0xff) as u8);
        proof {
            assert forall|i: int| 4 * k <= i < 4 * k + 4 implies b@[i] == words_to_bytes(ws@)[i] by {
                assert(i / 4 == k as int && i % 4 == i - 4 * (k as int));
            };
        }
        k = k + 1;
    }
    assert(b@ =~= words_to_bytes(ws@));
    b
}

/// An owned copy of a byte slice.
pub fn copy_bytes(src: &[u8]) -> (v: Vec<u8>)
    ensures
        v@ == src@,
{
    let mut v: Vec<u8> = Vec::new();
    let mut i: usize = 0;
    while i < src.len()
        invariant
            0 <= i <= src@.len(),
            v@ == src@.take(i as int),
        decreases src@.len() - i,
    {
        v.push(src[i]);
        proof {
            assert(v@ =~= src@.take(i + 1));
        }
        i = i + 1;
    }
    proof {
        assert(src@.take(src@.len() as int) =~= src@);
    }
    v
}

} // verus!
