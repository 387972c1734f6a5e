//! Little-endian composition and decomposition of values held in byte memories.

use vstd::prelude::*;

verus! {

/// 8 bits. 1 byte.
pub const BYTE: u8 = 8;
/// 16 bits. 2 bytes.
pub const HALFWORD: u8 = 16;
/// 32 bits. 4 bytes.
pub const WORD: u8 = 32;
/// 64 bits. 8 bytes.
pub const DOUBLEWORD: u8 = 64;

/// `size` is one of the access sizes a memory supports (8, 16, 32 or 64 bits).
pub open spec fn is_access_size(size: u8) -> bool {
    size == BYTE || size == HALFWORD || size == WORD || size == DOUBLEWORD
}

/// The number of bytes an access of `size` bits covers.
pub open spec fn size_bytes(size: u8) -> int {
    size as int / 8
}

/// Byte `k` (0 is the least significant) of `v`.
pub open spec fn byte_of(v: u64, k: u64) -> u8 {
    if k == 0 {
        (v & 0xff) as u8
    } else if k == 1 {
        ((v >> 8u64) & 0xff) as u8
    } else if k == 2 {
        ((v >> 16u64) & 0xff) as u8
    } else if k == 3 {
        ((v >> 24u64) & 0xff) as u8
    } else if k == 4 {
        ((v >> 32u64) & 0xff) as u8
    } else if k == 5 {
        ((v >> 40u64) & 0xff) as u8
    } else if k == 6 {
        ((v >> 48u64) & 0xff) as u8
    } else {
        ((v >> 56u64) & 0xff) as u8
    }
}

/// The 16-bit little-endian value stored in `s` at `i`.
pub open spec fn le16(s: Seq<u8>, i: int) -> u64 {
    (s[i] as u64) | ((s[i + 1] as u64) << 8)
}

/// The 32-bit little-endian value stored in `s` at `i`.
pub open spec fn le32(s: Seq<u8>, i: int) -> u64 {
    (s[i] as u64) | ((s[i + 1] as u64) << 8) | ((s[i + 2] as u64) << 16) | ((s[i + 3] as u64)
        << 24)
}

/// The 64-bit little-endian value stored in `s` at `i`.
pub open spec fn le64(s: Seq<u8>, i: int) -> u64 {
    (s[i] as u64) | ((s[i + 1] as u64) << 8) | ((s[i + 2] as u64) << 16) | ((s[i + 3] as u64)
        << 24) | ((s[i + 4] as u64) << 32) | ((s[i + 5] as u64) << 40) | ((s[i + 6] as u64) << 48)
        | ((s[i + 7] as u64) << 56)
}

/// The `size`-bit little-endian value stored in `s` at `i`.
pub open spec fn load_le(s: Seq<u8>, i: int, size: u8) -> u64 {
    if size == BYTE {
        s[i] as u64
    } else if size == HALFWORD {
        le16(s, i)
    } else if size == WORD {
        le32(s, i)
    } else {
        le64(s, i)
    }
}

/// `s` with the low `size` bits of `v` stored little-endian at `i`.
pub open spec fn store_le(s: Seq<u8>, i: int, v: u64, size: u8) -> Seq<u8> {
    if size == BYTE {
        s.update(i, v as u8)
    } else if size == HALFWORD {
        s.update(i, byte_of(v, 0)).update(i + 1, byte_of(v, 1))
    } else if size == WORD {
        s.update(i, byte_of(v, 0)).update(i + 1, byte_of(v, 1)).update(i + 2, byte_of(v, 2)).update(
            i + 3,
            byte_of(v, 3),
        )
    } else {
        s.update(i, byte_of(v, 0)).update(i + 1, byte_of(v, 1)).update(i + 2, byte_of(v, 2)).update(
            i + 3,
            byte_of(v, 3),
        ).update(i + 4, byte_of(v, 4)).update(i + 5, byte_of(v, 5)).update(i + 6, byte_of(v, 6)).update(
            i + 7,
            byte_of(v, 7),
        )
    }
}

/// The low `size` bits of `v`.
pub open spec fn truncate(v: u64, size: u8) -> u64 {
    if size == BYTE {
        v & 0xff
    } else if size == HALFWORD {
        v & 0xffff
    } else if size == WORD {
        v & 0xffff_ffff
    } else {
        v
    }
}

/// Reading back what was stored little-endian gives the stored value, truncated to the size of
/// the access; and a store leaves every other byte and the length alone.
pub proof fn lemma_load_store(s: Seq<u8>, i: int, v: u64, size: u8)
    requires
        is_access_size(size),
        0 <= i,
        i + size_bytes(size) <= s.len(),
    ensures
        load_le(store_le(s, i, v, size), i, size) == truncate(v, size),
        store_le(s, i, v, size).len() == s.len(),
        forall|j: int|
            0 <= j < s.len() && !(i <= j < i + size_bytes(size)) ==> #[trigger] store_le(
                s,
                i,
                v,
                size,
            )[j] == s[j],
{
    let t = store_le(s, i, v, size);
    assert({
        &&& (v as u8) as u64 == v & 0xff
        &&& (((v & 0xff) as u8) as u64) | (((((v >> 8) & 0xff) as u8) as u64) << 8) == v & 0xffff
        &&& (((v & 0xff) as u8) as u64) | (((((v >> 8) & 0xff) as u8) as u64) << 8) | ((
        (((v >> 16) & 0xff) as u8) as u64) << 16) | (((((v >> 24) & 0xff) as u8) as u64) << 24)
            == v & 0xffff_ffff
        &&& (((v & 0xff) as u8) as u64) | (((((v >> 8) & 0xff) as u8) as u64) << 8) | ((
        (((v >> 16) & 0xff) as u8) as u64) << 16) | (((((v >> 24) & 0xff) as u8) as u64) << 24) | ((
        (((v >> 32) & 0xff) as u8) as u64) << 32) | (((((v >> 40) & 0xff) as u8) as u64) << 40) | ((
        (((v >> 48) & 0xff) as u8) as u64) << 48) | (((((v >> 56) & 0xff) as u8) as u64) << 56)
            == v
    }) by (bit_vector);
    if size == HALFWORD {
        assert(t[i] == byte_of(v, 0) && t[i + 1] == byte_of(v, 1));
    } else if size == WORD {
        assert(t[i] == byte_of(v, 0) && t[i + 1] == byte_of(v, 1) && t[i + 2] == byte_of(v, 2)
            && t[i + 3] == byte_of(v, 3));
    } else if size == DOUBLEWORD {
        assert(t[i] == byte_of(v, 0) && t[i + 1] == byte_of(v, 1) && t[i + 2] == byte_of(v, 2)
            && t[i + 3] == byte_of(v, 3) && t[i + 4] == byte_of(v, 4) && t[i + 5] == byte_of(v, 5)
            && t[i + 6] == byte_of(v, 6) && t[i + 7] == byte_of(v, 7));
    }
}

/// A load depends only on the bytes it reads.
pub proof fn lemma_load_same_bytes(s: Seq<u8>, t: Seq<u8>, i: int, size: u8)
    requires
        is_access_size(size),
        0 <= i,
        i + size_bytes(size) <= s.len(),
        i + size_bytes(size) <= t.len(),
        forall|j: int| i <= j < i + size_bytes(size) ==> s[j] == t[j],
    ensures
        load_le(s, i, size) == load_le(t, i, size),
{
    assert(s[i] == t[i]);
    if size != BYTE {
        assert(s[i + 1] == t[i + 1]);
    }
    if size == WORD || size == DOUBLEWORD {
        assert(s[i + 2] == t[i + 2]);
        assert(s[i + 3] == t[i + 3]);
    }
    if size == DOUBLEWORD {
        assert(s[i + 4] == t[i + 4]);
        assert(s[i + 5] == t[i + 5]);
        assert(s[i + 6] == t[i + 6]);
        assert(s[i + 7] == t[i + 7]);
    }
}

/// A little-endian store: its offset, its value and its size in bits.
pub type Store = (int, u64, u8);

/// `s` after the stores `ws`, in order.
pub open spec fn store_all(s: Seq<u8>, ws: Seq<Store>) -> Seq<u8>
    decreases ws.len(),
{
    if ws.len() == 0 {
        s
    } else {
        store_all(store_le(s, ws[0].0, ws[0].1, ws[0].2), ws.drop_first())
    }
}

/// A store that fits in `len` bytes and writes none of the bytes `lo..hi`.
pub open spec fn store_avoids(w: Store, len: int, lo: int, hi: int) -> bool {
    &&& is_access_size(w.2)
    &&& 0 <= w.0
    &&& w.0 + size_bytes(w.2) <= len
    &&& (w.0 + size_bytes(w.2) <= lo || hi <= w.0)
}

/// Stores that avoid the bytes `lo..hi` keep them, and the length.
pub proof fn lemma_store_all_keeps(s: Seq<u8>, ws: Seq<Store>, lo: int, hi: int)
    requires
        forall|k: int| 0 <= k < ws.len() ==> store_avoids(#[trigger] ws[k], s.len() as int, lo, hi),
    ensures
        store_all(s, ws).len() == s.len(),
        forall|j: int| lo <= j < hi && 0 <= j < s.len() ==> store_all(s, ws)[j] == s[j],
    decreases ws.len(),
{
    if ws.len() > 0 {
        let w = ws[0];
        assert(store_avoids(w, s.len() as int, lo, hi));
        lemma_load_store(s, w.0, w.1, w.2);
        let s1 = store_le(s, w.0, w.1, w.2);
        let rest = ws.drop_first();
        assert forall|k: int| 0 <= k < rest.len() implies store_avoids(
            #[trigger] rest[k],
            s1.len() as int,
            lo,
            hi,
        ) by {
            assert(rest[k] == ws[k + 1]);
        }
        lemma_store_all_keeps(s1, rest, lo, hi);
        assert(store_all(s, ws) == store_all(s1, rest));
        assert forall|j: int| lo <= j < hi && 0 <= j < s.len() implies store_all(s, ws)[j]
            == s[j] by {
            assert(!(w.0 <= j < w.0 + size_bytes(w.2)));
            assert(s1[j] == s[j]);
        }
    }
}

} // verus!
