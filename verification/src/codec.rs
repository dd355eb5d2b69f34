//! Little-endian field codecs shared by every record type: reading and
//! writing fixed-width integers and byte arrays at explicit offsets, and the
//! "text up to the first NUL byte" rule for fixed-width character fields.

use vstd::bytes::*;
use vstd::prelude::*;
use vstd::slice::{slice_index_get, slice_subrange, slice_to_vec};

verus! {

/// The little-endian byte serialization of an `i16`, through its bit pattern.
pub open spec fn spec_i16_to_le_bytes(x: i16) -> Seq<u8> {
    spec_u16_to_le_bytes(x as u16)
}

/// The `i16` whose bit pattern the little-endian bytes `s` hold.
pub open spec fn spec_i16_from_le_bytes(s: Seq<u8>) -> i16 {
    spec_u16_from_le_bytes(s) as i16
}

/// The little-endian byte serialization of an `i32`, through its bit pattern.
pub open spec fn spec_i32_to_le_bytes(x: i32) -> Seq<u8> {
    spec_u32_to_le_bytes(x as u32)
}

/// The `i32` whose bit pattern the little-endian bytes `s` hold.
pub open spec fn spec_i32_from_le_bytes(s: Seq<u8>) -> i32 {
    spec_u32_from_le_bytes(s) as i32
}

/// The little-endian byte serialization of an `i64`, through its bit pattern.
pub open spec fn spec_i64_to_le_bytes(x: i64) -> Seq<u8> {
    spec_u64_to_le_bytes(x as u64)
}

/// The `i64` whose bit pattern the little-endian bytes `s` hold.
pub open spec fn spec_i64_from_le_bytes(s: Seq<u8>) -> i64 {
    spec_u64_from_le_bytes(s) as i64
}

/// Serializing an `i16` and reading the bytes back are mutually inverse.
pub proof fn lemma_auto_spec_i16_to_from_le_bytes()
    ensures
        forall|x: i16|
            {
                &&& #[trigger] spec_i16_to_le_bytes(x).len() == 2
                &&& spec_i16_from_le_bytes(spec_i16_to_le_bytes(x)) == x
            },
        forall|s: Seq<u8>|
            s.len() == 2 ==> #[trigger] spec_i16_to_le_bytes(spec_i16_from_le_bytes(s)) == s,
{
    lemma_auto_spec_u16_to_from_le_bytes();
    assert forall|x: i16|
        {
            &&& #[trigger] spec_i16_to_le_bytes(x).len() == 2
            &&& spec_i16_from_le_bytes(spec_i16_to_le_bytes(x)) == x
        } by {
        let s = spec_u16_to_le_bytes(x as u16);
        assert(s.len() == 2 && spec_u16_from_le_bytes(s) == x as u16);
        assert((x as u16) as i16 == x) by (bit_vector);
    }
    assert forall|s: Seq<u8>| s.len() == 2 implies #[trigger] spec_i16_to_le_bytes(
        spec_i16_from_le_bytes(s),
    ) == s by {
        let y = spec_u16_from_le_bytes(s);
        assert((y as i16) as u16 == y) by (bit_vector);
    }
}

/// Serializing an `i32` and reading the bytes back are mutually inverse.
pub proof fn lemma_auto_spec_i32_to_from_le_bytes()
    ensures
        forall|x: i32|
            {
                &&& #[trigger] spec_i32_to_le_bytes(x).len() == 4
                &&& spec_i32_from_le_bytes(spec_i32_to_le_bytes(x)) == x
            },
        forall|s: Seq<u8>|
            s.len() == 4 ==> #[trigger] spec_i32_to_le_bytes(spec_i32_from_le_bytes(s)) == s,
{
    lemma_auto_spec_u32_to_from_le_bytes();
    assert forall|x: i32|
        {
            &&& #[trigger] spec_i32_to_le_bytes(x).len() == 4
            &&& spec_i32_from_le_bytes(spec_i32_to_le_bytes(x)) == x
        } by {
        let s = spec_u32_to_le_bytes(x as u32);
        assert(s.len() == 4 && spec_u32_from_le_bytes(s) == x as u32);
        assert((x as u32) as i32 == x) by (bit_vector);
    }
    assert forall|s: Seq<u8>| s.len() == 4 implies #[trigger] spec_i32_to_le_bytes(
        spec_i32_from_le_bytes(s),
    ) == s by {
        let y = spec_u32_from_le_bytes(s);
        assert((y as i32) as u32 == y) by (bit_vector);
    }
}

/// Serializing an `i64` and reading the bytes back are mutually inverse.
pub proof fn lemma_auto_spec_i64_to_from_le_bytes()
    ensures
        forall|x: i64|
            {
                &&& #[trigger] spec_i64_to_le_bytes(x).len() == 8
                &&& spec_i64_from_le_bytes(spec_i64_to_le_bytes(x)) == x
            },
        forall|s: Seq<u8>|
            s.len() == 8 ==> #[trigger] spec_i64_to_le_bytes(spec_i64_from_le_bytes(s)) == s,
{
    lemma_auto_spec_u64_to_from_le_bytes();
    assert forall|x: i64|
        {
            &&& #[trigger] spec_i64_to_le_bytes(x).len() == 8
            &&& spec_i64_from_le_bytes(spec_i64_to_le_bytes(x)) == x
        } by {
        assert((x as u64) as i64 == x) by (bit_vector);
    }
    assert forall|s: Seq<u8>| s.len() == 8 implies #[trigger] spec_i64_to_le_bytes(
        spec_i64_from_le_bytes(s),
    ) == s by {
        let y = spec_u64_from_le_bytes(s);
        assert((y as i64) as u64 == y) by (bit_vector);
    }
}

/// Casting an `i8` to `u8` and back changes nothing.
pub proof fn lemma_i8_u8_cast(x: i8)
    ensures
        ((x as u8) as i8) == x,
{
    assert((x as u8) as i8 == x) by (bit_vector);
}

/// Casting a `u8` to `i8` and back changes nothing.
pub proof fn lemma_u8_i8_cast(y: u8)
    ensures
        ((y as i8) as u8) == y,
{
    assert((y as i8) as u8 == y) by (bit_vector);
}

/// Reads the byte at `at`.
pub fn get_u8(bytes: &[u8], at: usize) -> (x: u8)
    requires
        at < bytes@.len(),
    ensures
        x == bytes@[at as int],
{
    *slice_index_get(bytes, at)
}

/// Reads the byte at `at` as a signed value.
pub fn get_i8(bytes: &[u8], at: usize) -> (x: i8)
    requires
        at < bytes@.len(),
    ensures
        x == bytes@[at as int] as i8,
{
    *slice_index_get(bytes, at) as i8
}

/// Reads the little-endian `u16` at `at`.
pub fn get_u16_le(bytes: &[u8], at: usize) -> (x: u16)
    requires
        at + 2 <= bytes@.len(),
    ensures
        x == spec_u16_from_le_bytes(bytes@.subrange(at as int, at as int + 2)),
{
    let _n = bytes.len();
    u16_from_le_bytes(slice_subrange(bytes, at, at + 2))
}

/// Reads the little-endian `i16` at `at`.
pub fn get_i16_le(bytes: &[u8], at: usize) -> (x: i16)
    requires
        at + 2 <= bytes@.len(),
    ensures
        x == spec_i16_from_le_bytes(bytes@.subrange(at as int, at as int + 2)),
{
    get_u16_le(bytes, at) as i16
}

/// Reads the little-endian `u32` at `at`.
pub fn get_u32_le(bytes: &[u8], at: usize) -> (x: u32)
    requires
        at + 4 <= bytes@.len(),
    ensures
        x == spec_u32_from_le_bytes(bytes@.subrange(at as int, at as int + 4)),
{
    let _n = bytes.len();
    u32_from_le_bytes(slice_subrange(bytes, at, at + 4))
}

/// Reads the little-endian `i32` at `at`.
pub fn get_i32_le(bytes: &[u8], at: usize) -> (x: i32)
    requires
        at + 4 <= bytes@.len(),
    ensures
        x == spec_i32_from_le_bytes(bytes@.subrange(at as int, at as int + 4)),
{
    get_u32_le(bytes, at) as i32
}

/// Reads the little-endian `u64` at `at`.
pub fn get_u64_le(bytes: &[u8], at: usize) -> (x: u64)
    requires
        at + 8 <= bytes@.len(),
    ensures
        x == spec_u64_from_le_bytes(bytes@.subrange(at as int, at as int + 8)),
{
    let _n = bytes.len();
    u64_from_le_bytes(slice_subrange(bytes, at, at + 8))
}

/// Reads the little-endian `i64` at `at`.
pub fn get_i64_le(bytes: &[u8], at: usize) -> (x: i64)
    requires
        at + 8 <= bytes@.len(),
    ensures
        x == spec_i64_from_le_bytes(bytes@.subrange(at as int, at as int + 8)),
{
    get_u64_le(bytes, at) as i64
}

/// Copies the `N` bytes starting at `at` into a fixed-width array.
pub fn get_array<const N: usize>(bytes: &[u8], at: usize) -> (r: [u8; N])
    requires
        at + N <= bytes@.len(),
    ensures
        r@ == bytes@.subrange(at as int, at as int + N as int),
{
    let _n = bytes.len();
    let mut r: [u8; N] = [0; N];
    let mut i: usize = 0;
    while i < N
        invariant
            i <= N,
            at + N <= bytes@.len(),
            at + N <= usize::MAX,
            r@.len() == N,
            forall|j: int| 0 <= j < i ==> r@[j] == bytes@[at + j],
        decreases N - i,
    {
        r[i] = *slice_index_get(bytes, at + i);
        i = i + 1;
    }
    assert(r@ =~= bytes@.subrange(at as int, at as int + N as int));
    r
}

/// Appends one byte.
pub fn put_u8(out: &mut Vec<u8>, x: u8)
    ensures
        final(out)@ == old(out)@ + seq![x],
{
    out.push(x);
    assert(out@ =~= old(out)@ + seq![x]);
}

/// Appends one byte holding the bit pattern of a signed value.
pub fn put_i8(out: &mut Vec<u8>, x: i8)
    ensures
        final(out)@ == old(out)@ + seq![x as u8],
{
    put_u8(out, x as u8);
}

/// Appends a `u16` in little-endian order.
pub fn put_u16_le(out: &mut Vec<u8>, x: u16)
    ensures
        final(out)@ == old(out)@ + spec_u16_to_le_bytes(x),
{
    let mut s = u16_to_le_bytes(x);
    out.append(&mut s);
}

/// Appends an `i16` in little-endian order.
pub fn put_i16_le(out: &mut Vec<u8>, x: i16)
    ensures
        final(out)@ == old(out)@ + spec_i16_to_le_bytes(x),
{
    put_u16_le(out, x as u16);
}

/// Appends a `u32` in little-endian order.
pub fn put_u32_le(out: &mut Vec<u8>, x: u32)
    ensures
        final(out)@ == old(out)@ + spec_u32_to_le_bytes(x),
{
    let mut s = u32_to_le_bytes(x);
    out.append(&mut s);
}

/// Appends an `i32` in little-endian order.
pub fn put_i32_le(out: &mut Vec<u8>, x: i32)
    ensures
        final(out)@ == old(out)@ + spec_i32_to_le_bytes(x),
{
    put_u32_le(out, x as u32);
}

/// Appends a `u64` in little-endian order.
pub fn put_u64_le(out: &mut Vec<u8>, x: u64)
    ensures
        final(out)@ == old(out)@ + spec_u64_to_le_bytes(x),
{
    let mut s = u64_to_le_bytes(x);
    out.append(&mut s);
}

/// Appends an `i64` in little-endian order.
pub fn put_i64_le(out: &mut Vec<u8>, x: i64)
    ensures
        final(out)@ == old(out)@ + spec_i64_to_le_bytes(x),
{
    put_u64_le(out, x as u64);
}

/// Appends a fixed-width byte array as it stands.
pub fn put_array<const N: usize>(out: &mut Vec<u8>, a: &[u8; N])
    ensures
        final(out)@ == old(out)@ + a@,
{
    let mut s = slice_to_vec(a.as_slice());
    out.append(&mut s);
}

/// How many bytes of a fixed-width character field are meaningful: the
/// count of bytes before the first NUL, or the whole width when no byte
/// is NUL.
pub open spec fn nul_prefix_len(s: Seq<u8>) -> nat
    decreases s.len(),
{
    if s.len() == 0 {
        0
    } else if s[0] == 0 {
        0
    } else {
        1 + nul_prefix_len(s.skip(1))
    }
}

/// The meaningful prefix stops at the first NUL byte: everything before it
/// is non-NUL, and the byte at its end, when the field is not full, is NUL.
pub proof fn lemma_nul_prefix_len(s: Seq<u8>)
    ensures
        nul_prefix_len(s) <= s.len(),
        forall|j: int| 0 <= j < nul_prefix_len(s) ==> s[j] != 0,
        nul_prefix_len(s) < s.len() ==> s[nul_prefix_len(s) as int] == 0,
    decreases s.len(),
{
    if s.len() > 0 && s[0] != 0 {
        lemma_nul_prefix_len(s.skip(1));
        assert forall|j: int| 0 <= j < nul_prefix_len(s) implies s[j] != 0 by {
            if j > 0 {
                assert(s.skip(1)[j - 1] != 0);
            }
        }
    }
}

/// Returns the length of the meaningful text in a fixed-width character
/// field: the bytes before the first NUL.
pub fn c_str_len(a: &[u8]) -> (r: usize)
    ensures
        r == nul_prefix_len(a@),
{
    proof {
        lemma_nul_prefix_len(a@);
    }
    let n = a.len();
    let mut i: usize = 0;
    while i < n
        invariant
            i <= n,
            n == a@.len(),
            nul_prefix_len(a@) <= a@.len(),
            forall|j: int| 0 <= j < nul_prefix_len(a@) ==> a@[j] != 0,
            nul_prefix_len(a@) < a@.len() ==> a@[nul_prefix_len(a@) as int] == 0,
            forall|j: int| 0 <= j < i ==> a@[j] != 0,
        decreases n - i,
    {
        if *slice_index_get(a, i) == 0 {
            assert(i == nul_prefix_len(a@));
            return i;
        }
        i = i + 1;
    }
    assert(i == nul_prefix_len(a@));
    i
}

/// Returns the meaningful bytes of a fixed-width character field: the
/// content up to, and not including, the first NUL byte.
pub fn c_str_bytes(a: &[u8]) -> (r: Vec<u8>)
    ensures
        r@ == a@.take(nul_prefix_len(a@) as int),
{
    let n = c_str_len(a);
    proof {
        lemma_nul_prefix_len(a@);
    }
    let s = slice_subrange(a, 0, n);
    let r = slice_to_vec(s);
    assert(r@ =~= a@.take(nul_prefix_len(a@) as int));
    r
}

} // verus!
