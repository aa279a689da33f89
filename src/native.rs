//! Integers as the target lays them out in memory.
//!
//! The byte order is the target's own (`vstd::endian::endianness()`); nothing
//! here normalizes it. Every field of an event record, and every slot of a
//! client-message payload, is read and written through these functions.

use vstd::bytes::{
    lemma_auto_spec_u16_to_from_le_bytes, lemma_auto_spec_u32_to_from_le_bytes,
    lemma_auto_spec_u64_to_from_le_bytes, spec_u16_from_le_bytes, spec_u16_to_le_bytes,
    spec_u32_from_le_bytes, spec_u32_to_le_bytes, spec_u64_from_le_bytes, spec_u64_to_le_bytes,
};
use vstd::endian::{endianness, Endian};
use libc::c_char;
use vstd::prelude::*;

verus! {

/// The memory representation of a `u16` on this target.
pub open spec fn ne_u16(x: u16) -> Seq<u8> {
    match endianness() {
        Endian::Little => spec_u16_to_le_bytes(x),
        Endian::Big => spec_u16_to_le_bytes(x).reverse(),
    }
}

/// The `u16` whose memory representation on this target is `b`.
pub open spec fn ne_u16_value(b: Seq<u8>) -> u16 {
    match endianness() {
        Endian::Little => spec_u16_from_le_bytes(b),
        Endian::Big => spec_u16_from_le_bytes(b.reverse()),
    }
}

/// The memory representation of a `u32` on this target.
pub open spec fn ne_u32(x: u32) -> Seq<u8> {
    match endianness() {
        Endian::Little => spec_u32_to_le_bytes(x),
        Endian::Big => spec_u32_to_le_bytes(x).reverse(),
    }
}

/// The `u32` whose memory representation on this target is `b`.
pub open spec fn ne_u32_value(b: Seq<u8>) -> u32 {
    match endianness() {
        Endian::Little => spec_u32_from_le_bytes(b),
        Endian::Big => spec_u32_from_le_bytes(b.reverse()),
    }
}

/// The memory representation of a `u64` on this target.
pub open spec fn ne_u64(x: u64) -> Seq<u8> {
    match endianness() {
        Endian::Little => spec_u64_to_le_bytes(x),
        Endian::Big => spec_u64_to_le_bytes(x).reverse(),
    }
}

/// The `u64` whose memory representation on this target is `b`.
pub open spec fn ne_u64_value(b: Seq<u8>) -> u64 {
    match endianness() {
        Endian::Little => spec_u64_from_le_bytes(b),
        Endian::Big => spec_u64_from_le_bytes(b.reverse()),
    }
}

pub broadcast proof fn lemma_ne_u16_round_trip(x: u16)
    ensures
        #[trigger] ne_u16(x).len() == 2,
        ne_u16_value(ne_u16(x)) == x,
{
    lemma_auto_spec_u16_to_from_le_bytes();
    assert(spec_u16_to_le_bytes(x).reverse().reverse() =~= spec_u16_to_le_bytes(x));
}

pub broadcast proof fn lemma_ne_u16_bytes_round_trip(b: Seq<u8>)
    requires
        b.len() == 2,
    ensures
        #[trigger] ne_u16(ne_u16_value(b)) == b,
{
    lemma_auto_spec_u16_to_from_le_bytes();
    assert(b.reverse().reverse() =~= b);
}

pub broadcast proof fn lemma_ne_u32_round_trip(x: u32)
    ensures
        #[trigger] ne_u32(x).len() == 4,
        ne_u32_value(ne_u32(x)) == x,
{
    lemma_auto_spec_u32_to_from_le_bytes();
    assert(spec_u32_to_le_bytes(x).reverse().reverse() =~= spec_u32_to_le_bytes(x));
}

pub broadcast proof fn lemma_ne_u32_bytes_round_trip(b: Seq<u8>)
    requires
        b.len() == 4,
    ensures
        #[trigger] ne_u32(ne_u32_value(b)) == b,
{
    lemma_auto_spec_u32_to_from_le_bytes();
    assert(b.reverse().reverse() =~= b);
}

pub broadcast proof fn lemma_ne_u64_round_trip(x: u64)
    ensures
        #[trigger] ne_u64(x).len() == 8,
        ne_u64_value(ne_u64(x)) == x,
{
    lemma_auto_spec_u64_to_from_le_bytes();
    assert(spec_u64_to_le_bytes(x).reverse().reverse() =~= spec_u64_to_le_bytes(x));
}

pub broadcast proof fn lemma_ne_u64_bytes_round_trip(b: Seq<u8>)
    requires
        b.len() == 8,
    ensures
        #[trigger] ne_u64(ne_u64_value(b)) == b,
{
    lemma_auto_spec_u64_to_from_le_bytes();
    assert(b.reverse().reverse() =~= b);
}

pub broadcast group group_native {
    lemma_ne_u16_round_trip,
    lemma_ne_u16_bytes_round_trip,
    lemma_ne_u32_round_trip,
    lemma_ne_u32_bytes_round_trip,
    lemma_ne_u64_round_trip,
    lemma_ne_u64_bytes_round_trip,
}

/// `b` with the bytes from `off` on replaced by `s`; the length is kept.
pub open spec fn overwrite(b: Seq<u8>, off: int, s: Seq<u8>) -> Seq<u8> {
    Seq::new(b.len(), |i: int| if off <= i < off + s.len() { s[i - off] } else { b[i] })
}

/// A block of `n` zero bytes.
pub open spec fn zeros(n: nat) -> Seq<u8> {
    Seq::new(n, |i: int| 0u8)
}

pub open spec fn i16_bytes(x: i16) -> Seq<u8> {
    ne_u16(#[verifier::truncate] (x as u16))
}

pub open spec fn i32_bytes(x: i32) -> Seq<u8> {
    ne_u32(#[verifier::truncate] (x as u32))
}

pub open spec fn u32_bytes(x: u32) -> Seq<u8> {
    ne_u32(x)
}

pub open spec fn i64_bytes(x: i64) -> Seq<u8> {
    ne_u64(#[verifier::truncate] (x as u64))
}

pub open spec fn u64_bytes(x: u64) -> Seq<u8> {
    ne_u64(x)
}

/// The `i16` stored at `off` in the byte image `b`.
pub open spec fn i16_at(b: Seq<u8>, off: int) -> i16 {
    #[verifier::truncate] (ne_u16_value(b.subrange(off, off + 2)) as i16)
}

/// The `i32` stored at `off` in the byte image `b`.
pub open spec fn i32_at(b: Seq<u8>, off: int) -> i32 {
    #[verifier::truncate] (ne_u32_value(b.subrange(off, off + 4)) as i32)
}

/// The `u32` stored at `off` in the byte image `b`.
pub open spec fn u32_at(b: Seq<u8>, off: int) -> u32 {
    ne_u32_value(b.subrange(off, off + 4))
}

/// The `i64` stored at `off` in the byte image `b`.
pub open spec fn i64_at(b: Seq<u8>, off: int) -> i64 {
    #[verifier::truncate] (ne_u64_value(b.subrange(off, off + 8)) as i64)
}

/// The `u64` stored at `off` in the byte image `b`.
pub open spec fn u64_at(b: Seq<u8>, off: int) -> u64 {
    ne_u64_value(b.subrange(off, off + 8))
}

pub broadcast proof fn lemma_i16_round_trip(x: i16)
    ensures
        #[trigger] i16_bytes(x).len() == 2,
        i16_at(i16_bytes(x), 0) == x,
{
    broadcast use group_native;

    let v = #[verifier::truncate] (x as u16);
    assert((#[verifier::truncate] (v as i16)) == x) by (bit_vector)
        requires
            v == #[verifier::truncate] (x as u16),
    ;
    assert(i16_bytes(x).subrange(0, 2) =~= i16_bytes(x));
}

pub broadcast proof fn lemma_i16_bytes_round_trip(b: Seq<u8>, off: int)
    requires
        0 <= off,
        off + 2 <= b.len(),
    ensures
        #[trigger] i16_bytes(i16_at(b, off)) == b.subrange(off, off + 2),
{
    broadcast use group_native;

    let v = ne_u16_value(b.subrange(off, off + 2));
    let x = #[verifier::truncate] (v as i16);
    assert((#[verifier::truncate] (x as u16)) == v) by (bit_vector)
        requires
            x == #[verifier::truncate] (v as i16),
    ;
}

pub broadcast proof fn lemma_i32_round_trip(x: i32)
    ensures
        #[trigger] i32_bytes(x).len() == 4,
        i32_at(i32_bytes(x), 0) == x,
{
    broadcast use group_native;

    let v = #[verifier::truncate] (x as u32);
    assert((#[verifier::truncate] (v as i32)) == x) by (bit_vector)
        requires
            v == #[verifier::truncate] (x as u32),
    ;
    assert(i32_bytes(x).subrange(0, 4) =~= i32_bytes(x));
}

pub broadcast proof fn lemma_i32_bytes_round_trip(b: Seq<u8>, off: int)
    requires
        0 <= off,
        off + 4 <= b.len(),
    ensures
        #[trigger] i32_bytes(i32_at(b, off)) == b.subrange(off, off + 4),
{
    broadcast use group_native;

    let v = ne_u32_value(b.subrange(off, off + 4));
    let x = #[verifier::truncate] (v as i32);
    assert((#[verifier::truncate] (x as u32)) == v) by (bit_vector)
        requires
            x == #[verifier::truncate] (v as i32),
    ;
}

pub broadcast proof fn lemma_i64_round_trip(x: i64)
    ensures
        #[trigger] i64_bytes(x).len() == 8,
        i64_at(i64_bytes(x), 0) == x,
{
    broadcast use group_native;

    let v = #[verifier::truncate] (x as u64);
    assert((#[verifier::truncate] (v as i64)) == x) by (bit_vector)
        requires
            v == #[verifier::truncate] (x as u64),
    ;
    assert(i64_bytes(x).subrange(0, 8) =~= i64_bytes(x));
}

pub broadcast proof fn lemma_i64_bytes_round_trip(b: Seq<u8>, off: int)
    requires
        0 <= off,
        off + 8 <= b.len(),
    ensures
        #[trigger] i64_bytes(i64_at(b, off)) == b.subrange(off, off + 8),
{
    broadcast use group_native;

    let v = ne_u64_value(b.subrange(off, off + 8));
    let x = #[verifier::truncate] (v as i64);
    assert((#[verifier::truncate] (x as u64)) == v) by (bit_vector)
        requires
            x == #[verifier::truncate] (v as i64),
    ;
}

pub broadcast group group_signed {
    lemma_i16_round_trip,
    lemma_i16_bytes_round_trip,
    lemma_i32_round_trip,
    lemma_i32_bytes_round_trip,
    lemma_i64_round_trip,
    lemma_i64_bytes_round_trip,
}

/// The memory image of consecutive `i64` words.
pub open spec fn words_image(w: Seq<i64>) -> Seq<u8> {
    Seq::new(8 * w.len(), |i: int| i64_bytes(w[i / 8])[i % 8])
}

/// The `i64` words that the image `b` holds, one for each eight bytes.
pub open spec fn image_words(b: Seq<u8>) -> Seq<i64> {
    Seq::new(b.len() / 8, |k: int| i64_at(b, 8 * k))
}

pub proof fn lemma_words_image_chunk(w: Seq<i64>, k: int)
    requires
        0 <= k < w.len(),
    ensures
        words_image(w).subrange(8 * k, 8 * k + 8) == i64_bytes(w[k]),
        i64_at(words_image(w), 8 * k) == w[k],
{
    broadcast use group_native, group_signed;

    let img = words_image(w);
    assert forall|j: int| 0 <= j < 8 implies #[trigger] img.subrange(8 * k, 8 * k + 8)[j]
        == i64_bytes(w[k])[j] by {
        assert((8 * k + j) / 8 == k && (8 * k + j) % 8 == j) by (nonlinear_arith)
            requires
                0 <= j < 8,
        ;
    }
    assert(img.subrange(8 * k, 8 * k + 8) =~= i64_bytes(w[k]));
}

pub proof fn lemma_image_words_round_trip(w: Seq<i64>)
    ensures
        image_words(words_image(w)) == w,
{
    let img = words_image(w);
    assert(img.len() / 8 == w.len()) by (nonlinear_arith)
        requires
            img.len() == 8 * w.len(),
    ;
    assert forall|k: int| 0 <= k < w.len() implies #[trigger] image_words(img)[k] == w[k] by {
        lemma_words_image_chunk(w, k);
    }
    assert(image_words(img) =~= w);
}

pub proof fn lemma_words_image_round_trip(b: Seq<u8>)
    requires
        b.len() % 8 == 0,
    ensures
        words_image(image_words(b)) == b,
{
    broadcast use group_native;

    let w = image_words(b);
    assert(8 * w.len() == b.len()) by (nonlinear_arith)
        requires
            w.len() == b.len() / 8,
            b.len() % 8 == 0,
    ;
    assert forall|i: int| 0 <= i < b.len() implies #[trigger] words_image(w)[i] == b[i] by {
        let q = i / 8;
        let r = i % 8;
        assert(0 <= q < w.len() && 0 <= r < 8 && i == 8 * q + r) by (nonlinear_arith)
            requires
                0 <= i < b.len(),
                b.len() == 8 * w.len(),
                q == i / 8,
                r == i % 8,
        ;
        lemma_i64_bytes_round_trip(b, 8 * q);
    }
    assert(words_image(w) =~= b);
}

/// The memory of a 32-byte character array.
pub open spec fn chars_bytes(a: [c_char; 32]) -> Seq<u8> {
    Seq::new(32, |i: int| #[verifier::truncate] (a[i] as u8))
}

/// The 32-byte character array stored at `off` in the byte image `b`.
pub open spec fn chars_at(b: Seq<u8>, off: int) -> [c_char; 32] {
    [
        #[verifier::truncate] (b[off + 0] as c_char),
        #[verifier::truncate] (b[off + 1] as c_char),
        #[verifier::truncate] (b[off + 2] as c_char),
        #[verifier::truncate] (b[off + 3] as c_char),
        #[verifier::truncate] (b[off + 4] as c_char),
        #[verifier::truncate] (b[off + 5] as c_char),
        #[verifier::truncate] (b[off + 6] as c_char),
        #[verifier::truncate] (b[off + 7] as c_char),
        #[verifier::truncate] (b[off + 8] as c_char),
        #[verifier::truncate] (b[off + 9] as c_char),
        #[verifier::truncate] (b[off + 10] as c_char),
        #[verifier::truncate] (b[off + 11] as c_char),
        #[verifier::truncate] (b[off + 12] as c_char),
        #[verifier::truncate] (b[off + 13] as c_char),
        #[verifier::truncate] (b[off + 14] as c_char),
        #[verifier::truncate] (b[off + 15] as c_char),
        #[verifier::truncate] (b[off + 16] as c_char),
        #[verifier::truncate] (b[off + 17] as c_char),
        #[verifier::truncate] (b[off + 18] as c_char),
        #[verifier::truncate] (b[off + 19] as c_char),
        #[verifier::truncate] (b[off + 20] as c_char),
        #[verifier::truncate] (b[off + 21] as c_char),
        #[verifier::truncate] (b[off + 22] as c_char),
        #[verifier::truncate] (b[off + 23] as c_char),
        #[verifier::truncate] (b[off + 24] as c_char),
        #[verifier::truncate] (b[off + 25] as c_char),
        #[verifier::truncate] (b[off + 26] as c_char),
        #[verifier::truncate] (b[off + 27] as c_char),
        #[verifier::truncate] (b[off + 28] as c_char),
        #[verifier::truncate] (b[off + 29] as c_char),
        #[verifier::truncate] (b[off + 30] as c_char),
        #[verifier::truncate] (b[off + 31] as c_char),
    ]
}

pub proof fn lemma_chars_round_trip(a: [c_char; 32], b: Seq<u8>, off: int)
    requires
        0 <= off,
        off + 32 <= b.len(),
        b.subrange(off, off + 32) == chars_bytes(a),
    ensures
        chars_at(b, off) == a,
{
    assert forall|i: int| 0 <= i < 32 implies #[trigger] chars_at(b, off)[i] == a[i] by {
        let x = a[i];
        assert(b.subrange(off, off + 32)[i] == b[off + i]);
        assert((#[verifier::truncate] ((#[verifier::truncate] (x as u8)) as c_char)) == x)
            by (bit_vector);
    }
    assert(chars_at(b, off) =~= a);
}

pub(crate) fn put_u8(out: &mut [u8], off: usize, x: u8)
    requires
        off + 1 <= old(out)@.len(),
    ensures
        final(out)@ == overwrite(old(out)@, off as int, seq![x]),
{
    out[off] = x;
    assert(out@ =~= overwrite(old(out)@, off as int, seq![x]));
}

pub(crate) fn put_chars(out: &mut [u8], off: usize, a: &[c_char; 32])
    requires
        off + 32 <= old(out)@.len(),
    ensures
        final(out)@ == overwrite(old(out)@, off as int, chars_bytes(*a)),
{
    let mut b: [u8; 32] = [0u8; 32];
    let mut k: usize = 0;
    while k < 32
        invariant
            k <= 32,
            forall|j: int| 0 <= j < k ==> #[trigger] b@[j] == chars_bytes(*a)[j],
        decreases 32 - k,
    {
        b[k] = a[k] as u8;
        k = k + 1;
    }
    assert(b@ =~= chars_bytes(*a));
    write_bytes(out, off, b.as_slice());
}

pub(crate) fn get_chars(b: &[u8], off: usize) -> (r: [c_char; 32])
    requires
        off + 32 <= b@.len(),
    ensures
        r == chars_at(b@, off as int),
{
    let mut a: [c_char; 32] = [0; 32];
    let n = b.len();
    let mut k: usize = 0;
    while k < 32
        invariant
            k <= 32,
            n == b@.len(),
            off + 32 <= b@.len(),
            forall|j: int| 0 <= j < k ==> #[trigger] a@[j] == chars_at(b@, off as int)[j],
        decreases 32 - k,
    {
        a[k] = b[off + k] as c_char;
        k = k + 1;
    }
    assert(a =~= chars_at(b@, off as int));
    a
}

/// Relies on u16::to_ne_bytes: the value's memory representation in the target's byte order.
#[verifier::external_body]
fn u16_to_ne(x: u16) -> (r: [u8; 2])
    ensures
        r@ == ne_u16(x),
{
    x.to_ne_bytes()
}

/// Relies on u16::from_ne_bytes: the value whose memory representation on the target is `b`.
#[verifier::external_body]
fn u16_from_ne(b: [u8; 2]) -> (r: u16)
    ensures
        r == ne_u16_value(b@),
{
    u16::from_ne_bytes(b)
}

/// Relies on u32::to_ne_bytes: the value's memory representation in the target's byte order.
#[verifier::external_body]
fn u32_to_ne(x: u32) -> (r: [u8; 4])
    ensures
        r@ == ne_u32(x),
{
    x.to_ne_bytes()
}

/// Relies on u32::from_ne_bytes: the value whose memory representation on the target is `b`.
#[verifier::external_body]
fn u32_from_ne(b: [u8; 4]) -> (r: u32)
    ensures
        r == ne_u32_value(b@),
{
    u32::from_ne_bytes(b)
}

/// Relies on u64::to_ne_bytes: the value's memory representation in the target's byte order.
#[verifier::external_body]
pub(crate) fn u64_to_ne(x: u64) -> (r: [u8; 8])
    ensures
        r@ == ne_u64(x),
{
    x.to_ne_bytes()
}

/// Relies on u64::from_ne_bytes: the value whose memory representation on the target is `b`.
#[verifier::external_body]
pub(crate) fn u64_from_ne(b: [u8; 8]) -> (r: u64)
    ensures
        r == ne_u64_value(b@),
{
    u64::from_ne_bytes(b)
}

/// Copies `src` into `out` from `off` on.
pub(crate) fn write_bytes(out: &mut [u8], off: usize, src: &[u8])
    requires
        off + src@.len() <= old(out)@.len(),
    ensures
        final(out)@ == overwrite(old(out)@, off as int, src@),
{
    let n = src.len();
    let m = out.len();
    let mut k: usize = 0;
    while k < n
        invariant
            n == src@.len(),
            m == out@.len(),
            k <= n,
            off + n <= out@.len(),
            out@.len() == old(out)@.len(),
            forall|i: int|
                0 <= i < out@.len() ==> #[trigger] out@[i] == if off <= i < off + k {
                    src@[i - off]
                } else {
                    old(out)@[i]
                },
        decreases n - k,
    {
        out[off + k] = src[k];
        k = k + 1;
    }
    assert(out@ =~= overwrite(old(out)@, off as int, src@));
}

pub(crate) fn put_i16(out: &mut [u8], off: usize, x: i16)
    requires
        off + 2 <= old(out)@.len(),
    ensures
        final(out)@ == overwrite(old(out)@, off as int, i16_bytes(x)),
{
    let b = u16_to_ne(x as u16);
    write_bytes(out, off, b.as_slice());
}

pub(crate) fn put_i32(out: &mut [u8], off: usize, x: i32)
    requires
        off + 4 <= old(out)@.len(),
    ensures
        final(out)@ == overwrite(old(out)@, off as int, i32_bytes(x)),
{
    let b = u32_to_ne(x as u32);
    write_bytes(out, off, b.as_slice());
}

pub(crate) fn put_u32(out: &mut [u8], off: usize, x: u32)
    requires
        off + 4 <= old(out)@.len(),
    ensures
        final(out)@ == overwrite(old(out)@, off as int, u32_bytes(x)),
{
    let b = u32_to_ne(x);
    write_bytes(out, off, b.as_slice());
}

pub(crate) fn put_i64(out: &mut [u8], off: usize, x: i64)
    requires
        off + 8 <= old(out)@.len(),
    ensures
        final(out)@ == overwrite(old(out)@, off as int, i64_bytes(x)),
{
    let b = u64_to_ne(x as u64);
    write_bytes(out, off, b.as_slice());
}

pub(crate) fn put_u64(out: &mut [u8], off: usize, x: u64)
    requires
        off + 8 <= old(out)@.len(),
    ensures
        final(out)@ == overwrite(old(out)@, off as int, u64_bytes(x)),
{
    let b = u64_to_ne(x);
    write_bytes(out, off, b.as_slice());
}

pub(crate) fn get_i16(b: &[u8], off: usize) -> (r: i16)
    requires
        off + 2 <= b@.len(),
    ensures
        r == i16_at(b@, off as int),
{
    let a: [u8; 2] = [b[off], b[off + 1]];
    assert(a@ =~= b@.subrange(off as int, off + 2));
    u16_from_ne(a) as i16
}

pub(crate) fn get_u32(b: &[u8], off: usize) -> (r: u32)
    requires
        off + 4 <= b@.len(),
    ensures
        r == u32_at(b@, off as int),
{
    let a: [u8; 4] = [b[off], b[off + 1], b[off + 2], b[off + 3]];
    assert(a@ =~= b@.subrange(off as int, off + 4));
    u32_from_ne(a)
}

pub(crate) fn get_i32(b: &[u8], off: usize) -> (r: i32)
    requires
        off + 4 <= b@.len(),
    ensures
        r == i32_at(b@, off as int),
{
    get_u32(b, off) as i32
}

pub(crate) fn get_u64(b: &[u8], off: usize) -> (r: u64)
    requires
        off + 8 <= b@.len(),
    ensures
        r == u64_at(b@, off as int),
{
    let a: [u8; 8] = [
        b[off],
        b[off + 1],
        b[off + 2],
        b[off + 3],
        b[off + 4],
        b[off + 5],
        b[off + 6],
        b[off + 7],
    ];
    assert(a@ =~= b@.subrange(off as int, off + 8));
    u64_from_ne(a)
}

pub(crate) fn get_i64(b: &[u8], off: usize) -> (r: i64)
    requires
        off + 8 <= b@.len(),
    ensures
        r == i64_at(b@, off as int),
{
    get_u64(b, off) as i64
}

} // verus!
