//! The payload of a client message: five C `long`s that can also be read and
//! written as bytes or as 16-bit halves, over the same memory.

use crate::native::{
    get_i16, get_i64, group_native, group_signed, i16_at, i16_bytes, i64_at, i64_bytes,
    lemma_words_image_chunk, overwrite, put_i16, put_i64, words_image,
};
use libc::{c_char, c_long, c_short};
use vstd::prelude::*;

verus! {

/// Size in bytes of the payload.
pub const CLIENT_MESSAGE_DATA_SIZE: usize = 40;

/// The data of a client message.
///
/// The words are what is stored; `get_byte` and `get_short` read the same
/// memory at a finer grain, in the target's byte order.
#[derive(Clone, Copy, PartialEq, Eq, Debug)]
pub struct ClientMessageData {
    longs: [c_long; 5],
}

impl ClientMessageData {
    /// The five words.
    pub closed spec fn words(self) -> Seq<c_long> {
        self.longs@
    }

    /// The payload's memory: the five words, each in the target's byte order.
    pub open spec fn image(self) -> Seq<u8> {
        words_image(self.words())
    }

    /// The payload whose memory is `b` (of 40 bytes).
    pub closed spec fn from_image(b: Seq<u8>) -> ClientMessageData {
        ClientMessageData {
            longs: [i64_at(b, 0), i64_at(b, 8), i64_at(b, 16), i64_at(b, 24), i64_at(b, 32)],
        }
    }

    pub proof fn lemma_words(self)
        ensures
            self.words().len() == 5,
            self.image().len() == CLIENT_MESSAGE_DATA_SIZE,
    {
    }

    pub proof fn lemma_image_round_trip(self)
        ensures
            ClientMessageData::from_image(self.image()) == self,
    {
        crate::native::lemma_image_words_round_trip(self.longs@);
        let w = crate::native::image_words(self.image());
        assert(ClientMessageData::from_image(self.image()).longs@ =~= w);
        assert(ClientMessageData::from_image(self.image()).longs =~= self.longs);
    }

    /// A payload of zeros.
    pub fn new() -> (r: ClientMessageData)
        ensures
            r.words() == seq![0 as c_long, 0, 0, 0, 0],
    {
        let r = ClientMessageData { longs: [0, 0, 0, 0, 0] };
        assert(r.longs@ =~= seq![0 as c_long, 0, 0, 0, 0]);
        r
    }

    /// Byte `index` of the memory.
    pub fn get_byte(&self, index: usize) -> (r: c_char)
        requires
            index < 20,
        ensures
            r == #[verifier::truncate] (self.image()[index as int] as c_char),
    {
        let k = index / 8;
        let p = index % 8;
        let mut word: [u8; 8] = [0u8; 8];
        put_i64(&mut word, 0, self.longs[k]);
        proof {
            broadcast use group_native;

            lemma_words_image_chunk(self.words(), k as int);
            assert(word@ == self.image().subrange(8 * k, 8 * k + 8));
            assert(word@[p as int] == self.image()[index as int]);
        }
        word[p] as c_char
    }

    /// Word `index`.
    pub fn get_long(&self, index: usize) -> (r: c_long)
        requires
            index < 5,
        ensures
            r == self.words()[index as int],
    {
        self.longs[index]
    }

    /// Half-word `index`: the two bytes from offset `2 * index`, read in the
    /// target's byte order.
    pub fn get_short(&self, index: usize) -> (r: c_short)
        requires
            index < 10,
        ensures
            r == i16_at(self.image(), 2 * index),
    {
        let k = index / 4;
        let p = 2 * (index % 4);
        let mut word: [u8; 8] = [0u8; 8];
        put_i64(&mut word, 0, self.longs[k]);
        proof {
            broadcast use group_native, group_signed;

            lemma_words_image_chunk(self.words(), k as int);
            assert(word@ == self.image().subrange(8 * k, 8 * k + 8));
            assert(word@.subrange(p as int, p + 2) =~= self.image().subrange(
                2 * index,
                2 * index + 2,
            ));
        }
        get_i16(&word, p)
    }

    /// Sets byte `index` of the memory; the other bytes keep their values.
    pub fn set_byte(&mut self, index: usize, value: c_char)
        requires
            index < 20,
        ensures
            final(self).image() == old(self).image().update(
                index as int,
                #[verifier::truncate] (value as u8),
            ),
    {
        let k = index / 8;
        let mut word: [u8; 8] = [0u8; 8];
        put_i64(&mut word, 0, self.longs[k]);
        word[index % 8] = value as u8;
        let ghost bytes = word@;
        let long = get_i64(&word, 0);
        self.longs[k] = long;
        proof {
            broadcast use group_native, group_signed;

            assert(bytes.subrange(0, 8) =~= bytes);
            lemma_long_write_in_image(*old(self), *self, k as int, bytes);
        }
    }

    /// Sets word `index`.
    pub fn set_long(&mut self, index: usize, value: c_long)
        requires
            index < 5,
        ensures
            final(self).words() == old(self).words().update(index as int, value),
    {
        self.longs[index] = value;
    }

    /// Sets half-word `index`: the two bytes from offset `2 * index` take the
    /// value's bytes in the target's byte order; the other bytes keep theirs.
    pub fn set_short(&mut self, index: usize, value: c_short)
        requires
            index < 10,
        ensures
            final(self).image() == overwrite(old(self).image(), 2 * index, i16_bytes(value)),
    {
        let k = index / 4;
        let p = 2 * (index % 4);
        let mut word: [u8; 8] = [0u8; 8];
        put_i64(&mut word, 0, self.longs[k]);
        put_i16(&mut word, p, value);
        let ghost bytes = word@;
        let long = get_i64(&word, 0);
        self.longs[k] = long;
        proof {
            broadcast use group_native, group_signed;

            assert(bytes.subrange(0, 8) =~= bytes);
            lemma_long_write_in_image(*old(self), *self, k as int, bytes);
        }
    }

    /// Writes the payload's memory into `out` from `off` on.
    pub(crate) fn write_to(&self, out: &mut [u8], off: usize)
        requires
            off + CLIENT_MESSAGE_DATA_SIZE <= old(out)@.len(),
        ensures
            final(out)@ == overwrite(old(out)@, off as int, self.image()),
    {
        let n = out.len();
        let mut k: usize = 0;
        while k < 5
            invariant
                k <= 5,
                n == out@.len(),
                off + CLIENT_MESSAGE_DATA_SIZE <= out@.len(),
                out@.len() == old(out)@.len(),
                forall|i: int|
                    0 <= i < out@.len() ==> #[trigger] out@[i] == if off <= i < off + 8 * k {
                        self.image()[i - off]
                    } else {
                        old(out)@[i]
                    },
            decreases 5 - k,
        {
            let ghost prev = out@;
            put_i64(out, off + 8 * k, self.longs[k]);
            proof {
                lemma_words_image_chunk(self.words(), k as int);
                assert forall|i: int| 0 <= i < out@.len() implies #[trigger] out@[i] == if off
                    <= i < off + 8 * (k + 1) {
                    self.image()[i - off]
                } else {
                    old(out)@[i]
                } by {
                    if off + 8 * k <= i < off + 8 * k + 8 {
                        assert(self.image().subrange(8 * k, 8 * k + 8)[i - off - 8 * k]
                            == self.image()[i - off]);
                    }
                }
            }
            k = k + 1;
        }
        assert(out@ =~= overwrite(old(out)@, off as int, self.image()));
    }

    /// The payload stored in `b` from `off` on.
    pub(crate) fn read_from(b: &[u8], off: usize) -> (r: ClientMessageData)
        requires
            off + CLIENT_MESSAGE_DATA_SIZE <= b@.len(),
        ensures
            r == ClientMessageData::from_image(b@.subrange(off as int, off + 40)),
    {
        let ghost img = b@.subrange(off as int, off + 40);
        let n = b.len();
        let longs: [c_long; 5] = [
            get_i64(b, off),
            get_i64(b, off + 8),
            get_i64(b, off + 16),
            get_i64(b, off + 24),
            get_i64(b, off + 32),
        ];
        proof {
            assert(b@.subrange(off as int, off + 8) =~= img.subrange(0, 8));
            assert(b@.subrange(off + 8, off + 16) =~= img.subrange(8, 16));
            assert(b@.subrange(off + 16, off + 24) =~= img.subrange(16, 24));
            assert(b@.subrange(off + 24, off + 32) =~= img.subrange(24, 32));
            assert(b@.subrange(off + 32, off + 40) =~= img.subrange(32, 40));
            assert(longs =~= ClientMessageData::from_image(img).longs);
        }
        ClientMessageData { longs }
    }
}

/// Replacing word `k` by a word whose memory is `bytes` changes the payload's
/// memory in those eight bytes, from offset `8 * k`, and nowhere else.
pub proof fn lemma_long_write_in_image(
    a: ClientMessageData,
    b: ClientMessageData,
    k: int,
    bytes: Seq<u8>,
)
    requires
        0 <= k < 5,
        bytes.len() == 8,
        i64_bytes(b.words()[k]) == bytes,
        b.words() == a.words().update(k, b.words()[k]),
    ensures
        b.image() == overwrite(a.image(), 8 * k, bytes),
{
    assert forall|i: int| 0 <= i < 40 implies #[trigger] b.image()[i] == overwrite(
        a.image(),
        8 * k,
        bytes,
    )[i] by {
        assert(8 * k <= i < 8 * k + 8 <==> i / 8 == k);
    }
    assert(b.image() =~= overwrite(a.image(), 8 * k, bytes));
}

/// Half-word `j` is one half of a word: the two bytes at offset `2 * (j % 4)`
/// of word `j / 4`'s memory.
pub proof fn lemma_short_is_half_of_long(d: ClientMessageData, j: int)
    requires
        0 <= j < 10,
    ensures
        i16_bytes(i16_at(d.image(), 2 * j)) == i64_bytes(d.words()[j / 4]).subrange(
            2 * (j % 4),
            2 * (j % 4) + 2,
        ),
{
    broadcast use group_native, group_signed;

    let k = j / 4;
    d.lemma_words();
    lemma_words_image_chunk(d.words(), k);
    crate::native::lemma_i16_bytes_round_trip(d.image(), 2 * j);
    assert(i64_bytes(d.words()[k]).subrange(2 * (j % 4), 2 * (j % 4) + 2) =~= d.image().subrange(
        2 * j,
        2 * j + 2,
    ));
}

/// Writing byte `i` of the memory changes byte `i % 8` of word `i / 8` and
/// nothing else in any word.
pub proof fn lemma_byte_write_in_word(a: ClientMessageData, b: ClientMessageData, i: int, v: u8)
    requires
        0 <= i < 20,
        b.image() == a.image().update(i, v),
    ensures
        i64_bytes(b.words()[i / 8]) == i64_bytes(a.words()[i / 8]).update(i % 8, v),
        forall|k: int| 0 <= k < 5 && k != i / 8 ==> b.words()[k] == a.words()[k],
{
    broadcast use group_native, group_signed;

    a.lemma_words();
    b.lemma_words();
    let q = i / 8;
    lemma_words_image_chunk(a.words(), q);
    lemma_words_image_chunk(b.words(), q);
    assert(b.image().subrange(8 * q, 8 * q + 8) =~= a.image().subrange(8 * q, 8 * q + 8).update(
        i % 8,
        v,
    ));
    assert forall|k: int| 0 <= k < 5 && k != i / 8 implies b.words()[k] == a.words()[k] by {
        lemma_words_image_chunk(a.words(), k);
        lemma_words_image_chunk(b.words(), k);
        assert(b.image().subrange(8 * k, 8 * k + 8) =~= a.image().subrange(8 * k, 8 * k + 8));
    }
}

} // verus!
