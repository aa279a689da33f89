//! The event union: a fixed block of memory whose meaning is given by the
//! discriminant in its first four bytes.

use crate::native::{
    get_i32, get_i64, i32_at, i64_at, image_words, lemma_image_words_round_trip,
    lemma_words_image_chunk, lemma_words_image_round_trip, put_i64, words_image, zeros,
};
use crate::raw::{copy_truncated, mem_eq};
use libc::{c_int, c_long};
use vstd::prelude::*;

verus! {

/// Size in bytes of the event union: 24 words of a C `long`.
pub const EVENT_SIZE: usize = 192;

/// The event union, as the X library hands it out.
///
/// Which record it holds is told by `kind()`; convert it to that record with
/// the record's `From<XEvent>`.
#[derive(Clone, Copy, Debug)]
pub struct XEvent {
    pub pad: [c_long; 24],
}

impl XEvent {
    /// The union's memory, word after word in the target's byte order.
    pub open spec fn image(self) -> Seq<u8> {
        words_image(self.pad@)
    }

    /// The union whose memory is `b` (of `EVENT_SIZE` bytes).
    pub open spec fn from_image(b: Seq<u8>) -> XEvent {
        XEvent {
            pad: [
                i64_at(b, 0),
                i64_at(b, 8),
                i64_at(b, 16),
                i64_at(b, 24),
                i64_at(b, 32),
                i64_at(b, 40),
                i64_at(b, 48),
                i64_at(b, 56),
                i64_at(b, 64),
                i64_at(b, 72),
                i64_at(b, 80),
                i64_at(b, 88),
                i64_at(b, 96),
                i64_at(b, 104),
                i64_at(b, 112),
                i64_at(b, 120),
                i64_at(b, 128),
                i64_at(b, 136),
                i64_at(b, 144),
                i64_at(b, 152),
                i64_at(b, 160),
                i64_at(b, 168),
                i64_at(b, 176),
                i64_at(b, 184),
            ],
        }
    }

    /// The discriminant: the `int` at offset 0.
    pub open spec fn spec_kind(self) -> c_int {
        i32_at(self.image(), 0)
    }

    pub proof fn lemma_image(self)
        ensures
            self.image().len() == EVENT_SIZE,
            XEvent::from_image(self.image()) == self,
    {
        lemma_image_words_round_trip(self.pad@);
        XEvent::lemma_from_image_words(self.image());
        assert(XEvent::from_image(self.image()).pad =~= self.pad);
    }

    proof fn lemma_from_image_words(b: Seq<u8>)
        requires
            b.len() == EVENT_SIZE,
        ensures
            XEvent::from_image(b).pad@ == image_words(b),
    {
        assert(XEvent::from_image(b).pad@ =~= image_words(b));
    }

    pub proof fn lemma_from_image(b: Seq<u8>)
        requires
            b.len() == EVENT_SIZE,
        ensures
            XEvent::from_image(b).image() == b,
    {
        XEvent::lemma_from_image_words(b);
        lemma_words_image_round_trip(b);
    }

    /// The discriminant, read without looking at the rest of the union.
    pub fn kind(&self) -> (r: c_int)
        ensures
            r == self.spec_kind(),
    {
        let mut head: [u8; 8] = [0u8; 8];
        put_i64(&mut head, 0, self.pad[0]);
        proof {
            lemma_words_image_chunk(self.pad@, 0);
            assert(head@ == self.image().subrange(0, 8));
            assert(head@.subrange(0, 4) =~= self.image().subrange(0, 4));
        }
        get_i32(&head, 0)
    }

    /// The union's memory.
    pub fn to_bytes(&self) -> (r: [u8; 192])
        ensures
            r@ == self.image(),
    {
        let mut out: [u8; 192] = [0u8; 192];
        let mut k: usize = 0;
        while k < 24
            invariant
                k <= 24,
                out@.len() == EVENT_SIZE,
                forall|i: int| 0 <= i < 8 * k ==> #[trigger] out@[i] == self.image()[i],
            decreases 24 - k,
        {
            put_i64(&mut out, 8 * k, self.pad[k]);
            proof {
                lemma_words_image_chunk(self.pad@, k as int);
                assert forall|i: int| 0 <= i < 8 * (k + 1) implies #[trigger] out@[i]
                    == self.image()[i] by {
                    if i >= 8 * k {
                        assert(self.image().subrange(8 * k, 8 * k + 8)[i - 8 * k]
                            == self.image()[i]);
                    }
                }
            }
            k = k + 1;
        }
        assert(out@ =~= self.image());
        out
    }

    /// The union whose memory is `b`.
    pub fn from_bytes(b: &[u8; 192]) -> (r: XEvent)
        ensures
            r == XEvent::from_image(b@),
    {
        let mut pad: [c_long; 24] = [0i64; 24];
        let mut k: usize = 0;
        while k < 24
            invariant
                k <= 24,
                b@.len() == EVENT_SIZE,
                forall|j: int| 0 <= j < k ==> #[trigger] pad@[j] == i64_at(b@, 8 * j),
            decreases 24 - k,
        {
            pad[k] = get_i64(b, 8 * k);
            k = k + 1;
        }
        proof {
            XEvent::lemma_from_image_words(b@);
            assert(pad =~= XEvent::from_image(b@).pad);
        }
        XEvent { pad }
    }
}

/// Two unions are equal when their memory is equal byte for byte: this is
/// equality of representation, not of the event they stand for.
impl PartialEq for XEvent {
    fn eq(&self, other: &XEvent) -> (r: bool) {
        let a = self.to_bytes();
        let b = other.to_bytes();
        mem_eq(a.as_slice(), b.as_slice())
    }
}

impl vstd::std_specs::cmp::PartialEqSpecImpl for XEvent {
    open spec fn obeys_eq_spec() -> bool {
        true
    }

    open spec fn eq_spec(&self, other: &XEvent) -> bool {
        self.image() == other.image()
    }
}

/// An event record: one of the shapes the union can hold.
///
/// Each record starts with the `int` discriminant at offset 0, and its C
/// layout fits inside the union.
pub trait EventVariant: Sized {
    /// Size in bytes of the record's C layout.
    spec fn layout_size() -> nat;

    /// The record's memory in its C layout, padding bytes zero.
    spec fn image(self) -> Seq<u8>;

    /// The record whose fields are read at their C offsets in `b`.
    spec fn from_image(b: Seq<u8>) -> Self;

    /// The record's discriminant field.
    spec fn spec_kind(self) -> c_int;

    proof fn lemma_size()
        ensures
            4 <= Self::layout_size() <= EVENT_SIZE,
    ;

    proof fn lemma_image(self)
        ensures
            self.image().len() == Self::layout_size(),
            Self::from_image(self.image()) == self,
            i32_at(self.image(), 0) == self.spec_kind(),
    ;
}

/// The record `V` that the union `e` holds: `V`'s fields read from the
/// union's first `V::layout_size()` bytes.
pub open spec fn union_to_variant<V: EventVariant>(e: XEvent) -> V {
    V::from_image(copy_truncated(e.image(), V::layout_size()))
}

/// The union holding the record `v`: its memory is `v`'s, followed by zeros.
pub open spec fn variant_to_union<V: EventVariant>(v: V) -> XEvent {
    XEvent::from_image(copy_truncated(v.image(), EVENT_SIZE as nat))
}

/// Every record fits in the union.
pub proof fn lemma_size_dominance<V: EventVariant>(v: V)
    ensures
        v.image().len() == V::layout_size(),
        V::layout_size() <= EVENT_SIZE,
{
    V::lemma_size();
    v.lemma_image();
}

/// The memory of the union made from `v` is `v`'s memory, then zeros.
pub proof fn lemma_variant_to_union_image<V: EventVariant>(v: V)
    ensures
        variant_to_union(v).image().subrange(0, V::layout_size() as int) == v.image(),
        variant_to_union(v).image().subrange(V::layout_size() as int, EVENT_SIZE as int)
            == zeros((EVENT_SIZE - V::layout_size()) as nat),
{
    lemma_size_dominance(v);
    let b = copy_truncated(v.image(), EVENT_SIZE as nat);
    XEvent::lemma_from_image(b);
    assert(b.subrange(0, V::layout_size() as int) =~= v.image());
    assert(b.subrange(V::layout_size() as int, EVENT_SIZE as int) =~= zeros(
        (EVENT_SIZE - V::layout_size()) as nat,
    ));
}

/// Putting a record into the union and taking the same record back out gives
/// the record unchanged.
pub proof fn lemma_round_trip<V: EventVariant>(v: V)
    ensures
        union_to_variant::<V>(variant_to_union(v)) == v,
{
    V::lemma_size();
    v.lemma_image();
    let b = copy_truncated(v.image(), EVENT_SIZE as nat);
    XEvent::lemma_from_image(b);
    assert(copy_truncated(b, V::layout_size()) =~= v.image());
}

/// The union made from a record carries the record's discriminant.
pub proof fn lemma_discriminant_preserved<V: EventVariant>(v: V)
    ensures
        variant_to_union(v).spec_kind() == v.spec_kind(),
{
    V::lemma_size();
    v.lemma_image();
    let b = copy_truncated(v.image(), EVENT_SIZE as nat);
    XEvent::lemma_from_image(b);
    assert(b.subrange(0, 4) =~= v.image().subrange(0, 4));
}

/// Reading a record out of the union looks at no byte past the record's own
/// size: unions that agree on those bytes give the same record.
pub proof fn lemma_reads_within_record<V: EventVariant>(e1: XEvent, e2: XEvent)
    requires
        e1.image().subrange(0, V::layout_size() as int) == e2.image().subrange(
            0,
            V::layout_size() as int,
        ),
    ensures
        union_to_variant::<V>(e1) == union_to_variant::<V>(e2),
{
    V::lemma_size();
    e1.lemma_image();
    e2.lemma_image();
    let n = V::layout_size() as int;
    assert forall|i: int| 0 <= i < n implies e1.image()[i] == e2.image()[i] by {
        assert(e1.image().subrange(0, n)[i] == e2.image().subrange(0, n)[i]);
    }
    assert(copy_truncated(e1.image(), V::layout_size()) =~= copy_truncated(
        e2.image(),
        V::layout_size(),
    ));
}

} // verus!
