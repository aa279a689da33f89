//! The event records: one struct for each shape the event union can hold,
//! laid out as the C library lays them out (the LP64 data model: `int` 4
//! bytes, `long` and pointers 8), each starting with its discriminant.
//!
//! Converting a record to `XEvent` copies its memory into a zeroed union;
//! converting back copies the union's first bytes, as many as the record
//! has. Which record a union holds is for the caller to decide from
//! `XEvent::kind`: nothing here checks it.

use crate::client_message::ClientMessageData;
use crate::event::{union_to_variant, variant_to_union, EventVariant, XEvent};
use crate::native::{
    chars_at, chars_bytes, get_chars, get_i32, get_u32, get_u64, group_native, group_signed,
    i32_at, i32_bytes, lemma_chars_round_trip, overwrite, put_chars, put_i32, put_u32, put_u64,
    put_u8, u32_at, u32_bytes, u64_at, u64_bytes, zeros,
};
use crate::raw::transmute_union;
use crate::xlib::{Atom, Bool, Colormap, DisplayAddr, Drawable, Time, Window, XID};
use libc::{c_char, c_int, c_uchar, c_uint, c_ulong};
use vstd::prelude::*;
use vstd::std_specs::convert::FromSpecImpl;

verus! {

/// The fields that every record except the error report starts with.
#[derive(Clone, Copy, PartialEq, Debug)]
pub struct XAnyEvent {
    pub kind: c_int,
    pub serial: c_ulong,
    pub send_event: Bool,
    pub display: DisplayAddr,
    pub window: Window,
}

impl XAnyEvent {
    /// The record's memory in its C layout (40 bytes).
    pub fn to_bytes(&self) -> (r: [u8; 40])
        ensures
            r@ == self.image(),
    {
        let mut out: [u8; 40] = [0u8; 40];
        assert(out@ =~= zeros(40));
        put_i32(&mut out, 0, self.kind);
        put_u64(&mut out, 8, self.serial);
        put_i32(&mut out, 16, self.send_event);
        put_u64(&mut out, 24, self.display);
        put_u64(&mut out, 32, self.window);
        out
    }

    /// The record whose fields are read at their C offsets in `b`.
    pub fn from_bytes(b: &[u8; 40]) -> (r: XAnyEvent)
        ensures
            r == XAnyEvent::from_image(b@),
    {
        XAnyEvent {
            kind: get_i32(b, 0),
            serial: get_u64(b, 8),
            send_event: get_i32(b, 16),
            display: get_u64(b, 24),
            window: get_u64(b, 32),
        }
    }
}

impl EventVariant for XAnyEvent {
    open spec fn layout_size() -> nat {
        40
    }

    open spec fn image(self) -> Seq<u8> {
        let b = zeros(40);
        let b = overwrite(b, 0, i32_bytes(self.kind));
        let b = overwrite(b, 8, u64_bytes(self.serial));
        let b = overwrite(b, 16, i32_bytes(self.send_event));
        let b = overwrite(b, 24, u64_bytes(self.display));
        let b = overwrite(b, 32, u64_bytes(self.window));
        b
    }

    open spec fn from_image(b: Seq<u8>) -> XAnyEvent {
        XAnyEvent {
            kind: i32_at(b, 0),
            serial: u64_at(b, 8),
            send_event: i32_at(b, 16),
            display: u64_at(b, 24),
            window: u64_at(b, 32),
        }
    }

    open spec fn spec_kind(self) -> c_int {
        self.kind
    }

    proof fn lemma_size() {
    }

    proof fn lemma_image(self) {
        broadcast use group_native, group_signed;

        let img = self.image();
        assert(img.subrange(0, 4) =~= i32_bytes(self.kind));
        assert(img.subrange(8, 16) =~= u64_bytes(self.serial));
        assert(img.subrange(16, 20) =~= i32_bytes(self.send_event));
        assert(img.subrange(24, 32) =~= u64_bytes(self.display));
        assert(img.subrange(32, 40) =~= u64_bytes(self.window));
    }
}

impl From<XAnyEvent> for XEvent {
    fn from(e: XAnyEvent) -> XEvent {
        let raw = e.to_bytes();
        let mut image: [u8; 192] = [0u8; 192];
        transmute_union(&raw, &mut image);
        XEvent::from_bytes(&image)
    }
}

impl FromSpecImpl<XAnyEvent> for XEvent {
    open spec fn obeys_from_spec() -> bool {
        true
    }

    open spec fn from_spec(e: XAnyEvent) -> XEvent {
        variant_to_union(e)
    }
}

impl From<XEvent> for XAnyEvent {
    fn from(e: XEvent) -> XAnyEvent {
        let image = e.to_bytes();
        let mut raw: [u8; 40] = [0u8; 40];
        transmute_union(&image, &mut raw);
        XAnyEvent::from_bytes(&raw)
    }
}

impl FromSpecImpl<XEvent> for XAnyEvent {
    open spec fn obeys_from_spec() -> bool {
        true
    }

    open spec fn from_spec(e: XEvent) -> XAnyEvent {
        union_to_variant(e)
    }
}

#[derive(Clone, Copy, PartialEq, Debug)]
pub struct XButtonEvent {
    pub kind: c_int,
    pub serial: c_ulong,
    pub send_event: Bool,
    pub display: DisplayAddr,
    pub window: Window,
    pub root: Window,
    pub subwindow: Window,
    pub time: Time,
    pub x: c_int,
    pub y: c_int,
    pub x_root: c_int,
    pub y_root: c_int,
    pub state: c_uint,
    pub button: c_uint,
    pub same_screen: Bool,
}

pub type XButtonPressedEvent = XButtonEvent;
pub type XButtonReleasedEvent = XButtonEvent;

impl XButtonEvent {
    /// The record's memory in its C layout (96 bytes).
    pub fn to_bytes(&self) -> (r: [u8; 96])
        ensures
            r@ == self.image(),
    {
        let mut out: [u8; 96] = [0u8; 96];
        assert(out@ =~= zeros(96));
        put_i32(&mut out, 0, self.kind);
        put_u64(&mut out, 8, self.serial);
        put_i32(&mut out, 16, self.send_event);
        put_u64(&mut out, 24, self.display);
        put_u64(&mut out, 32, self.window);
        put_u64(&mut out, 40, self.root);
        put_u64(&mut out, 48, self.subwindow);
        put_u64(&mut out, 56, self.time);
        put_i32(&mut out, 64, self.x);
        put_i32(&mut out, 68, self.y);
        put_i32(&mut out, 72, self.x_root);
        put_i32(&mut out, 76, self.y_root);
        put_u32(&mut out, 80, self.state);
        put_u32(&mut out, 84, self.button);
        put_i32(&mut out, 88, self.same_screen);
        out
    }

    /// The record whose fields are read at their C offsets in `b`.
    pub fn from_bytes(b: &[u8; 96]) -> (r: XButtonEvent)
        ensures
            r == XButtonEvent::from_image(b@),
    {
        XButtonEvent {
            kind: get_i32(b, 0),
            serial: get_u64(b, 8),
            send_event: get_i32(b, 16),
            display: get_u64(b, 24),
            window: get_u64(b, 32),
            root: get_u64(b, 40),
            subwindow: get_u64(b, 48),
            time: get_u64(b, 56),
            x: get_i32(b, 64),
            y: get_i32(b, 68),
            x_root: get_i32(b, 72),
            y_root: get_i32(b, 76),
            state: get_u32(b, 80),
            button: get_u32(b, 84),
            same_screen: get_i32(b, 88),
        }
    }
}

impl EventVariant for XButtonEvent {
    open spec fn layout_size() -> nat {
        96
    }

    open spec fn image(self) -> Seq<u8> {
        let b = zeros(96);
        let b = overwrite(b, 0, i32_bytes(self.kind));
        let b = overwrite(b, 8, u64_bytes(self.serial));
        let b = overwrite(b, 16, i32_bytes(self.send_event));
        let b = overwrite(b, 24, u64_bytes(self.display));
        let b = overwrite(b, 32, u64_bytes(self.window));
        let b = overwrite(b, 40, u64_bytes(self.root));
        let b = overwrite(b, 48, u64_bytes(self.subwindow));
        let b = overwrite(b, 56, u64_bytes(self.time));
        let b = overwrite(b, 64, i32_bytes(self.x));
        let b = overwrite(b, 68, i32_bytes(self.y));
        let b = overwrite(b, 72, i32_bytes(self.x_root));
        let b = overwrite(b, 76, i32_bytes(self.y_root));
        let b = overwrite(b, 80, u32_bytes(self.state));
        let b = overwrite(b, 84, u32_bytes(self.button));
        let b = overwrite(b, 88, i32_bytes(self.same_screen));
        b
    }

    open spec fn from_image(b: Seq<u8>) -> XButtonEvent {
        XButtonEvent {
            kind: i32_at(b, 0),
            serial: u64_at(b, 8),
            send_event: i32_at(b, 16),
            display: u64_at(b, 24),
            window: u64_at(b, 32),
            root: u64_at(b, 40),
            subwindow: u64_at(b, 48),
            time: u64_at(b, 56),
            x: i32_at(b, 64),
            y: i32_at(b, 68),
            x_root: i32_at(b, 72),
            y_root: i32_at(b, 76),
            state: u32_at(b, 80),
            button: u32_at(b, 84),
            same_screen: i32_at(b, 88),
        }
    }

    open spec fn spec_kind(self) -> c_int {
        self.kind
    }

    proof fn lemma_size() {
    }

    proof fn lemma_image(self) {
        broadcast use group_native, group_signed;

        let img = self.image();
        assert(img.subrange(0, 4) =~= i32_bytes(self.kind));
        assert(img.subrange(8, 16) =~= u64_bytes(self.serial));
        assert(img.subrange(16, 20) =~= i32_bytes(self.send_event));
        assert(img.subrange(24, 32) =~= u64_bytes(self.display));
        assert(img.subrange(32, 40) =~= u64_bytes(self.window));
        assert(img.subrange(40, 48) =~= u64_bytes(self.root));
        assert(img.subrange(48, 56) =~= u64_bytes(self.subwindow));
        assert(img.subrange(56, 64) =~= u64_bytes(self.time));
        assert(img.subrange(64, 68) =~= i32_bytes(self.x));
        assert(img.subrange(68, 72) =~= i32_bytes(self.y));
        assert(img.subrange(72, 76) =~= i32_bytes(self.x_root));
        assert(img.subrange(76, 80) =~= i32_bytes(self.y_root));
        assert(img.subrange(80, 84) =~= u32_bytes(self.state));
        assert(img.subrange(84, 88) =~= u32_bytes(self.button));
        assert(img.subrange(88, 92) =~= i32_bytes(self.same_screen));
    }
}

impl From<XButtonEvent> for XEvent {
    fn from(e: XButtonEvent) -> XEvent {
        let raw = e.to_bytes();
        let mut image: [u8; 192] = [0u8; 192];
        transmute_union(&raw, &mut image);
        XEvent::from_bytes(&image)
    }
}

impl FromSpecImpl<XButtonEvent> for XEvent {
    open spec fn obeys_from_spec() -> bool {
        true
    }

    open spec fn from_spec(e: XButtonEvent) -> XEvent {
        variant_to_union(e)
    }
}

impl From<XEvent> for XButtonEvent {
    fn from(e: XEvent) -> XButtonEvent {
        let image = e.to_bytes();
        let mut raw: [u8; 96] = [0u8; 96];
        transmute_union(&image, &mut raw);
        XButtonEvent::from_bytes(&raw)
    }
}

impl FromSpecImpl<XEvent> for XButtonEvent {
    open spec fn obeys_from_spec() -> bool {
        true
    }

    open spec fn from_spec(e: XEvent) -> XButtonEvent {
        union_to_variant(e)
    }
}

#[derive(Clone, Copy, PartialEq, Debug)]
pub struct XCirculateEvent {
    pub kind: c_int,
    pub serial: c_ulong,
    pub send_event: Bool,
    pub display: DisplayAddr,
    pub event: Window,
    pub window: Window,
    pub place: c_int,
}

impl XCirculateEvent {
    /// The record's memory in its C layout (56 bytes).
    pub fn to_bytes(&self) -> (r: [u8; 56])
        ensures
            r@ == self.image(),
    {
        let mut out: [u8; 56] = [0u8; 56];
        assert(out@ =~= zeros(56));
        put_i32(&mut out, 0, self.kind);
        put_u64(&mut out, 8, self.serial);
        put_i32(&mut out, 16, self.send_event);
        put_u64(&mut out, 24, self.display);
        put_u64(&mut out, 32, self.event);
        put_u64(&mut out, 40, self.window);
        put_i32(&mut out, 48, self.place);
        out
    }

    /// The record whose fields are read at their C offsets in `b`.
    pub fn from_bytes(b: &[u8; 56]) -> (r: XCirculateEvent)
        ensures
            r == XCirculateEvent::from_image(b@),
    {
        XCirculateEvent {
            kind: get_i32(b, 0),
            serial: get_u64(b, 8),
            send_event: get_i32(b, 16),
            display: get_u64(b, 24),
            event: get_u64(b, 32),
            window: get_u64(b, 40),
            place: get_i32(b, 48),
        }
    }
}

impl EventVariant for XCirculateEvent {
    open spec fn layout_size() -> nat {
        56
    }

    open spec fn image(self) -> Seq<u8> {
        let b = zeros(56);
        let b = overwrite(b, 0, i32_bytes(self.kind));
        let b = overwrite(b, 8, u64_bytes(self.serial));
        let b = overwrite(b, 16, i32_bytes(self.send_event));
        let b = overwrite(b, 24, u64_bytes(self.display));
        let b = overwrite(b, 32, u64_bytes(self.event));
        let b = overwrite(b, 40, u64_bytes(self.window));
        let b = overwrite(b, 48, i32_bytes(self.place));
        b
    }

    open spec fn from_image(b: Seq<u8>) -> XCirculateEvent {
        XCirculateEvent {
            kind: i32_at(b, 0),
            serial: u64_at(b, 8),
            send_event: i32_at(b, 16),
            display: u64_at(b, 24),
            event: u64_at(b, 32),
            window: u64_at(b, 40),
            place: i32_at(b, 48),
        }
    }

    open spec fn spec_kind(self) -> c_int {
        self.kind
    }

    proof fn lemma_size() {
    }

    proof fn lemma_image(self) {
        broadcast use group_native, group_signed;

        let img = self.image();
        assert(img.subrange(0, 4) =~= i32_bytes(self.kind));
        assert(img.subrange(8, 16) =~= u64_bytes(self.serial));
        assert(img.subrange(16, 20) =~= i32_bytes(self.send_event));
        assert(img.subrange(24, 32) =~= u64_bytes(self.display));
        assert(img.subrange(32, 40) =~= u64_bytes(self.event));
        assert(img.subrange(40, 48) =~= u64_bytes(self.window));
        assert(img.subrange(48, 52) =~= i32_bytes(self.place));
    }
}

impl From<XCirculateEvent> for XEvent {
    fn from(e: XCirculateEvent) -> XEvent {
        let raw = e.to_bytes();
        let mut image: [u8; 192] = [0u8; 192];
        transmute_union(&raw, &mut image);
        XEvent::from_bytes(&image)
    }
}

impl FromSpecImpl<XCirculateEvent> for XEvent {
    open spec fn obeys_from_spec() -> bool {
        true
    }

    open spec fn from_spec(e: XCirculateEvent) -> XEvent {
        variant_to_union(e)
    }
}

impl From<XEvent> for XCirculateEvent {
    fn from(e: XEvent) -> XCirculateEvent {
        let image = e.to_bytes();
        let mut raw: [u8; 56] = [0u8; 56];
        transmute_union(&image, &mut raw);
        XCirculateEvent::from_bytes(&raw)
    }
}

impl FromSpecImpl<XEvent> for XCirculateEvent {
    open spec fn obeys_from_spec() -> bool {
        true
    }

    open spec fn from_spec(e: XEvent) -> XCirculateEvent {
        union_to_variant(e)
    }
}

#[derive(Clone, Copy, PartialEq, Debug)]
pub struct XCirculateRequestEvent {
    pub kind: c_int,
    pub serial: c_ulong,
    pub send_event: Bool,
    pub display: DisplayAddr,
    pub parent: Window,
    pub window: Window,
    pub place: c_int,
}

impl XCirculateRequestEvent {
    /// The record's memory in its C layout (56 bytes).
    pub fn to_bytes(&self) -> (r: [u8; 56])
        ensures
            r@ == self.image(),
    {
        let mut out: [u8; 56] = [0u8; 56];
        assert(out@ =~= zeros(56));
        put_i32(&mut out, 0, self.kind);
        put_u64(&mut out, 8, self.serial);
        put_i32(&mut out, 16, self.send_event);
        put_u64(&mut out, 24, self.display);
        put_u64(&mut out, 32, self.parent);
        put_u64(&mut out, 40, self.window);
        put_i32(&mut out, 48, self.place);
        out
    }

    /// The record whose fields are read at their C offsets in `b`.
    pub fn from_bytes(b: &[u8; 56]) -> (r: XCirculateRequestEvent)
        ensures
            r == XCirculateRequestEvent::from_image(b@),
    {
        XCirculateRequestEvent {
            kind: get_i32(b, 0),
            serial: get_u64(b, 8),
            send_event: get_i32(b, 16),
            display: get_u64(b, 24),
            parent: get_u64(b, 32),
            window: get_u64(b, 40),
            place: get_i32(b, 48),
        }
    }
}

impl EventVariant for XCirculateRequestEvent {
    open spec fn layout_size() -> nat {
        56
    }

    open spec fn image(self) -> Seq<u8> {
        let b = zeros(56);
        let b = overwrite(b, 0, i32_bytes(self.kind));
        let b = overwrite(b, 8, u64_bytes(self.serial));
        let b = overwrite(b, 16, i32_bytes(self.send_event));
        let b = overwrite(b, 24, u64_bytes(self.display));
        let b = overwrite(b, 32, u64_bytes(self.parent));
        let b = overwrite(b, 40, u64_bytes(self.window));
        let b = overwrite(b, 48, i32_bytes(self.place));
        b
    }

    open spec fn from_image(b: Seq<u8>) -> XCirculateRequestEvent {
        XCirculateRequestEvent {
            kind: i32_at(b, 0),
            serial: u64_at(b, 8),
            send_event: i32_at(b, 16),
            display: u64_at(b, 24),
            parent: u64_at(b, 32),
            window: u64_at(b, 40),
            place: i32_at(b, 48),
        }
    }

    open spec fn spec_kind(self) -> c_int {
        self.kind
    }

    proof fn lemma_size() {
    }

    proof fn lemma_image(self) {
        broadcast use group_native, group_signed;

        let img = self.image();
        assert(img.subrange(0, 4) =~= i32_bytes(self.kind));
        assert(img.subrange(8, 16) =~= u64_bytes(self.serial));
        assert(img.subrange(16, 20) =~= i32_bytes(self.send_event));
        assert(img.subrange(24, 32) =~= u64_bytes(self.display));
        assert(img.subrange(32, 40) =~= u64_bytes(self.parent));
        assert(img.subrange(40, 48) =~= u64_bytes(self.window));
        assert(img.subrange(48, 52) =~= i32_bytes(self.place));
    }
}

impl From<XCirculateRequestEvent> for XEvent {
    fn from(e: XCirculateRequestEvent) -> XEvent {
        let raw = e.to_bytes();
        let mut image: [u8; 192] = [0u8; 192];
        transmute_union(&raw, &mut image);
        XEvent::from_bytes(&image)
    }
}

impl FromSpecImpl<XCirculateRequestEvent> for XEvent {
    open spec fn obeys_from_spec() -> bool {
        true
    }

    open spec fn from_spec(e: XCirculateRequestEvent) -> XEvent {
        variant_to_union(e)
    }
}

impl From<XEvent> for XCirculateRequestEvent {
    fn from(e: XEvent) -> XCirculateRequestEvent {
        let image = e.to_bytes();
        let mut raw: [u8; 56] = [0u8; 56];
        transmute_union(&image, &mut raw);
        XCirculateRequestEvent::from_bytes(&raw)
    }
}

impl FromSpecImpl<XEvent> for XCirculateRequestEvent {
    open spec fn obeys_from_spec() -> bool {
        true
    }

    open spec fn from_spec(e: XEvent) -> XCirculateRequestEvent {
        union_to_variant(e)
    }
}

/// A message from another client; `data` is read and written through
/// `ClientMessageData`'s byte, half-word and word views.
#[derive(Clone, Copy, PartialEq, Debug)]
pub struct XClientMessageEvent {
    pub kind: c_int,
    pub serial: c_ulong,
    pub send_event: Bool,
    pub display: DisplayAddr,
    pub window: Window,
    pub message_type: Atom,
    pub format: c_int,
    pub data: ClientMessageData,
}

impl XClientMessageEvent {
    /// The record's memory in its C layout (96 bytes).
    pub fn to_bytes(&self) -> (r: [u8; 96])
        ensures
            r@ == self.image(),
    {
        let mut out: [u8; 96] = [0u8; 96];
        assert(out@ =~= zeros(96));
        put_i32(&mut out, 0, self.kind);
        put_u64(&mut out, 8, self.serial);
        put_i32(&mut out, 16, self.send_event);
        put_u64(&mut out, 24, self.display);
        put_u64(&mut out, 32, self.window);
        put_u64(&mut out, 40, self.message_type);
        put_i32(&mut out, 48, self.format);
        self.data.write_to(&mut out, 56);
        out
    }

    /// The record whose fields are read at their C offsets in `b`.
    pub fn from_bytes(b: &[u8; 96]) -> (r: XClientMessageEvent)
        ensures
            r == XClientMessageEvent::from_image(b@),
    {
        XClientMessageEvent {
            kind: get_i32(b, 0),
            serial: get_u64(b, 8),
            send_event: get_i32(b, 16),
            display: get_u64(b, 24),
            window: get_u64(b, 32),
            message_type: get_u64(b, 40),
            format: get_i32(b, 48),
            data: ClientMessageData::read_from(b, 56),
        }
    }
}

impl EventVariant for XClientMessageEvent {
    open spec fn layout_size() -> nat {
        96
    }

    open spec fn image(self) -> Seq<u8> {
        let b = zeros(96);
        let b = overwrite(b, 0, i32_bytes(self.kind));
        let b = overwrite(b, 8, u64_bytes(self.serial));
        let b = overwrite(b, 16, i32_bytes(self.send_event));
        let b = overwrite(b, 24, u64_bytes(self.display));
        let b = overwrite(b, 32, u64_bytes(self.window));
        let b = overwrite(b, 40, u64_bytes(self.message_type));
        let b = overwrite(b, 48, i32_bytes(self.format));
        let b = overwrite(b, 56, self.data.image());
        b
    }

    open spec fn from_image(b: Seq<u8>) -> XClientMessageEvent {
        XClientMessageEvent {
            kind: i32_at(b, 0),
            serial: u64_at(b, 8),
            send_event: i32_at(b, 16),
            display: u64_at(b, 24),
            window: u64_at(b, 32),
            message_type: u64_at(b, 40),
            format: i32_at(b, 48),
            data: ClientMessageData::from_image(b.subrange(56, 96)),
        }
    }

    open spec fn spec_kind(self) -> c_int {
        self.kind
    }

    proof fn lemma_size() {
    }

    proof fn lemma_image(self) {
        broadcast use group_native, group_signed;

        let img = self.image();
        assert(img.subrange(0, 4) =~= i32_bytes(self.kind));
        assert(img.subrange(8, 16) =~= u64_bytes(self.serial));
        assert(img.subrange(16, 20) =~= i32_bytes(self.send_event));
        assert(img.subrange(24, 32) =~= u64_bytes(self.display));
        assert(img.subrange(32, 40) =~= u64_bytes(self.window));
        assert(img.subrange(40, 48) =~= u64_bytes(self.message_type));
        assert(img.subrange(48, 52) =~= i32_bytes(self.format));
        self.data.lemma_words();
        assert(img.subrange(56, 96) =~= self.data.image());
        self.data.lemma_image_round_trip();
    }
}

impl From<XClientMessageEvent> for XEvent {
    fn from(e: XClientMessageEvent) -> XEvent {
        let raw = e.to_bytes();
        let mut image: [u8; 192] = [0u8; 192];
        transmute_union(&raw, &mut image);
        XEvent::from_bytes(&image)
    }
}

impl FromSpecImpl<XClientMessageEvent> for XEvent {
    open spec fn obeys_from_spec() -> bool {
        true
    }

    open spec fn from_spec(e: XClientMessageEvent) -> XEvent {
        variant_to_union(e)
    }
}

impl From<XEvent> for XClientMessageEvent {
    fn from(e: XEvent) -> XClientMessageEvent {
        let image = e.to_bytes();
        let mut raw: [u8; 96] = [0u8; 96];
        transmute_union(&image, &mut raw);
        XClientMessageEvent::from_bytes(&raw)
    }
}

impl FromSpecImpl<XEvent> for XClientMessageEvent {
    open spec fn obeys_from_spec() -> bool {
        true
    }

    open spec fn from_spec(e: XEvent) -> XClientMessageEvent {
        union_to_variant(e)
    }
}

#[derive(Clone, Copy, PartialEq, Debug)]
pub struct XColormapEvent {
    pub kind: c_int,
    pub serial: c_ulong,
    pub send_event: Bool,
    pub display: DisplayAddr,
    pub window: Window,
    pub colormap: Colormap,
    pub new: Bool,
    pub state: c_int,
}

impl XColormapEvent {
    /// The record's memory in its C layout (56 bytes).
    pub fn to_bytes(&self) -> (r: [u8; 56])
        ensures
            r@ == self.image(),
    {
        let mut out: [u8; 56] = [0u8; 56];
        assert(out@ =~= zeros(56));
        put_i32(&mut out, 0, self.kind);
        put_u64(&mut out, 8, self.serial);
        put_i32(&mut out, 16, self.send_event);
        put_u64(&mut out, 24, self.display);
        put_u64(&mut out, 32, self.window);
        put_u64(&mut out, 40, self.colormap);
        put_i32(&mut out, 48, self.new);
        put_i32(&mut out, 52, self.state);
        out
    }

    /// The record whose fields are read at their C offsets in `b`.
    pub fn from_bytes(b: &[u8; 56]) -> (r: XColormapEvent)
        ensures
            r == XColormapEvent::from_image(b@),
    {
        XColormapEvent {
            kind: get_i32(b, 0),
            serial: get_u64(b, 8),
            send_event: get_i32(b, 16),
            display: get_u64(b, 24),
            window: get_u64(b, 32),
            colormap: get_u64(b, 40),
            new: get_i32(b, 48),
            state: get_i32(b, 52),
        }
    }
}

impl EventVariant for XColormapEvent {
    open spec fn layout_size() -> nat {
        56
    }

    open spec fn image(self) -> Seq<u8> {
        let b = zeros(56);
        let b = overwrite(b, 0, i32_bytes(self.kind));
        let b = overwrite(b, 8, u64_bytes(self.serial));
        let b = overwrite(b, 16, i32_bytes(self.send_event));
        let b = overwrite(b, 24, u64_bytes(self.display));
        let b = overwrite(b, 32, u64_bytes(self.window));
        let b = overwrite(b, 40, u64_bytes(self.colormap));
        let b = overwrite(b, 48, i32_bytes(self.new));
        let b = overwrite(b, 52, i32_bytes(self.state));
        b
    }

    open spec fn from_image(b: Seq<u8>) -> XColormapEvent {
        XColormapEvent {
            kind: i32_at(b, 0),
            serial: u64_at(b, 8),
            send_event: i32_at(b, 16),
            display: u64_at(b, 24),
            window: u64_at(b, 32),
            colormap: u64_at(b, 40),
            new: i32_at(b, 48),
            state: i32_at(b, 52),
        }
    }

    open spec fn spec_kind(self) -> c_int {
        self.kind
    }

    proof fn lemma_size() {
    }

    proof fn lemma_image(self) {
        broadcast use group_native, group_signed;

        let img = self.image();
        assert(img.subrange(0, 4) =~= i32_bytes(self.kind));
        assert(img.subrange(8, 16) =~= u64_bytes(self.serial));
        assert(img.subrange(16, 20) =~= i32_bytes(self.send_event));
        assert(img.subrange(24, 32) =~= u64_bytes(self.display));
        assert(img.subrange(32, 40) =~= u64_bytes(self.window));
        assert(img.subrange(40, 48) =~= u64_bytes(self.colormap));
        assert(img.subrange(48, 52) =~= i32_bytes(self.new));
        assert(img.subrange(52, 56) =~= i32_bytes(self.state));
    }
}

impl From<XColormapEvent> for XEvent {
    fn from(e: XColormapEvent) -> XEvent {
        let raw = e.to_bytes();
        let mut image: [u8; 192] = [0u8; 192];
        transmute_union(&raw, &mut image);
        XEvent::from_bytes(&image)
    }
}

impl FromSpecImpl<XColormapEvent> for XEvent {
    open spec fn obeys_from_spec() -> bool {
        true
    }

    open spec fn from_spec(e: XColormapEvent) -> XEvent {
        variant_to_union(e)
    }
}

impl From<XEvent> for XColormapEvent {
    fn from(e: XEvent) -> XColormapEvent {
        let image = e.to_bytes();
        let mut raw: [u8; 56] = [0u8; 56];
        transmute_union(&image, &mut raw);
        XColormapEvent::from_bytes(&raw)
    }
}

impl FromSpecImpl<XEvent> for XColormapEvent {
    open spec fn obeys_from_spec() -> bool {
        true
    }

    open spec fn from_spec(e: XEvent) -> XColormapEvent {
        union_to_variant(e)
    }
}

#[derive(Clone, Copy, PartialEq, Debug)]
pub struct XConfigureEvent {
    pub kind: c_int,
    pub serial: c_ulong,
    pub send_event: Bool,
    pub display: DisplayAddr,
    pub event: Window,
    pub window: Window,
    pub x: c_int,
    pub y: c_int,
    pub width: c_int,
    pub height: c_int,
    pub border_width: c_int,
    pub above: Window,
    pub override_redirect: Bool,
}

impl XConfigureEvent {
    /// The record's memory in its C layout (88 bytes).
    pub fn to_bytes(&self) -> (r: [u8; 88])
        ensures
            r@ == self.image(),
    {
        let mut out: [u8; 88] = [0u8; 88];
        assert(out@ =~= zeros(88));
        put_i32(&mut out, 0, self.kind);
        put_u64(&mut out, 8, self.serial);
        put_i32(&mut out, 16, self.send_event);
        put_u64(&mut out, 24, self.display);
        put_u64(&mut out, 32, self.event);
        put_u64(&mut out, 40, self.window);
        put_i32(&mut out, 48, self.x);
        put_i32(&mut out, 52, self.y);
        put_i32(&mut out, 56, self.width);
        put_i32(&mut out, 60, self.height);
        put_i32(&mut out, 64, self.border_width);
        put_u64(&mut out, 72, self.above);
        put_i32(&mut out, 80, self.override_redirect);
        out
    }

    /// The record whose fields are read at their C offsets in `b`.
    pub fn from_bytes(b: &[u8; 88]) -> (r: XConfigureEvent)
        ensures
            r == XConfigureEvent::from_image(b@),
    {
        XConfigureEvent {
            kind: get_i32(b, 0),
            serial: get_u64(b, 8),
            send_event: get_i32(b, 16),
            display: get_u64(b, 24),
            event: get_u64(b, 32),
            window: get_u64(b, 40),
            x: get_i32(b, 48),
            y: get_i32(b, 52),
            width: get_i32(b, 56),
            height: get_i32(b, 60),
            border_width: get_i32(b, 64),
            above: get_u64(b, 72),
            override_redirect: get_i32(b, 80),
        }
    }
}

impl EventVariant for XConfigureEvent {
    open spec fn layout_size() -> nat {
        88
    }

    open spec fn image(self) -> Seq<u8> {
        let b = zeros(88);
        let b = overwrite(b, 0, i32_bytes(self.kind));
        let b = overwrite(b, 8, u64_bytes(self.serial));
        let b = overwrite(b, 16, i32_bytes(self.send_event));
        let b = overwrite(b, 24, u64_bytes(self.display));
        let b = overwrite(b, 32, u64_bytes(self.event));
        let b = overwrite(b, 40, u64_bytes(self.window));
        let b = overwrite(b, 48, i32_bytes(self.x));
        let b = overwrite(b, 52, i32_bytes(self.y));
        let b = overwrite(b, 56, i32_bytes(self.width));
        let b = overwrite(b, 60, i32_bytes(self.height));
        let b = overwrite(b, 64, i32_bytes(self.border_width));
        let b = overwrite(b, 72, u64_bytes(self.above));
        let b = overwrite(b, 80, i32_bytes(self.override_redirect));
        b
    }

    open spec fn from_image(b: Seq<u8>) -> XConfigureEvent {
        XConfigureEvent {
            kind: i32_at(b, 0),
            serial: u64_at(b, 8),
            send_event: i32_at(b, 16),
            display: u64_at(b, 24),
            event: u64_at(b, 32),
            window: u64_at(b, 40),
            x: i32_at(b, 48),
            y: i32_at(b, 52),
            width: i32_at(b, 56),
            height: i32_at(b, 60),
            border_width: i32_at(b, 64),
            above: u64_at(b, 72),
            override_redirect: i32_at(b, 80),
        }
    }

    open spec fn spec_kind(self) -> c_int {
        self.kind
    }

    proof fn lemma_size() {
    }

    proof fn lemma_image(self) {
        broadcast use group_native, group_signed;

        let img = self.image();
        assert(img.subrange(0, 4) =~= i32_bytes(self.kind));
        assert(img.subrange(8, 16) =~= u64_bytes(self.serial));
        assert(img.subrange(16, 20) =~= i32_bytes(self.send_event));
        assert(img.subrange(24, 32) =~= u64_bytes(self.display));
        assert(img.subrange(32, 40) =~= u64_bytes(self.event));
        assert(img.subrange(40, 48) =~= u64_bytes(self.window));
        assert(img.subrange(48, 52) =~= i32_bytes(self.x));
        assert(img.subrange(52, 56) =~= i32_bytes(self.y));
        assert(img.subrange(56, 60) =~= i32_bytes(self.width));
        assert(img.subrange(60, 64) =~= i32_bytes(self.height));
        assert(img.subrange(64, 68) =~= i32_bytes(self.border_width));
        assert(img.subrange(72, 80) =~= u64_bytes(self.above));
        assert(img.subrange(80, 84) =~= i32_bytes(self.override_redirect));
    }
}

impl From<XConfigureEvent> for XEvent {
    fn from(e: XConfigureEvent) -> XEvent {
        let raw = e.to_bytes();
        let mut image: [u8; 192] = [0u8; 192];
        transmute_union(&raw, &mut image);
        XEvent::from_bytes(&image)
    }
}

impl FromSpecImpl<XConfigureEvent> for XEvent {
    open spec fn obeys_from_spec() -> bool {
        true
    }

    open spec fn from_spec(e: XConfigureEvent) -> XEvent {
        variant_to_union(e)
    }
}

impl From<XEvent> for XConfigureEvent {
    fn from(e: XEvent) -> XConfigureEvent {
        let image = e.to_bytes();
        let mut raw: [u8; 88] = [0u8; 88];
        transmute_union(&image, &mut raw);
        XConfigureEvent::from_bytes(&raw)
    }
}

impl FromSpecImpl<XEvent> for XConfigureEvent {
    open spec fn obeys_from_spec() -> bool {
        true
    }

    open spec fn from_spec(e: XEvent) -> XConfigureEvent {
        union_to_variant(e)
    }
}

#[derive(Clone, Copy, PartialEq, Debug)]
pub struct XConfigureRequestEvent {
    pub kind: c_int,
    pub serial: c_ulong,
    pub send_event: Bool,
    pub display: DisplayAddr,
    pub parent: Window,
    pub window: Window,
    pub x: c_int,
    pub y: c_int,
    pub width: c_int,
    pub height: c_int,
    pub border_width: c_int,
    pub above: Window,
    pub detail: c_int,
    pub value_mask: c_ulong,
}

impl XConfigureRequestEvent {
    /// The record's memory in its C layout (96 bytes).
    pub fn to_bytes(&self) -> (r: [u8; 96])
        ensures
            r@ == self.image(),
    {
        let mut out: [u8; 96] = [0u8; 96];
        assert(out@ =~= zeros(96));
        put_i32(&mut out, 0, self.kind);
        put_u64(&mut out, 8, self.serial);
        put_i32(&mut out, 16, self.send_event);
        put_u64(&mut out, 24, self.display);
        put_u64(&mut out, 32, self.parent);
        put_u64(&mut out, 40, self.window);
        put_i32(&mut out, 48, self.x);
        put_i32(&mut out, 52, self.y);
        put_i32(&mut out, 56, self.width);
        put_i32(&mut out, 60, self.height);
        put_i32(&mut out, 64, self.border_width);
        put_u64(&mut out, 72, self.above);
        put_i32(&mut out, 80, self.detail);
        put_u64(&mut out, 88, self.value_mask);
        out
    }

    /// The record whose fields are read at their C offsets in `b`.
    pub fn from_bytes(b: &[u8; 96]) -> (r: XConfigureRequestEvent)
        ensures
            r == XConfigureRequestEvent::from_image(b@),
    {
        XConfigureRequestEvent {
            kind: get_i32(b, 0),
            serial: get_u64(b, 8),
            send_event: get_i32(b, 16),
            display: get_u64(b, 24),
            parent: get_u64(b, 32),
            window: get_u64(b, 40),
            x: get_i32(b, 48),
            y: get_i32(b, 52),
            width: get_i32(b, 56),
            height: get_i32(b, 60),
            border_width: get_i32(b, 64),
            above: get_u64(b, 72),
            detail: get_i32(b, 80),
            value_mask: get_u64(b, 88),
        }
    }
}

impl EventVariant for XConfigureRequestEvent {
    open spec fn layout_size() -> nat {
        96
    }

    open spec fn image(self) -> Seq<u8> {
        let b = zeros(96);
        let b = overwrite(b, 0, i32_bytes(self.kind));
        let b = overwrite(b, 8, u64_bytes(self.serial));
        let b = overwrite(b, 16, i32_bytes(self.send_event));
        let b = overwrite(b, 24, u64_bytes(self.display));
        let b = overwrite(b, 32, u64_bytes(self.parent));
        let b = overwrite(b, 40, u64_bytes(self.window));
        let b = overwrite(b, 48, i32_bytes(self.x));
        let b = overwrite(b, 52, i32_bytes(self.y));
        let b = overwrite(b, 56, i32_bytes(self.width));
        let b = overwrite(b, 60, i32_bytes(self.height));
        let b = overwrite(b, 64, i32_bytes(self.border_width));
        let b = overwrite(b, 72, u64_bytes(self.above));
        let b = overwrite(b, 80, i32_bytes(self.detail));
        let b = overwrite(b, 88, u64_bytes(self.value_mask));
        b
    }

    open spec fn from_image(b: Seq<u8>) -> XConfigureRequestEvent {
        XConfigureRequestEvent {
            kind: i32_at(b, 0),
            serial: u64_at(b, 8),
            send_event: i32_at(b, 16),
            display: u64_at(b, 24),
            parent: u64_at(b, 32),
            window: u64_at(b, 40),
            x: i32_at(b, 48),
            y: i32_at(b, 52),
            width: i32_at(b, 56),
            height: i32_at(b, 60),
            border_width: i32_at(b, 64),
            above: u64_at(b, 72),
            detail: i32_at(b, 80),
            value_mask: u64_at(b, 88),
        }
    }

    open spec fn spec_kind(self) -> c_int {
        self.kind
    }

    proof fn lemma_size() {
    }

    proof fn lemma_image(self) {
        broadcast use group_native, group_signed;

        let img = self.image();
        assert(img.subrange(0, 4) =~= i32_bytes(self.kind));
        assert(img.subrange(8, 16) =~= u64_bytes(self.serial));
        assert(img.subrange(16, 20) =~= i32_bytes(self.send_event));
        assert(img.subrange(24, 32) =~= u64_bytes(self.display));
        assert(img.subrange(32, 40) =~= u64_bytes(self.parent));
        assert(img.subrange(40, 48) =~= u64_bytes(self.window));
        assert(img.subrange(48, 52) =~= i32_bytes(self.x));
        assert(img.subrange(52, 56) =~= i32_bytes(self.y));
        assert(img.subrange(56, 60) =~= i32_bytes(self.width));
        assert(img.subrange(60, 64) =~= i32_bytes(self.height));
        assert(img.subrange(64, 68) =~= i32_bytes(self.border_width));
        assert(img.subrange(72, 80) =~= u64_bytes(self.above));
        assert(img.subrange(80, 84) =~= i32_bytes(self.detail));
        assert(img.subrange(88, 96) =~= u64_bytes(self.value_mask));
    }
}

impl From<XConfigureRequestEvent> for XEvent {
    fn from(e: XConfigureRequestEvent) -> XEvent {
        let raw = e.to_bytes();
        let mut image: [u8; 192] = [0u8; 192];
        transmute_union(&raw, &mut image);
        XEvent::from_bytes(&image)
    }
}

impl FromSpecImpl<XConfigureRequestEvent> for XEvent {
    open spec fn obeys_from_spec() -> bool {
        true
    }

    open spec fn from_spec(e: XConfigureRequestEvent) -> XEvent {
        variant_to_union(e)
    }
}

impl From<XEvent> for XConfigureRequestEvent {
    fn from(e: XEvent) -> XConfigureRequestEvent {
        let image = e.to_bytes();
        let mut raw: [u8; 96] = [0u8; 96];
        transmute_union(&image, &mut raw);
        XConfigureRequestEvent::from_bytes(&raw)
    }
}

impl FromSpecImpl<XEvent> for XConfigureRequestEvent {
    open spec fn obeys_from_spec() -> bool {
        true
    }

    open spec fn from_spec(e: XEvent) -> XConfigureRequestEvent {
        union_to_variant(e)
    }
}

#[derive(Clone, Copy, PartialEq, Debug)]
pub struct XCreateWindowEvent {
    pub kind: c_int,
    pub serial: c_ulong,
    pub send_event: Bool,
    pub display: DisplayAddr,
    pub parent: Window,
    pub window: Window,
    pub x: c_int,
    pub y: c_int,
    pub width: c_int,
    pub height: c_int,
    pub border_width: c_int,
    pub override_redirect: Bool,
}

impl XCreateWindowEvent {
    /// The record's memory in its C layout (72 bytes).
    pub fn to_bytes(&self) -> (r: [u8; 72])
        ensures
            r@ == self.image(),
    {
        let mut out: [u8; 72] = [0u8; 72];
        assert(out@ =~= zeros(72));
        put_i32(&mut out, 0, self.kind);
        put_u64(&mut out, 8, self.serial);
        put_i32(&mut out, 16, self.send_event);
        put_u64(&mut out, 24, self.display);
        put_u64(&mut out, 32, self.parent);
        put_u64(&mut out, 40, self.window);
        put_i32(&mut out, 48, self.x);
        put_i32(&mut out, 52, self.y);
        put_i32(&mut out, 56, self.width);
        put_i32(&mut out, 60, self.height);
        put_i32(&mut out, 64, self.border_width);
        put_i32(&mut out, 68, self.override_redirect);
        out
    }

    /// The record whose fields are read at their C offsets in `b`.
    pub fn from_bytes(b: &[u8; 72]) -> (r: XCreateWindowEvent)
        ensures
            r == XCreateWindowEvent::from_image(b@),
    {
        XCreateWindowEvent {
            kind: get_i32(b, 0),
            serial: get_u64(b, 8),
            send_event: get_i32(b, 16),
            display: get_u64(b, 24),
            parent: get_u64(b, 32),
            window: get_u64(b, 40),
            x: get_i32(b, 48),
            y: get_i32(b, 52),
            width: get_i32(b, 56),
            height: get_i32(b, 60),
            border_width: get_i32(b, 64),
            override_redirect: get_i32(b, 68),
        }
    }
}

impl EventVariant for XCreateWindowEvent {
    open spec fn layout_size() -> nat {
        72
    }

    open spec fn image(self) -> Seq<u8> {
        let b = zeros(72);
        let b = overwrite(b, 0, i32_bytes(self.kind));
        let b = overwrite(b, 8, u64_bytes(self.serial));
        let b = overwrite(b, 16, i32_bytes(self.send_event));
        let b = overwrite(b, 24, u64_bytes(self.display));
        let b = overwrite(b, 32, u64_bytes(self.parent));
        let b = overwrite(b, 40, u64_bytes(self.window));
        let b = overwrite(b, 48, i32_bytes(self.x));
        let b = overwrite(b, 52, i32_bytes(self.y));
        let b = overwrite(b, 56, i32_bytes(self.width));
        let b = overwrite(b, 60, i32_bytes(self.height));
        let b = overwrite(b, 64, i32_bytes(self.border_width));
        let b = overwrite(b, 68, i32_bytes(self.override_redirect));
        b
    }

    open spec fn from_image(b: Seq<u8>) -> XCreateWindowEvent {
        XCreateWindowEvent {
            kind: i32_at(b, 0),
            serial: u64_at(b, 8),
            send_event: i32_at(b, 16),
            display: u64_at(b, 24),
            parent: u64_at(b, 32),
            window: u64_at(b, 40),
            x: i32_at(b, 48),
            y: i32_at(b, 52),
            width: i32_at(b, 56),
            height: i32_at(b, 60),
            border_width: i32_at(b, 64),
            override_redirect: i32_at(b, 68),
        }
    }

    open spec fn spec_kind(self) -> c_int {
        self.kind
    }

    proof fn lemma_size() {
    }

    proof fn lemma_image(self) {
        broadcast use group_native, group_signed;

        let img = self.image();
        assert(img.subrange(0, 4) =~= i32_bytes(self.kind));
        assert(img.subrange(8, 16) =~= u64_bytes(self.serial));
        assert(img.subrange(16, 20) =~= i32_bytes(self.send_event));
        assert(img.subrange(24, 32) =~= u64_bytes(self.display));
        assert(img.subrange(32, 40) =~= u64_bytes(self.parent));
        assert(img.subrange(40, 48) =~= u64_bytes(self.window));
        assert(img.subrange(48, 52) =~= i32_bytes(self.x));
        assert(img.subrange(52, 56) =~= i32_bytes(self.y));
        assert(img.subrange(56, 60) =~= i32_bytes(self.width));
        assert(img.subrange(60, 64) =~= i32_bytes(self.height));
        assert(img.subrange(64, 68) =~= i32_bytes(self.border_width));
        assert(img.subrange(68, 72) =~= i32_bytes(self.override_redirect));
    }
}

impl From<XCreateWindowEvent> for XEvent {
    fn from(e: XCreateWindowEvent) -> XEvent {
        let raw = e.to_bytes();
        let mut image: [u8; 192] = [0u8; 192];
        transmute_union(&raw, &mut image);
        XEvent::from_bytes(&image)
    }
}

impl FromSpecImpl<XCreateWindowEvent> for XEvent {
    open spec fn obeys_from_spec() -> bool {
        true
    }

    open spec fn from_spec(e: XCreateWindowEvent) -> XEvent {
        variant_to_union(e)
    }
}

impl From<XEvent> for XCreateWindowEvent {
    fn from(e: XEvent) -> XCreateWindowEvent {
        let image = e.to_bytes();
        let mut raw: [u8; 72] = [0u8; 72];
        transmute_union(&image, &mut raw);
        XCreateWindowEvent::from_bytes(&raw)
    }
}

impl FromSpecImpl<XEvent> for XCreateWindowEvent {
    open spec fn obeys_from_spec() -> bool {
        true
    }

    open spec fn from_spec(e: XEvent) -> XCreateWindowEvent {
        union_to_variant(e)
    }
}

#[derive(Clone, Copy, PartialEq, Debug)]
pub struct XCrossingEvent {
    pub kind: c_int,
    pub serial: c_ulong,
    pub send_event: Bool,
    pub display: DisplayAddr,
    pub window: Window,
    pub root: Window,
    pub subwindow: Window,
    pub time: Time,
    pub x: c_int,
    pub y: c_int,
    pub x_root: c_int,
    pub y_root: c_int,
    pub mode: c_int,
    pub detail: c_int,
    pub same_screen: Bool,
    pub focus: Bool,
    pub state: c_uint,
}

pub type XEnterWindowEvent = XCrossingEvent;
pub type XLeaveWindowEvent = XCrossingEvent;

impl XCrossingEvent {
    /// The record's memory in its C layout (104 bytes).
    pub fn to_bytes(&self) -> (r: [u8; 104])
        ensures
            r@ == self.image(),
    {
        let mut out: [u8; 104] = [0u8; 104];
        assert(out@ =~= zeros(104));
        put_i32(&mut out, 0, self.kind);
        put_u64(&mut out, 8, self.serial);
        put_i32(&mut out, 16, self.send_event);
        put_u64(&mut out, 24, self.display);
        put_u64(&mut out, 32, self.window);
        put_u64(&mut out, 40, self.root);
        put_u64(&mut out, 48, self.subwindow);
        put_u64(&mut out, 56, self.time);
        put_i32(&mut out, 64, self.x);
        put_i32(&mut out, 68, self.y);
        put_i32(&mut out, 72, self.x_root);
        put_i32(&mut out, 76, self.y_root);
        put_i32(&mut out, 80, self.mode);
        put_i32(&mut out, 84, self.detail);
        put_i32(&mut out, 88, self.same_screen);
        put_i32(&mut out, 92, self.focus);
        put_u32(&mut out, 96, self.state);
        out
    }

    /// The record whose fields are read at their C offsets in `b`.
    pub fn from_bytes(b: &[u8; 104]) -> (r: XCrossingEvent)
        ensures
            r == XCrossingEvent::from_image(b@),
    {
        XCrossingEvent {
            kind: get_i32(b, 0),
            serial: get_u64(b, 8),
            send_event: get_i32(b, 16),
            display: get_u64(b, 24),
            window: get_u64(b, 32),
            root: get_u64(b, 40),
            subwindow: get_u64(b, 48),
            time: get_u64(b, 56),
            x: get_i32(b, 64),
            y: get_i32(b, 68),
            x_root: get_i32(b, 72),
            y_root: get_i32(b, 76),
            mode: get_i32(b, 80),
            detail: get_i32(b, 84),
            same_screen: get_i32(b, 88),
            focus: get_i32(b, 92),
            state: get_u32(b, 96),
        }
    }
}

impl EventVariant for XCrossingEvent {
    open spec fn layout_size() -> nat {
        104
    }

    open spec fn image(self) -> Seq<u8> {
        let b = zeros(104);
        let b = overwrite(b, 0, i32_bytes(self.kind));
        let b = overwrite(b, 8, u64_bytes(self.serial));
        let b = overwrite(b, 16, i32_bytes(self.send_event));
        let b = overwrite(b, 24, u64_bytes(self.display));
        let b = overwrite(b, 32, u64_bytes(self.window));
        let b = overwrite(b, 40, u64_bytes(self.root));
        let b = overwrite(b, 48, u64_bytes(self.subwindow));
        let b = overwrite(b, 56, u64_bytes(self.time));
        let b = overwrite(b, 64, i32_bytes(self.x));
        let b = overwrite(b, 68, i32_bytes(self.y));
        let b = overwrite(b, 72, i32_bytes(self.x_root));
        let b = overwrite(b, 76, i32_bytes(self.y_root));
        let b = overwrite(b, 80, i32_bytes(self.mode));
        let b = overwrite(b, 84, i32_bytes(self.detail));
        let b = overwrite(b, 88, i32_bytes(self.same_screen));
        let b = overwrite(b, 92, i32_bytes(self.focus));
        let b = overwrite(b, 96, u32_bytes(self.state));
        b
    }

    open spec fn from_image(b: Seq<u8>) -> XCrossingEvent {
        XCrossingEvent {
            kind: i32_at(b, 0),
            serial: u64_at(b, 8),
            send_event: i32_at(b, 16),
            display: u64_at(b, 24),
            window: u64_at(b, 32),
            root: u64_at(b, 40),
            subwindow: u64_at(b, 48),
            time: u64_at(b, 56),
            x: i32_at(b, 64),
            y: i32_at(b, 68),
            x_root: i32_at(b, 72),
            y_root: i32_at(b, 76),
            mode: i32_at(b, 80),
            detail: i32_at(b, 84),
            same_screen: i32_at(b, 88),
            focus: i32_at(b, 92),
            state: u32_at(b, 96),
        }
    }

    open spec fn spec_kind(self) -> c_int {
        self.kind
    }

    proof fn lemma_size() {
    }

    proof fn lemma_image(self) {
        broadcast use group_native, group_signed;

        let img = self.image();
        assert(img.subrange(0, 4) =~= i32_bytes(self.kind));
        assert(img.subrange(8, 16) =~= u64_bytes(self.serial));
        assert(img.subrange(16, 20) =~= i32_bytes(self.send_event));
        assert(img.subrange(24, 32) =~= u64_bytes(self.display));
        assert(img.subrange(32, 40) =~= u64_bytes(self.window));
        assert(img.subrange(40, 48) =~= u64_bytes(self.root));
        assert(img.subrange(48, 56) =~= u64_bytes(self.subwindow));
        assert(img.subrange(56, 64) =~= u64_bytes(self.time));
        assert(img.subrange(64, 68) =~= i32_bytes(self.x));
        assert(img.subrange(68, 72) =~= i32_bytes(self.y));
        assert(img.subrange(72, 76) =~= i32_bytes(self.x_root));
        assert(img.subrange(76, 80) =~= i32_bytes(self.y_root));
        assert(img.subrange(80, 84) =~= i32_bytes(self.mode));
        assert(img.subrange(84, 88) =~= i32_bytes(self.detail));
        assert(img.subrange(88, 92) =~= i32_bytes(self.same_screen));
        assert(img.subrange(92, 96) =~= i32_bytes(self.focus));
        assert(img.subrange(96, 100) =~= u32_bytes(self.state));
    }
}

impl From<XCrossingEvent> for XEvent {
    fn from(e: XCrossingEvent) -> XEvent {
        let raw = e.to_bytes();
        let mut image: [u8; 192] = [0u8; 192];
        transmute_union(&raw, &mut image);
        XEvent::from_bytes(&image)
    }
}

impl FromSpecImpl<XCrossingEvent> for XEvent {
    open spec fn obeys_from_spec() -> bool {
        true
    }

    open spec fn from_spec(e: XCrossingEvent) -> XEvent {
        variant_to_union(e)
    }
}

impl From<XEvent> for XCrossingEvent {
    fn from(e: XEvent) -> XCrossingEvent {
        let image = e.to_bytes();
        let mut raw: [u8; 104] = [0u8; 104];
        transmute_union(&image, &mut raw);
        XCrossingEvent::from_bytes(&raw)
    }
}

impl FromSpecImpl<XEvent> for XCrossingEvent {
    open spec fn obeys_from_spec() -> bool {
        true
    }

    open spec fn from_spec(e: XEvent) -> XCrossingEvent {
        union_to_variant(e)
    }
}

#[derive(Clone, Copy, PartialEq, Debug)]
pub struct XDestroyWindowEvent {
    pub kind: c_int,
    pub serial: c_ulong,
    pub send_event: Bool,
    pub display: DisplayAddr,
    pub event: Window,
    pub window: Window,
}

impl XDestroyWindowEvent {
    /// The record's memory in its C layout (48 bytes).
    pub fn to_bytes(&self) -> (r: [u8; 48])
        ensures
            r@ == self.image(),
    {
        let mut out: [u8; 48] = [0u8; 48];
        assert(out@ =~= zeros(48));
        put_i32(&mut out, 0, self.kind);
        put_u64(&mut out, 8, self.serial);
        put_i32(&mut out, 16, self.send_event);
        put_u64(&mut out, 24, self.display);
        put_u64(&mut out, 32, self.event);
        put_u64(&mut out, 40, self.window);
        out
    }

    /// The record whose fields are read at their C offsets in `b`.
    pub fn from_bytes(b: &[u8; 48]) -> (r: XDestroyWindowEvent)
        ensures
            r == XDestroyWindowEvent::from_image(b@),
    {
        XDestroyWindowEvent {
            kind: get_i32(b, 0),
            serial: get_u64(b, 8),
            send_event: get_i32(b, 16),
            display: get_u64(b, 24),
            event: get_u64(b, 32),
            window: get_u64(b, 40),
        }
    }
}

impl EventVariant for XDestroyWindowEvent {
    open spec fn layout_size() -> nat {
        48
    }

    open spec fn image(self) -> Seq<u8> {
        let b = zeros(48);
        let b = overwrite(b, 0, i32_bytes(self.kind));
        let b = overwrite(b, 8, u64_bytes(self.serial));
        let b = overwrite(b, 16, i32_bytes(self.send_event));
        let b = overwrite(b, 24, u64_bytes(self.display));
        let b = overwrite(b, 32, u64_bytes(self.event));
        let b = overwrite(b, 40, u64_bytes(self.window));
        b
    }

    open spec fn from_image(b: Seq<u8>) -> XDestroyWindowEvent {
        XDestroyWindowEvent {
            kind: i32_at(b, 0),
            serial: u64_at(b, 8),
            send_event: i32_at(b, 16),
            display: u64_at(b, 24),
            event: u64_at(b, 32),
            window: u64_at(b, 40),
        }
    }

    open spec fn spec_kind(self) -> c_int {
        self.kind
    }

    proof fn lemma_size() {
    }

    proof fn lemma_image(self) {
        broadcast use group_native, group_signed;

        let img = self.image();
        assert(img.subrange(0, 4) =~= i32_bytes(self.kind));
        assert(img.subrange(8, 16) =~= u64_bytes(self.serial));
        assert(img.subrange(16, 20) =~= i32_bytes(self.send_event));
        assert(img.subrange(24, 32) =~= u64_bytes(self.display));
        assert(img.subrange(32, 40) =~= u64_bytes(self.event));
        assert(img.subrange(40, 48) =~= u64_bytes(self.window));
    }
}

impl From<XDestroyWindowEvent> for XEvent {
    fn from(e: XDestroyWindowEvent) -> XEvent {
        let raw = e.to_bytes();
        let mut image: [u8; 192] = [0u8; 192];
        transmute_union(&raw, &mut image);
        XEvent::from_bytes(&image)
    }
}

impl FromSpecImpl<XDestroyWindowEvent> for XEvent {
    open spec fn obeys_from_spec() -> bool {
        true
    }

    open spec fn from_spec(e: XDestroyWindowEvent) -> XEvent {
        variant_to_union(e)
    }
}

impl From<XEvent> for XDestroyWindowEvent {
    fn from(e: XEvent) -> XDestroyWindowEvent {
        let image = e.to_bytes();
        let mut raw: [u8; 48] = [0u8; 48];
        transmute_union(&image, &mut raw);
        XDestroyWindowEvent::from_bytes(&raw)
    }
}

impl FromSpecImpl<XEvent> for XDestroyWindowEvent {
    open spec fn obeys_from_spec() -> bool {
        true
    }

    open spec fn from_spec(e: XEvent) -> XDestroyWindowEvent {
        union_to_variant(e)
    }
}

/// An error report. Its layout differs from every other record's: it has
/// no `send_event` flag, and the display comes before the serial number.
/// The C library defines it so, and so it stays.
#[derive(Clone, Copy, PartialEq, Debug)]
pub struct XErrorEvent {
    pub kind: c_int,
    pub display: DisplayAddr,
    pub serial: c_ulong,
    pub error_code: c_uchar,
    pub request_code: c_uchar,
    pub minor_code: c_uchar,
    pub resourceid: XID,
}

impl XErrorEvent {
    /// The record's memory in its C layout (40 bytes).
    pub fn to_bytes(&self) -> (r: [u8; 40])
        ensures
            r@ == self.image(),
    {
        let mut out: [u8; 40] = [0u8; 40];
        assert(out@ =~= zeros(40));
        put_i32(&mut out, 0, self.kind);
        put_u64(&mut out, 8, self.display);
        put_u64(&mut out, 16, self.serial);
        put_u8(&mut out, 24, self.error_code);
        put_u8(&mut out, 25, self.request_code);
        put_u8(&mut out, 26, self.minor_code);
        put_u64(&mut out, 32, self.resourceid);
        out
    }

    /// The record whose fields are read at their C offsets in `b`.
    pub fn from_bytes(b: &[u8; 40]) -> (r: XErrorEvent)
        ensures
            r == XErrorEvent::from_image(b@),
    {
        XErrorEvent {
            kind: get_i32(b, 0),
            display: get_u64(b, 8),
            serial: get_u64(b, 16),
            error_code: b[24],
            request_code: b[25],
            minor_code: b[26],
            resourceid: get_u64(b, 32),
        }
    }
}

impl EventVariant for XErrorEvent {
    open spec fn layout_size() -> nat {
        40
    }

    open spec fn image(self) -> Seq<u8> {
        let b = zeros(40);
        let b = overwrite(b, 0, i32_bytes(self.kind));
        let b = overwrite(b, 8, u64_bytes(self.display));
        let b = overwrite(b, 16, u64_bytes(self.serial));
        let b = overwrite(b, 24, seq![self.error_code]);
        let b = overwrite(b, 25, seq![self.request_code]);
        let b = overwrite(b, 26, seq![self.minor_code]);
        let b = overwrite(b, 32, u64_bytes(self.resourceid));
        b
    }

    open spec fn from_image(b: Seq<u8>) -> XErrorEvent {
        XErrorEvent {
            kind: i32_at(b, 0),
            display: u64_at(b, 8),
            serial: u64_at(b, 16),
            error_code: b[24],
            request_code: b[25],
            minor_code: b[26],
            resourceid: u64_at(b, 32),
        }
    }

    open spec fn spec_kind(self) -> c_int {
        self.kind
    }

    proof fn lemma_size() {
    }

    proof fn lemma_image(self) {
        broadcast use group_native, group_signed;

        let img = self.image();
        assert(img.subrange(0, 4) =~= i32_bytes(self.kind));
        assert(img.subrange(8, 16) =~= u64_bytes(self.display));
        assert(img.subrange(16, 24) =~= u64_bytes(self.serial));
        assert(img[24] == self.error_code);
        assert(img[25] == self.request_code);
        assert(img[26] == self.minor_code);
        assert(img.subrange(32, 40) =~= u64_bytes(self.resourceid));
    }
}

impl From<XErrorEvent> for XEvent {
    fn from(e: XErrorEvent) -> XEvent {
        let raw = e.to_bytes();
        let mut image: [u8; 192] = [0u8; 192];
        transmute_union(&raw, &mut image);
        XEvent::from_bytes(&image)
    }
}

impl FromSpecImpl<XErrorEvent> for XEvent {
    open spec fn obeys_from_spec() -> bool {
        true
    }

    open spec fn from_spec(e: XErrorEvent) -> XEvent {
        variant_to_union(e)
    }
}

impl From<XEvent> for XErrorEvent {
    fn from(e: XEvent) -> XErrorEvent {
        let image = e.to_bytes();
        let mut raw: [u8; 40] = [0u8; 40];
        transmute_union(&image, &mut raw);
        XErrorEvent::from_bytes(&raw)
    }
}

impl FromSpecImpl<XEvent> for XErrorEvent {
    open spec fn obeys_from_spec() -> bool {
        true
    }

    open spec fn from_spec(e: XEvent) -> XErrorEvent {
        union_to_variant(e)
    }
}

#[derive(Clone, Copy, PartialEq, Debug)]
pub struct XExposeEvent {
    pub kind: c_int,
    pub serial: c_ulong,
    pub send_event: Bool,
    pub display: DisplayAddr,
    pub window: Window,
    pub x: c_int,
    pub y: c_int,
    pub width: c_int,
    pub height: c_int,
    pub count: c_int,
}

impl XExposeEvent {
    /// The record's memory in its C layout (64 bytes).
    pub fn to_bytes(&self) -> (r: [u8; 64])
        ensures
            r@ == self.image(),
    {
        let mut out: [u8; 64] = [0u8; 64];
        assert(out@ =~= zeros(64));
        put_i32(&mut out, 0, self.kind);
        put_u64(&mut out, 8, self.serial);
        put_i32(&mut out, 16, self.send_event);
        put_u64(&mut out, 24, self.display);
        put_u64(&mut out, 32, self.window);
        put_i32(&mut out, 40, self.x);
        put_i32(&mut out, 44, self.y);
        put_i32(&mut out, 48, self.width);
        put_i32(&mut out, 52, self.height);
        put_i32(&mut out, 56, self.count);
        out
    }

    /// The record whose fields are read at their C offsets in `b`.
    pub fn from_bytes(b: &[u8; 64]) -> (r: XExposeEvent)
        ensures
            r == XExposeEvent::from_image(b@),
    {
        XExposeEvent {
            kind: get_i32(b, 0),
            serial: get_u64(b, 8),
            send_event: get_i32(b, 16),
            display: get_u64(b, 24),
            window: get_u64(b, 32),
            x: get_i32(b, 40),
            y: get_i32(b, 44),
            width: get_i32(b, 48),
            height: get_i32(b, 52),
            count: get_i32(b, 56),
        }
    }
}

impl EventVariant for XExposeEvent {
    open spec fn layout_size() -> nat {
        64
    }

    open spec fn image(self) -> Seq<u8> {
        let b = zeros(64);
        let b = overwrite(b, 0, i32_bytes(self.kind));
        let b = overwrite(b, 8, u64_bytes(self.serial));
        let b = overwrite(b, 16, i32_bytes(self.send_event));
        let b = overwrite(b, 24, u64_bytes(self.display));
        let b = overwrite(b, 32, u64_bytes(self.window));
        let b = overwrite(b, 40, i32_bytes(self.x));
        let b = overwrite(b, 44, i32_bytes(self.y));
        let b = overwrite(b, 48, i32_bytes(self.width));
        let b = overwrite(b, 52, i32_bytes(self.height));
        let b = overwrite(b, 56, i32_bytes(self.count));
        b
    }

    open spec fn from_image(b: Seq<u8>) -> XExposeEvent {
        XExposeEvent {
            kind: i32_at(b, 0),
            serial: u64_at(b, 8),
            send_event: i32_at(b, 16),
            display: u64_at(b, 24),
            window: u64_at(b, 32),
            x: i32_at(b, 40),
            y: i32_at(b, 44),
            width: i32_at(b, 48),
            height: i32_at(b, 52),
            count: i32_at(b, 56),
        }
    }

    open spec fn spec_kind(self) -> c_int {
        self.kind
    }

    proof fn lemma_size() {
    }

    proof fn lemma_image(self) {
        broadcast use group_native, group_signed;

        let img = self.image();
        assert(img.subrange(0, 4) =~= i32_bytes(self.kind));
        assert(img.subrange(8, 16) =~= u64_bytes(self.serial));
        assert(img.subrange(16, 20) =~= i32_bytes(self.send_event));
        assert(img.subrange(24, 32) =~= u64_bytes(self.display));
        assert(img.subrange(32, 40) =~= u64_bytes(self.window));
        assert(img.subrange(40, 44) =~= i32_bytes(self.x));
        assert(img.subrange(44, 48) =~= i32_bytes(self.y));
        assert(img.subrange(48, 52) =~= i32_bytes(self.width));
        assert(img.subrange(52, 56) =~= i32_bytes(self.height));
        assert(img.subrange(56, 60) =~= i32_bytes(self.count));
    }
}

impl From<XExposeEvent> for XEvent {
    fn from(e: XExposeEvent) -> XEvent {
        let raw = e.to_bytes();
        let mut image: [u8; 192] = [0u8; 192];
        transmute_union(&raw, &mut image);
        XEvent::from_bytes(&image)
    }
}

impl FromSpecImpl<XExposeEvent> for XEvent {
    open spec fn obeys_from_spec() -> bool {
        true
    }

    open spec fn from_spec(e: XExposeEvent) -> XEvent {
        variant_to_union(e)
    }
}

impl From<XEvent> for XExposeEvent {
    fn from(e: XEvent) -> XExposeEvent {
        let image = e.to_bytes();
        let mut raw: [u8; 64] = [0u8; 64];
        transmute_union(&image, &mut raw);
        XExposeEvent::from_bytes(&raw)
    }
}

impl FromSpecImpl<XEvent> for XExposeEvent {
    open spec fn obeys_from_spec() -> bool {
        true
    }

    open spec fn from_spec(e: XEvent) -> XExposeEvent {
        union_to_variant(e)
    }
}

#[derive(Clone, Copy, PartialEq, Debug)]
pub struct XFocusChangeEvent {
    pub kind: c_int,
    pub serial: c_ulong,
    pub send_event: Bool,
    pub display: DisplayAddr,
    pub window: Window,
    pub mode: c_int,
    pub detail: c_int,
}

pub type XFocusInEvent = XFocusChangeEvent;
pub type XFocusOutEvent = XFocusChangeEvent;

impl XFocusChangeEvent {
    /// The record's memory in its C layout (48 bytes).
    pub fn to_bytes(&self) -> (r: [u8; 48])
        ensures
            r@ == self.image(),
    {
        let mut out: [u8; 48] = [0u8; 48];
        assert(out@ =~= zeros(48));
        put_i32(&mut out, 0, self.kind);
        put_u64(&mut out, 8, self.serial);
        put_i32(&mut out, 16, self.send_event);
        put_u64(&mut out, 24, self.display);
        put_u64(&mut out, 32, self.window);
        put_i32(&mut out, 40, self.mode);
        put_i32(&mut out, 44, self.detail);
        out
    }

    /// The record whose fields are read at their C offsets in `b`.
    pub fn from_bytes(b: &[u8; 48]) -> (r: XFocusChangeEvent)
        ensures
            r == XFocusChangeEvent::from_image(b@),
    {
        XFocusChangeEvent {
            kind: get_i32(b, 0),
            serial: get_u64(b, 8),
            send_event: get_i32(b, 16),
            display: get_u64(b, 24),
            window: get_u64(b, 32),
            mode: get_i32(b, 40),
            detail: get_i32(b, 44),
        }
    }
}

impl EventVariant for XFocusChangeEvent {
    open spec fn layout_size() -> nat {
        48
    }

    open spec fn image(self) -> Seq<u8> {
        let b = zeros(48);
        let b = overwrite(b, 0, i32_bytes(self.kind));
        let b = overwrite(b, 8, u64_bytes(self.serial));
        let b = overwrite(b, 16, i32_bytes(self.send_event));
        let b = overwrite(b, 24, u64_bytes(self.display));
        let b = overwrite(b, 32, u64_bytes(self.window));
        let b = overwrite(b, 40, i32_bytes(self.mode));
        let b = overwrite(b, 44, i32_bytes(self.detail));
        b
    }

    open spec fn from_image(b: Seq<u8>) -> XFocusChangeEvent {
        XFocusChangeEvent {
            kind: i32_at(b, 0),
            serial: u64_at(b, 8),
            send_event: i32_at(b, 16),
            display: u64_at(b, 24),
            window: u64_at(b, 32),
            mode: i32_at(b, 40),
            detail: i32_at(b, 44),
        }
    }

    open spec fn spec_kind(self) -> c_int {
        self.kind
    }

    proof fn lemma_size() {
    }

    proof fn lemma_image(self) {
        broadcast use group_native, group_signed;

        let img = self.image();
        assert(img.subrange(0, 4) =~= i32_bytes(self.kind));
        assert(img.subrange(8, 16) =~= u64_bytes(self.serial));
        assert(img.subrange(16, 20) =~= i32_bytes(self.send_event));
        assert(img.subrange(24, 32) =~= u64_bytes(self.display));
        assert(img.subrange(32, 40) =~= u64_bytes(self.window));
        assert(img.subrange(40, 44) =~= i32_bytes(self.mode));
        assert(img.subrange(44, 48) =~= i32_bytes(self.detail));
    }
}

impl From<XFocusChangeEvent> for XEvent {
    fn from(e: XFocusChangeEvent) -> XEvent {
        let raw = e.to_bytes();
        let mut image: [u8; 192] = [0u8; 192];
        transmute_union(&raw, &mut image);
        XEvent::from_bytes(&image)
    }
}

impl FromSpecImpl<XFocusChangeEvent> for XEvent {
    open spec fn obeys_from_spec() -> bool {
        true
    }

    open spec fn from_spec(e: XFocusChangeEvent) -> XEvent {
        variant_to_union(e)
    }
}

impl From<XEvent> for XFocusChangeEvent {
    fn from(e: XEvent) -> XFocusChangeEvent {
        let image = e.to_bytes();
        let mut raw: [u8; 48] = [0u8; 48];
        transmute_union(&image, &mut raw);
        XFocusChangeEvent::from_bytes(&raw)
    }
}

impl FromSpecImpl<XEvent> for XFocusChangeEvent {
    open spec fn obeys_from_spec() -> bool {
        true
    }

    open spec fn from_spec(e: XEvent) -> XFocusChangeEvent {
        union_to_variant(e)
    }
}

#[derive(Clone, Copy, PartialEq, Debug)]
pub struct XGraphicsExposeEvent {
    pub kind: c_int,
    pub serial: c_ulong,
    pub send_event: Bool,
    pub display: DisplayAddr,
    pub drawable: Drawable,
    pub x: c_int,
    pub y: c_int,
    pub width: c_int,
    pub height: c_int,
    pub count: c_int,
    pub major_code: c_int,
    pub minor_code: c_int,
}

impl XGraphicsExposeEvent {
    /// The record's memory in its C layout (72 bytes).
    pub fn to_bytes(&self) -> (r: [u8; 72])
        ensures
            r@ == self.image(),
    {
        let mut out: [u8; 72] = [0u8; 72];
        assert(out@ =~= zeros(72));
        put_i32(&mut out, 0, self.kind);
        put_u64(&mut out, 8, self.serial);
        put_i32(&mut out, 16, self.send_event);
        put_u64(&mut out, 24, self.display);
        put_u64(&mut out, 32, self.drawable);
        put_i32(&mut out, 40, self.x);
        put_i32(&mut out, 44, self.y);
        put_i32(&mut out, 48, self.width);
        put_i32(&mut out, 52, self.height);
        put_i32(&mut out, 56, self.count);
        put_i32(&mut out, 60, self.major_code);
        put_i32(&mut out, 64, self.minor_code);
        out
    }

    /// The record whose fields are read at their C offsets in `b`.
    pub fn from_bytes(b: &[u8; 72]) -> (r: XGraphicsExposeEvent)
        ensures
            r == XGraphicsExposeEvent::from_image(b@),
    {
        XGraphicsExposeEvent {
            kind: get_i32(b, 0),
            serial: get_u64(b, 8),
            send_event: get_i32(b, 16),
            display: get_u64(b, 24),
            drawable: get_u64(b, 32),
            x: get_i32(b, 40),
            y: get_i32(b, 44),
            width: get_i32(b, 48),
            height: get_i32(b, 52),
            count: get_i32(b, 56),
            major_code: get_i32(b, 60),
            minor_code: get_i32(b, 64),
        }
    }
}

impl EventVariant for XGraphicsExposeEvent {
    open spec fn layout_size() -> nat {
        72
    }

    open spec fn image(self) -> Seq<u8> {
        let b = zeros(72);
        let b = overwrite(b, 0, i32_bytes(self.kind));
        let b = overwrite(b, 8, u64_bytes(self.serial));
        let b = overwrite(b, 16, i32_bytes(self.send_event));
        let b = overwrite(b, 24, u64_bytes(self.display));
        let b = overwrite(b, 32, u64_bytes(self.drawable));
        let b = overwrite(b, 40, i32_bytes(self.x));
        let b = overwrite(b, 44, i32_bytes(self.y));
        let b = overwrite(b, 48, i32_bytes(self.width));
        let b = overwrite(b, 52, i32_bytes(self.height));
        let b = overwrite(b, 56, i32_bytes(self.count));
        let b = overwrite(b, 60, i32_bytes(self.major_code));
        let b = overwrite(b, 64, i32_bytes(self.minor_code));
        b
    }

    open spec fn from_image(b: Seq<u8>) -> XGraphicsExposeEvent {
        XGraphicsExposeEvent {
            kind: i32_at(b, 0),
            serial: u64_at(b, 8),
            send_event: i32_at(b, 16),
            display: u64_at(b, 24),
            drawable: u64_at(b, 32),
            x: i32_at(b, 40),
            y: i32_at(b, 44),
            width: i32_at(b, 48),
            height: i32_at(b, 52),
            count: i32_at(b, 56),
            major_code: i32_at(b, 60),
            minor_code: i32_at(b, 64),
        }
    }

    open spec fn spec_kind(self) -> c_int {
        self.kind
    }

    proof fn lemma_size() {
    }

    proof fn lemma_image(self) {
        broadcast use group_native, group_signed;

        let img = self.image();
        assert(img.subrange(0, 4) =~= i32_bytes(self.kind));
        assert(img.subrange(8, 16) =~= u64_bytes(self.serial));
        assert(img.subrange(16, 20) =~= i32_bytes(self.send_event));
        assert(img.subrange(24, 32) =~= u64_bytes(self.display));
        assert(img.subrange(32, 40) =~= u64_bytes(self.drawable));
        assert(img.subrange(40, 44) =~= i32_bytes(self.x));
        assert(img.subrange(44, 48) =~= i32_bytes(self.y));
        assert(img.subrange(48, 52) =~= i32_bytes(self.width));
        assert(img.subrange(52, 56) =~= i32_bytes(self.height));
        assert(img.subrange(56, 60) =~= i32_bytes(self.count));
        assert(img.subrange(60, 64) =~= i32_bytes(self.major_code));
        assert(img.subrange(64, 68) =~= i32_bytes(self.minor_code));
    }
}

impl From<XGraphicsExposeEvent> for XEvent {
    fn from(e: XGraphicsExposeEvent) -> XEvent {
        let raw = e.to_bytes();
        let mut image: [u8; 192] = [0u8; 192];
        transmute_union(&raw, &mut image);
        XEvent::from_bytes(&image)
    }
}

impl FromSpecImpl<XGraphicsExposeEvent> for XEvent {
    open spec fn obeys_from_spec() -> bool {
        true
    }

    open spec fn from_spec(e: XGraphicsExposeEvent) -> XEvent {
        variant_to_union(e)
    }
}

impl From<XEvent> for XGraphicsExposeEvent {
    fn from(e: XEvent) -> XGraphicsExposeEvent {
        let image = e.to_bytes();
        let mut raw: [u8; 72] = [0u8; 72];
        transmute_union(&image, &mut raw);
        XGraphicsExposeEvent::from_bytes(&raw)
    }
}

impl FromSpecImpl<XEvent> for XGraphicsExposeEvent {
    open spec fn obeys_from_spec() -> bool {
        true
    }

    open spec fn from_spec(e: XEvent) -> XGraphicsExposeEvent {
        union_to_variant(e)
    }
}

#[derive(Clone, Copy, PartialEq, Debug)]
pub struct XGravityEvent {
    pub kind: c_int,
    pub serial: c_ulong,
    pub send_event: Bool,
    pub display: DisplayAddr,
    pub event: Window,
    pub window: Window,
    pub x: c_int,
    pub y: c_int,
}

impl XGravityEvent {
    /// The record's memory in its C layout (56 bytes).
    pub fn to_bytes(&self) -> (r: [u8; 56])
        ensures
            r@ == self.image(),
    {
        let mut out: [u8; 56] = [0u8; 56];
        assert(out@ =~= zeros(56));
        put_i32(&mut out, 0, self.kind);
        put_u64(&mut out, 8, self.serial);
        put_i32(&mut out, 16, self.send_event);
        put_u64(&mut out, 24, self.display);
        put_u64(&mut out, 32, self.event);
        put_u64(&mut out, 40, self.window);
        put_i32(&mut out, 48, self.x);
        put_i32(&mut out, 52, self.y);
        out
    }

    /// The record whose fields are read at their C offsets in `b`.
    pub fn from_bytes(b: &[u8; 56]) -> (r: XGravityEvent)
        ensures
            r == XGravityEvent::from_image(b@),
    {
        XGravityEvent {
            kind: get_i32(b, 0),
            serial: get_u64(b, 8),
            send_event: get_i32(b, 16),
            display: get_u64(b, 24),
            event: get_u64(b, 32),
            window: get_u64(b, 40),
            x: get_i32(b, 48),
            y: get_i32(b, 52),
        }
    }
}

impl EventVariant for XGravityEvent {
    open spec fn layout_size() -> nat {
        56
    }

    open spec fn image(self) -> Seq<u8> {
        let b = zeros(56);
        let b = overwrite(b, 0, i32_bytes(self.kind));
        let b = overwrite(b, 8, u64_bytes(self.serial));
        let b = overwrite(b, 16, i32_bytes(self.send_event));
        let b = overwrite(b, 24, u64_bytes(self.display));
        let b = overwrite(b, 32, u64_bytes(self.event));
        let b = overwrite(b, 40, u64_bytes(self.window));
        let b = overwrite(b, 48, i32_bytes(self.x));
        let b = overwrite(b, 52, i32_bytes(self.y));
        b
    }

    open spec fn from_image(b: Seq<u8>) -> XGravityEvent {
        XGravityEvent {
            kind: i32_at(b, 0),
            serial: u64_at(b, 8),
            send_event: i32_at(b, 16),
            display: u64_at(b, 24),
            event: u64_at(b, 32),
            window: u64_at(b, 40),
            x: i32_at(b, 48),
            y: i32_at(b, 52),
        }
    }

    open spec fn spec_kind(self) -> c_int {
        self.kind
    }

    proof fn lemma_size() {
    }

    proof fn lemma_image(self) {
        broadcast use group_native, group_signed;

        let img = self.image();
        assert(img.subrange(0, 4) =~= i32_bytes(self.kind));
        assert(img.subrange(8, 16) =~= u64_bytes(self.serial));
        assert(img.subrange(16, 20) =~= i32_bytes(self.send_event));
        assert(img.subrange(24, 32) =~= u64_bytes(self.display));
        assert(img.subrange(32, 40) =~= u64_bytes(self.event));
        assert(img.subrange(40, 48) =~= u64_bytes(self.window));
        assert(img.subrange(48, 52) =~= i32_bytes(self.x));
        assert(img.subrange(52, 56) =~= i32_bytes(self.y));
    }
}

impl From<XGravityEvent> for XEvent {
    fn from(e: XGravityEvent) -> XEvent {
        let raw = e.to_bytes();
        let mut image: [u8; 192] = [0u8; 192];
        transmute_union(&raw, &mut image);
        XEvent::from_bytes(&image)
    }
}

impl FromSpecImpl<XGravityEvent> for XEvent {
    open spec fn obeys_from_spec() -> bool {
        true
    }

    open spec fn from_spec(e: XGravityEvent) -> XEvent {
        variant_to_union(e)
    }
}

impl From<XEvent> for XGravityEvent {
    fn from(e: XEvent) -> XGravityEvent {
        let image = e.to_bytes();
        let mut raw: [u8; 56] = [0u8; 56];
        transmute_union(&image, &mut raw);
        XGravityEvent::from_bytes(&raw)
    }
}

impl FromSpecImpl<XEvent> for XGravityEvent {
    open spec fn obeys_from_spec() -> bool {
        true
    }

    open spec fn from_spec(e: XEvent) -> XGravityEvent {
        union_to_variant(e)
    }
}

#[derive(Clone, Copy, PartialEq, Debug)]
pub struct XKeyEvent {
    pub kind: c_int,
    pub serial: c_ulong,
    pub send_event: Bool,
    pub display: DisplayAddr,
    pub window: Window,
    pub root: Window,
    pub subwindow: Window,
    pub time: Time,
    pub x: c_int,
    pub y: c_int,
    pub x_root: c_int,
    pub y_root: c_int,
    pub state: c_uint,
    pub keycode: c_uint,
    pub same_screen: Bool,
}

pub type XKeyPressedEvent = XKeyEvent;
pub type XKeyReleasedEvent = XKeyEvent;

impl XKeyEvent {
    /// The record's memory in its C layout (96 bytes).
    pub fn to_bytes(&self) -> (r: [u8; 96])
        ensures
            r@ == self.image(),
    {
        let mut out: [u8; 96] = [0u8; 96];
        assert(out@ =~= zeros(96));
        put_i32(&mut out, 0, self.kind);
        put_u64(&mut out, 8, self.serial);
        put_i32(&mut out, 16, self.send_event);
        put_u64(&mut out, 24, self.display);
        put_u64(&mut out, 32, self.window);
        put_u64(&mut out, 40, self.root);
        put_u64(&mut out, 48, self.subwindow);
        put_u64(&mut out, 56, self.time);
        put_i32(&mut out, 64, self.x);
        put_i32(&mut out, 68, self.y);
        put_i32(&mut out, 72, self.x_root);
        put_i32(&mut out, 76, self.y_root);
        put_u32(&mut out, 80, self.state);
        put_u32(&mut out, 84, self.keycode);
        put_i32(&mut out, 88, self.same_screen);
        out
    }

    /// The record whose fields are read at their C offsets in `b`.
    pub fn from_bytes(b: &[u8; 96]) -> (r: XKeyEvent)
        ensures
            r == XKeyEvent::from_image(b@),
    {
        XKeyEvent {
            kind: get_i32(b, 0),
            serial: get_u64(b, 8),
            send_event: get_i32(b, 16),
            display: get_u64(b, 24),
            window: get_u64(b, 32),
            root: get_u64(b, 40),
            subwindow: get_u64(b, 48),
            time: get_u64(b, 56),
            x: get_i32(b, 64),
            y: get_i32(b, 68),
            x_root: get_i32(b, 72),
            y_root: get_i32(b, 76),
            state: get_u32(b, 80),
            keycode: get_u32(b, 84),
            same_screen: get_i32(b, 88),
        }
    }
}

impl EventVariant for XKeyEvent {
    open spec fn layout_size() -> nat {
        96
    }

    open spec fn image(self) -> Seq<u8> {
        let b = zeros(96);
        let b = overwrite(b, 0, i32_bytes(self.kind));
        let b = overwrite(b, 8, u64_bytes(self.serial));
        let b = overwrite(b, 16, i32_bytes(self.send_event));
        let b = overwrite(b, 24, u64_bytes(self.display));
        let b = overwrite(b, 32, u64_bytes(self.window));
        let b = overwrite(b, 40, u64_bytes(self.root));
        let b = overwrite(b, 48, u64_bytes(self.subwindow));
        let b = overwrite(b, 56, u64_bytes(self.time));
        let b = overwrite(b, 64, i32_bytes(self.x));
        let b = overwrite(b, 68, i32_bytes(self.y));
        let b = overwrite(b, 72, i32_bytes(self.x_root));
        let b = overwrite(b, 76, i32_bytes(self.y_root));
        let b = overwrite(b, 80, u32_bytes(self.state));
        let b = overwrite(b, 84, u32_bytes(self.keycode));
        let b = overwrite(b, 88, i32_bytes(self.same_screen));
        b
    }

    open spec fn from_image(b: Seq<u8>) -> XKeyEvent {
        XKeyEvent {
            kind: i32_at(b, 0),
            serial: u64_at(b, 8),
            send_event: i32_at(b, 16),
            display: u64_at(b, 24),
            window: u64_at(b, 32),
            root: u64_at(b, 40),
            subwindow: u64_at(b, 48),
            time: u64_at(b, 56),
            x: i32_at(b, 64),
            y: i32_at(b, 68),
            x_root: i32_at(b, 72),
            y_root: i32_at(b, 76),
            state: u32_at(b, 80),
            keycode: u32_at(b, 84),
            same_screen: i32_at(b, 88),
        }
    }

    open spec fn spec_kind(self) -> c_int {
        self.kind
    }

    proof fn lemma_size() {
    }

    proof fn lemma_image(self) {
        broadcast use group_native, group_signed;

        let img = self.image();
        assert(img.subrange(0, 4) =~= i32_bytes(self.kind));
        assert(img.subrange(8, 16) =~= u64_bytes(self.serial));
        assert(img.subrange(16, 20) =~= i32_bytes(self.send_event));
        assert(img.subrange(24, 32) =~= u64_bytes(self.display));
        assert(img.subrange(32, 40) =~= u64_bytes(self.window));
        assert(img.subrange(40, 48) =~= u64_bytes(self.root));
        assert(img.subrange(48, 56) =~= u64_bytes(self.subwindow));
        assert(img.subrange(56, 64) =~= u64_bytes(self.time));
        assert(img.subrange(64, 68) =~= i32_bytes(self.x));
        assert(img.subrange(68, 72) =~= i32_bytes(self.y));
        assert(img.subrange(72, 76) =~= i32_bytes(self.x_root));
        assert(img.subrange(76, 80) =~= i32_bytes(self.y_root));
        assert(img.subrange(80, 84) =~= u32_bytes(self.state));
        assert(img.subrange(84, 88) =~= u32_bytes(self.keycode));
        assert(img.subrange(88, 92) =~= i32_bytes(self.same_screen));
    }
}

impl From<XKeyEvent> for XEvent {
    fn from(e: XKeyEvent) -> XEvent {
        let raw = e.to_bytes();
        let mut image: [u8; 192] = [0u8; 192];
        transmute_union(&raw, &mut image);
        XEvent::from_bytes(&image)
    }
}

impl FromSpecImpl<XKeyEvent> for XEvent {
    open spec fn obeys_from_spec() -> bool {
        true
    }

    open spec fn from_spec(e: XKeyEvent) -> XEvent {
        variant_to_union(e)
    }
}

impl From<XEvent> for XKeyEvent {
    fn from(e: XEvent) -> XKeyEvent {
        let image = e.to_bytes();
        let mut raw: [u8; 96] = [0u8; 96];
        transmute_union(&image, &mut raw);
        XKeyEvent::from_bytes(&raw)
    }
}

impl FromSpecImpl<XEvent> for XKeyEvent {
    open spec fn obeys_from_spec() -> bool {
        true
    }

    open spec fn from_spec(e: XEvent) -> XKeyEvent {
        union_to_variant(e)
    }
}

#[derive(Clone, Copy, PartialEq, Debug)]
pub struct XKeymapEvent {
    pub kind: c_int,
    pub serial: c_ulong,
    pub send_event: Bool,
    pub display: DisplayAddr,
    pub window: Window,
    pub key_vector: [c_char; 32],
}

impl XKeymapEvent {
    /// The record's memory in its C layout (72 bytes).
    pub fn to_bytes(&self) -> (r: [u8; 72])
        ensures
            r@ == self.image(),
    {
        let mut out: [u8; 72] = [0u8; 72];
        assert(out@ =~= zeros(72));
        put_i32(&mut out, 0, self.kind);
        put_u64(&mut out, 8, self.serial);
        put_i32(&mut out, 16, self.send_event);
        put_u64(&mut out, 24, self.display);
        put_u64(&mut out, 32, self.window);
        put_chars(&mut out, 40, &self.key_vector);
        out
    }

    /// The record whose fields are read at their C offsets in `b`.
    pub fn from_bytes(b: &[u8; 72]) -> (r: XKeymapEvent)
        ensures
            r == XKeymapEvent::from_image(b@),
    {
        XKeymapEvent {
            kind: get_i32(b, 0),
            serial: get_u64(b, 8),
            send_event: get_i32(b, 16),
            display: get_u64(b, 24),
            window: get_u64(b, 32),
            key_vector: get_chars(b, 40),
        }
    }
}

impl EventVariant for XKeymapEvent {
    open spec fn layout_size() -> nat {
        72
    }

    open spec fn image(self) -> Seq<u8> {
        let b = zeros(72);
        let b = overwrite(b, 0, i32_bytes(self.kind));
        let b = overwrite(b, 8, u64_bytes(self.serial));
        let b = overwrite(b, 16, i32_bytes(self.send_event));
        let b = overwrite(b, 24, u64_bytes(self.display));
        let b = overwrite(b, 32, u64_bytes(self.window));
        let b = overwrite(b, 40, chars_bytes(self.key_vector));
        b
    }

    open spec fn from_image(b: Seq<u8>) -> XKeymapEvent {
        XKeymapEvent {
            kind: i32_at(b, 0),
            serial: u64_at(b, 8),
            send_event: i32_at(b, 16),
            display: u64_at(b, 24),
            window: u64_at(b, 32),
            key_vector: chars_at(b, 40),
        }
    }

    open spec fn spec_kind(self) -> c_int {
        self.kind
    }

    proof fn lemma_size() {
    }

    proof fn lemma_image(self) {
        broadcast use group_native, group_signed;

        let img = self.image();
        assert(img.subrange(0, 4) =~= i32_bytes(self.kind));
        assert(img.subrange(8, 16) =~= u64_bytes(self.serial));
        assert(img.subrange(16, 20) =~= i32_bytes(self.send_event));
        assert(img.subrange(24, 32) =~= u64_bytes(self.display));
        assert(img.subrange(32, 40) =~= u64_bytes(self.window));
        assert(img.subrange(40, 72) =~= chars_bytes(self.key_vector));
        lemma_chars_round_trip(self.key_vector, img, 40);
    }
}

impl From<XKeymapEvent> for XEvent {
    fn from(e: XKeymapEvent) -> XEvent {
        let raw = e.to_bytes();
        let mut image: [u8; 192] = [0u8; 192];
        transmute_union(&raw, &mut image);
        XEvent::from_bytes(&image)
    }
}

impl FromSpecImpl<XKeymapEvent> for XEvent {
    open spec fn obeys_from_spec() -> bool {
        true
    }

    open spec fn from_spec(e: XKeymapEvent) -> XEvent {
        variant_to_union(e)
    }
}

impl From<XEvent> for XKeymapEvent {
    fn from(e: XEvent) -> XKeymapEvent {
        let image = e.to_bytes();
        let mut raw: [u8; 72] = [0u8; 72];
        transmute_union(&image, &mut raw);
        XKeymapEvent::from_bytes(&raw)
    }
}

impl FromSpecImpl<XEvent> for XKeymapEvent {
    open spec fn obeys_from_spec() -> bool {
        true
    }

    open spec fn from_spec(e: XEvent) -> XKeymapEvent {
        union_to_variant(e)
    }
}

#[derive(Clone, Copy, PartialEq, Debug)]
pub struct XMapEvent {
    pub kind: c_int,
    pub serial: c_ulong,
    pub send_event: Bool,
    pub display: DisplayAddr,
    pub event: Window,
    pub window: Window,
    pub override_redirect: Bool,
}

impl XMapEvent {
    /// The record's memory in its C layout (56 bytes).
    pub fn to_bytes(&self) -> (r: [u8; 56])
        ensures
            r@ == self.image(),
    {
        let mut out: [u8; 56] = [0u8; 56];
        assert(out@ =~= zeros(56));
        put_i32(&mut out, 0, self.kind);
        put_u64(&mut out, 8, self.serial);
        put_i32(&mut out, 16, self.send_event);
        put_u64(&mut out, 24, self.display);
        put_u64(&mut out, 32, self.event);
        put_u64(&mut out, 40, self.window);
        put_i32(&mut out, 48, self.override_redirect);
        out
    }

    /// The record whose fields are read at their C offsets in `b`.
    pub fn from_bytes(b: &[u8; 56]) -> (r: XMapEvent)
        ensures
            r == XMapEvent::from_image(b@),
    {
        XMapEvent {
            kind: get_i32(b, 0),
            serial: get_u64(b, 8),
            send_event: get_i32(b, 16),
            display: get_u64(b, 24),
            event: get_u64(b, 32),
            window: get_u64(b, 40),
            override_redirect: get_i32(b, 48),
        }
    }
}

impl EventVariant for XMapEvent {
    open spec fn layout_size() -> nat {
        56
    }

    open spec fn image(self) -> Seq<u8> {
        let b = zeros(56);
        let b = overwrite(b, 0, i32_bytes(self.kind));
        let b = overwrite(b, 8, u64_bytes(self.serial));
        let b = overwrite(b, 16, i32_bytes(self.send_event));
        let b = overwrite(b, 24, u64_bytes(self.display));
        let b = overwrite(b, 32, u64_bytes(self.event));
        let b = overwrite(b, 40, u64_bytes(self.window));
        let b = overwrite(b, 48, i32_bytes(self.override_redirect));
        b
    }

    open spec fn from_image(b: Seq<u8>) -> XMapEvent {
        XMapEvent {
            kind: i32_at(b, 0),
            serial: u64_at(b, 8),
            send_event: i32_at(b, 16),
            display: u64_at(b, 24),
            event: u64_at(b, 32),
            window: u64_at(b, 40),
            override_redirect: i32_at(b, 48),
        }
    }

    open spec fn spec_kind(self) -> c_int {
        self.kind
    }

    proof fn lemma_size() {
    }

    proof fn lemma_image(self) {
        broadcast use group_native, group_signed;

        let img = self.image();
        assert(img.subrange(0, 4) =~= i32_bytes(self.kind));
        assert(img.subrange(8, 16) =~= u64_bytes(self.serial));
        assert(img.subrange(16, 20) =~= i32_bytes(self.send_event));
        assert(img.subrange(24, 32) =~= u64_bytes(self.display));
        assert(img.subrange(32, 40) =~= u64_bytes(self.event));
        assert(img.subrange(40, 48) =~= u64_bytes(self.window));
        assert(img.subrange(48, 52) =~= i32_bytes(self.override_redirect));
    }
}

impl From<XMapEvent> for XEvent {
    fn from(e: XMapEvent) -> XEvent {
        let raw = e.to_bytes();
        let mut image: [u8; 192] = [0u8; 192];
        transmute_union(&raw, &mut image);
        XEvent::from_bytes(&image)
    }
}

impl FromSpecImpl<XMapEvent> for XEvent {
    open spec fn obeys_from_spec() -> bool {
        true
    }

    open spec fn from_spec(e: XMapEvent) -> XEvent {
        variant_to_union(e)
    }
}

impl From<XEvent> for XMapEvent {
    fn from(e: XEvent) -> XMapEvent {
        let image = e.to_bytes();
        let mut raw: [u8; 56] = [0u8; 56];
        transmute_union(&image, &mut raw);
        XMapEvent::from_bytes(&raw)
    }
}

impl FromSpecImpl<XEvent> for XMapEvent {
    open spec fn obeys_from_spec() -> bool {
        true
    }

    open spec fn from_spec(e: XEvent) -> XMapEvent {
        union_to_variant(e)
    }
}

#[derive(Clone, Copy, PartialEq, Debug)]
pub struct XMappingEvent {
    pub kind: c_int,
    pub serial: c_ulong,
    pub send_event: Bool,
    pub display: DisplayAddr,
    pub event: Window,
    pub request: c_int,
    pub first_keycode: c_int,
    pub count: c_int,
}

impl XMappingEvent {
    /// The record's memory in its C layout (56 bytes).
    pub fn to_bytes(&self) -> (r: [u8; 56])
        ensures
            r@ == self.image(),
    {
        let mut out: [u8; 56] = [0u8; 56];
        assert(out@ =~= zeros(56));
        put_i32(&mut out, 0, self.kind);
        put_u64(&mut out, 8, self.serial);
        put_i32(&mut out, 16, self.send_event);
        put_u64(&mut out, 24, self.display);
        put_u64(&mut out, 32, self.event);
        put_i32(&mut out, 40, self.request);
        put_i32(&mut out, 44, self.first_keycode);
        put_i32(&mut out, 48, self.count);
        out
    }

    /// The record whose fields are read at their C offsets in `b`.
    pub fn from_bytes(b: &[u8; 56]) -> (r: XMappingEvent)
        ensures
            r == XMappingEvent::from_image(b@),
    {
        XMappingEvent {
            kind: get_i32(b, 0),
            serial: get_u64(b, 8),
            send_event: get_i32(b, 16),
            display: get_u64(b, 24),
            event: get_u64(b, 32),
            request: get_i32(b, 40),
            first_keycode: get_i32(b, 44),
            count: get_i32(b, 48),
        }
    }
}

impl EventVariant for XMappingEvent {
    open spec fn layout_size() -> nat {
        56
    }

    open spec fn image(self) -> Seq<u8> {
        let b = zeros(56);
        let b = overwrite(b, 0, i32_bytes(self.kind));
        let b = overwrite(b, 8, u64_bytes(self.serial));
        let b = overwrite(b, 16, i32_bytes(self.send_event));
        let b = overwrite(b, 24, u64_bytes(self.display));
        let b = overwrite(b, 32, u64_bytes(self.event));
        let b = overwrite(b, 40, i32_bytes(self.request));
        let b = overwrite(b, 44, i32_bytes(self.first_keycode));
        let b = overwrite(b, 48, i32_bytes(self.count));
        b
    }

    open spec fn from_image(b: Seq<u8>) -> XMappingEvent {
        XMappingEvent {
            kind: i32_at(b, 0),
            serial: u64_at(b, 8),
            send_event: i32_at(b, 16),
            display: u64_at(b, 24),
            event: u64_at(b, 32),
            request: i32_at(b, 40),
            first_keycode: i32_at(b, 44),
            count: i32_at(b, 48),
        }
    }

    open spec fn spec_kind(self) -> c_int {
        self.kind
    }

    proof fn lemma_size() {
    }

    proof fn lemma_image(self) {
        broadcast use group_native, group_signed;

        let img = self.image();
        assert(img.subrange(0, 4) =~= i32_bytes(self.kind));
        assert(img.subrange(8, 16) =~= u64_bytes(self.serial));
        assert(img.subrange(16, 20) =~= i32_bytes(self.send_event));
        assert(img.subrange(24, 32) =~= u64_bytes(self.display));
        assert(img.subrange(32, 40) =~= u64_bytes(self.event));
        assert(img.subrange(40, 44) =~= i32_bytes(self.request));
        assert(img.subrange(44, 48) =~= i32_bytes(self.first_keycode));
        assert(img.subrange(48, 52) =~= i32_bytes(self.count));
    }
}

impl From<XMappingEvent> for XEvent {
    fn from(e: XMappingEvent) -> XEvent {
        let raw = e.to_bytes();
        let mut image: [u8; 192] = [0u8; 192];
        transmute_union(&raw, &mut image);
        XEvent::from_bytes(&image)
    }
}

impl FromSpecImpl<XMappingEvent> for XEvent {
    open spec fn obeys_from_spec() -> bool {
        true
    }

    open spec fn from_spec(e: XMappingEvent) -> XEvent {
        variant_to_union(e)
    }
}

impl From<XEvent> for XMappingEvent {
    fn from(e: XEvent) -> XMappingEvent {
        let image = e.to_bytes();
        let mut raw: [u8; 56] = [0u8; 56];
        transmute_union(&image, &mut raw);
        XMappingEvent::from_bytes(&raw)
    }
}

impl FromSpecImpl<XEvent> for XMappingEvent {
    open spec fn obeys_from_spec() -> bool {
        true
    }

    open spec fn from_spec(e: XEvent) -> XMappingEvent {
        union_to_variant(e)
    }
}

#[derive(Clone, Copy, PartialEq, Debug)]
pub struct XMapRequestEvent {
    pub kind: c_int,
    pub serial: c_ulong,
    pub send_event: Bool,
    pub display: DisplayAddr,
    pub parent: Window,
    pub window: Window,
}

impl XMapRequestEvent {
    /// The record's memory in its C layout (48 bytes).
    pub fn to_bytes(&self) -> (r: [u8; 48])
        ensures
            r@ == self.image(),
    {
        let mut out: [u8; 48] = [0u8; 48];
        assert(out@ =~= zeros(48));
        put_i32(&mut out, 0, self.kind);
        put_u64(&mut out, 8, self.serial);
        put_i32(&mut out, 16, self.send_event);
        put_u64(&mut out, 24, self.display);
        put_u64(&mut out, 32, self.parent);
        put_u64(&mut out, 40, self.window);
        out
    }

    /// The record whose fields are read at their C offsets in `b`.
    pub fn from_bytes(b: &[u8; 48]) -> (r: XMapRequestEvent)
        ensures
            r == XMapRequestEvent::from_image(b@),
    {
        XMapRequestEvent {
            kind: get_i32(b, 0),
            serial: get_u64(b, 8),
            send_event: get_i32(b, 16),
            display: get_u64(b, 24),
            parent: get_u64(b, 32),
            window: get_u64(b, 40),
        }
    }
}

impl EventVariant for XMapRequestEvent {
    open spec fn layout_size() -> nat {
        48
    }

    open spec fn image(self) -> Seq<u8> {
        let b = zeros(48);
        let b = overwrite(b, 0, i32_bytes(self.kind));
        let b = overwrite(b, 8, u64_bytes(self.serial));
        let b = overwrite(b, 16, i32_bytes(self.send_event));
        let b = overwrite(b, 24, u64_bytes(self.display));
        let b = overwrite(b, 32, u64_bytes(self.parent));
        let b = overwrite(b, 40, u64_bytes(self.window));
        b
    }

    open spec fn from_image(b: Seq<u8>) -> XMapRequestEvent {
        XMapRequestEvent {
            kind: i32_at(b, 0),
            serial: u64_at(b, 8),
            send_event: i32_at(b, 16),
            display: u64_at(b, 24),
            parent: u64_at(b, 32),
            window: u64_at(b, 40),
        }
    }

    open spec fn spec_kind(self) -> c_int {
        self.kind
    }

    proof fn lemma_size() {
    }

    proof fn lemma_image(self) {
        broadcast use group_native, group_signed;

        let img = self.image();
        assert(img.subrange(0, 4) =~= i32_bytes(self.kind));
        assert(img.subrange(8, 16) =~= u64_bytes(self.serial));
        assert(img.subrange(16, 20) =~= i32_bytes(self.send_event));
        assert(img.subrange(24, 32) =~= u64_bytes(self.display));
        assert(img.subrange(32, 40) =~= u64_bytes(self.parent));
        assert(img.subrange(40, 48) =~= u64_bytes(self.window));
    }
}

impl From<XMapRequestEvent> for XEvent {
    fn from(e: XMapRequestEvent) -> XEvent {
        let raw = e.to_bytes();
        let mut image: [u8; 192] = [0u8; 192];
        transmute_union(&raw, &mut image);
        XEvent::from_bytes(&image)
    }
}

impl FromSpecImpl<XMapRequestEvent> for XEvent {
    open spec fn obeys_from_spec() -> bool {
        true
    }

    open spec fn from_spec(e: XMapRequestEvent) -> XEvent {
        variant_to_union(e)
    }
}

impl From<XEvent> for XMapRequestEvent {
    fn from(e: XEvent) -> XMapRequestEvent {
        let image = e.to_bytes();
        let mut raw: [u8; 48] = [0u8; 48];
        transmute_union(&image, &mut raw);
        XMapRequestEvent::from_bytes(&raw)
    }
}

impl FromSpecImpl<XEvent> for XMapRequestEvent {
    open spec fn obeys_from_spec() -> bool {
        true
    }

    open spec fn from_spec(e: XEvent) -> XMapRequestEvent {
        union_to_variant(e)
    }
}

#[derive(Clone, Copy, PartialEq, Debug)]
pub struct XMotionEvent {
    pub kind: c_int,
    pub serial: c_ulong,
    pub send_event: Bool,
    pub display: DisplayAddr,
    pub window: Window,
    pub root: Window,
    pub subwindow: Window,
    pub time: Time,
    pub x: c_int,
    pub y: c_int,
    pub x_root: c_int,
    pub y_root: c_int,
    pub state: c_uint,
    pub is_hint: c_char,
    pub same_screen: Bool,
}

pub type XPointerMovedEvent = XMotionEvent;

impl XMotionEvent {
    /// The record's memory in its C layout (96 bytes).
    pub fn to_bytes(&self) -> (r: [u8; 96])
        ensures
            r@ == self.image(),
    {
        let mut out: [u8; 96] = [0u8; 96];
        assert(out@ =~= zeros(96));
        put_i32(&mut out, 0, self.kind);
        put_u64(&mut out, 8, self.serial);
        put_i32(&mut out, 16, self.send_event);
        put_u64(&mut out, 24, self.display);
        put_u64(&mut out, 32, self.window);
        put_u64(&mut out, 40, self.root);
        put_u64(&mut out, 48, self.subwindow);
        put_u64(&mut out, 56, self.time);
        put_i32(&mut out, 64, self.x);
        put_i32(&mut out, 68, self.y);
        put_i32(&mut out, 72, self.x_root);
        put_i32(&mut out, 76, self.y_root);
        put_u32(&mut out, 80, self.state);
        put_u8(&mut out, 84, self.is_hint as u8);
        put_i32(&mut out, 88, self.same_screen);
        out
    }

    /// The record whose fields are read at their C offsets in `b`.
    pub fn from_bytes(b: &[u8; 96]) -> (r: XMotionEvent)
        ensures
            r == XMotionEvent::from_image(b@),
    {
        XMotionEvent {
            kind: get_i32(b, 0),
            serial: get_u64(b, 8),
            send_event: get_i32(b, 16),
            display: get_u64(b, 24),
            window: get_u64(b, 32),
            root: get_u64(b, 40),
            subwindow: get_u64(b, 48),
            time: get_u64(b, 56),
            x: get_i32(b, 64),
            y: get_i32(b, 68),
            x_root: get_i32(b, 72),
            y_root: get_i32(b, 76),
            state: get_u32(b, 80),
            is_hint: b[84] as c_char,
            same_screen: get_i32(b, 88),
        }
    }
}

impl EventVariant for XMotionEvent {
    open spec fn layout_size() -> nat {
        96
    }

    open spec fn image(self) -> Seq<u8> {
        let b = zeros(96);
        let b = overwrite(b, 0, i32_bytes(self.kind));
        let b = overwrite(b, 8, u64_bytes(self.serial));
        let b = overwrite(b, 16, i32_bytes(self.send_event));
        let b = overwrite(b, 24, u64_bytes(self.display));
        let b = overwrite(b, 32, u64_bytes(self.window));
        let b = overwrite(b, 40, u64_bytes(self.root));
        let b = overwrite(b, 48, u64_bytes(self.subwindow));
        let b = overwrite(b, 56, u64_bytes(self.time));
        let b = overwrite(b, 64, i32_bytes(self.x));
        let b = overwrite(b, 68, i32_bytes(self.y));
        let b = overwrite(b, 72, i32_bytes(self.x_root));
        let b = overwrite(b, 76, i32_bytes(self.y_root));
        let b = overwrite(b, 80, u32_bytes(self.state));
        let b = overwrite(b, 84, seq![#[verifier::truncate] (self.is_hint as u8)]);
        let b = overwrite(b, 88, i32_bytes(self.same_screen));
        b
    }

    open spec fn from_image(b: Seq<u8>) -> XMotionEvent {
        XMotionEvent {
            kind: i32_at(b, 0),
            serial: u64_at(b, 8),
            send_event: i32_at(b, 16),
            display: u64_at(b, 24),
            window: u64_at(b, 32),
            root: u64_at(b, 40),
            subwindow: u64_at(b, 48),
            time: u64_at(b, 56),
            x: i32_at(b, 64),
            y: i32_at(b, 68),
            x_root: i32_at(b, 72),
            y_root: i32_at(b, 76),
            state: u32_at(b, 80),
            is_hint: #[verifier::truncate] (b[84] as c_char),
            same_screen: i32_at(b, 88),
        }
    }

    open spec fn spec_kind(self) -> c_int {
        self.kind
    }

    proof fn lemma_size() {
    }

    proof fn lemma_image(self) {
        broadcast use group_native, group_signed;

        let img = self.image();
        assert(img.subrange(0, 4) =~= i32_bytes(self.kind));
        assert(img.subrange(8, 16) =~= u64_bytes(self.serial));
        assert(img.subrange(16, 20) =~= i32_bytes(self.send_event));
        assert(img.subrange(24, 32) =~= u64_bytes(self.display));
        assert(img.subrange(32, 40) =~= u64_bytes(self.window));
        assert(img.subrange(40, 48) =~= u64_bytes(self.root));
        assert(img.subrange(48, 56) =~= u64_bytes(self.subwindow));
        assert(img.subrange(56, 64) =~= u64_bytes(self.time));
        assert(img.subrange(64, 68) =~= i32_bytes(self.x));
        assert(img.subrange(68, 72) =~= i32_bytes(self.y));
        assert(img.subrange(72, 76) =~= i32_bytes(self.x_root));
        assert(img.subrange(76, 80) =~= i32_bytes(self.y_root));
        assert(img.subrange(80, 84) =~= u32_bytes(self.state));
        let is_hint = self.is_hint;
        assert((#[verifier::truncate] ((#[verifier::truncate] (is_hint as u8)) as c_char)) == is_hint)
            by (bit_vector);
        assert(img[84] == #[verifier::truncate] (self.is_hint as u8));
        assert(img.subrange(88, 92) =~= i32_bytes(self.same_screen));
    }
}

impl From<XMotionEvent> for XEvent {
    fn from(e: XMotionEvent) -> XEvent {
        let raw = e.to_bytes();
        let mut image: [u8; 192] = [0u8; 192];
        transmute_union(&raw, &mut image);
        XEvent::from_bytes(&image)
    }
}

impl FromSpecImpl<XMotionEvent> for XEvent {
    open spec fn obeys_from_spec() -> bool {
        true
    }

    open spec fn from_spec(e: XMotionEvent) -> XEvent {
        variant_to_union(e)
    }
}

impl From<XEvent> for XMotionEvent {
    fn from(e: XEvent) -> XMotionEvent {
        let image = e.to_bytes();
        let mut raw: [u8; 96] = [0u8; 96];
        transmute_union(&image, &mut raw);
        XMotionEvent::from_bytes(&raw)
    }
}

impl FromSpecImpl<XEvent> for XMotionEvent {
    open spec fn obeys_from_spec() -> bool {
        true
    }

    open spec fn from_spec(e: XEvent) -> XMotionEvent {
        union_to_variant(e)
    }
}

#[derive(Clone, Copy, PartialEq, Debug)]
pub struct XNoExposeEvent {
    pub kind: c_int,
    pub serial: c_ulong,
    pub send_event: Bool,
    pub display: DisplayAddr,
    pub drawable: Drawable,
    pub major_code: c_int,
    pub minor_code: c_int,
}

impl XNoExposeEvent {
    /// The record's memory in its C layout (48 bytes).
    pub fn to_bytes(&self) -> (r: [u8; 48])
        ensures
            r@ == self.image(),
    {
        let mut out: [u8; 48] = [0u8; 48];
        assert(out@ =~= zeros(48));
        put_i32(&mut out, 0, self.kind);
        put_u64(&mut out, 8, self.serial);
        put_i32(&mut out, 16, self.send_event);
        put_u64(&mut out, 24, self.display);
        put_u64(&mut out, 32, self.drawable);
        put_i32(&mut out, 40, self.major_code);
        put_i32(&mut out, 44, self.minor_code);
        out
    }

    /// The record whose fields are read at their C offsets in `b`.
    pub fn from_bytes(b: &[u8; 48]) -> (r: XNoExposeEvent)
        ensures
            r == XNoExposeEvent::from_image(b@),
    {
        XNoExposeEvent {
            kind: get_i32(b, 0),
            serial: get_u64(b, 8),
            send_event: get_i32(b, 16),
            display: get_u64(b, 24),
            drawable: get_u64(b, 32),
            major_code: get_i32(b, 40),
            minor_code: get_i32(b, 44),
        }
    }
}

impl EventVariant for XNoExposeEvent {
    open spec fn layout_size() -> nat {
        48
    }

    open spec fn image(self) -> Seq<u8> {
        let b = zeros(48);
        let b = overwrite(b, 0, i32_bytes(self.kind));
        let b = overwrite(b, 8, u64_bytes(self.serial));
        let b = overwrite(b, 16, i32_bytes(self.send_event));
        let b = overwrite(b, 24, u64_bytes(self.display));
        let b = overwrite(b, 32, u64_bytes(self.drawable));
        let b = overwrite(b, 40, i32_bytes(self.major_code));
        let b = overwrite(b, 44, i32_bytes(self.minor_code));
        b
    }

    open spec fn from_image(b: Seq<u8>) -> XNoExposeEvent {
        XNoExposeEvent {
            kind: i32_at(b, 0),
            serial: u64_at(b, 8),
            send_event: i32_at(b, 16),
            display: u64_at(b, 24),
            drawable: u64_at(b, 32),
            major_code: i32_at(b, 40),
            minor_code: i32_at(b, 44),
        }
    }

    open spec fn spec_kind(self) -> c_int {
        self.kind
    }

    proof fn lemma_size() {
    }

    proof fn lemma_image(self) {
        broadcast use group_native, group_signed;

        let img = self.image();
        assert(img.subrange(0, 4) =~= i32_bytes(self.kind));
        assert(img.subrange(8, 16) =~= u64_bytes(self.serial));
        assert(img.subrange(16, 20) =~= i32_bytes(self.send_event));
        assert(img.subrange(24, 32) =~= u64_bytes(self.display));
        assert(img.subrange(32, 40) =~= u64_bytes(self.drawable));
        assert(img.subrange(40, 44) =~= i32_bytes(self.major_code));
        assert(img.subrange(44, 48) =~= i32_bytes(self.minor_code));
    }
}

impl From<XNoExposeEvent> for XEvent {
    fn from(e: XNoExposeEvent) -> XEvent {
        let raw = e.to_bytes();
        let mut image: [u8; 192] = [0u8; 192];
        transmute_union(&raw, &mut image);
        XEvent::from_bytes(&image)
    }
}

impl FromSpecImpl<XNoExposeEvent> for XEvent {
    open spec fn obeys_from_spec() -> bool {
        true
    }

    open spec fn from_spec(e: XNoExposeEvent) -> XEvent {
        variant_to_union(e)
    }
}

impl From<XEvent> for XNoExposeEvent {
    fn from(e: XEvent) -> XNoExposeEvent {
        let image = e.to_bytes();
        let mut raw: [u8; 48] = [0u8; 48];
        transmute_union(&image, &mut raw);
        XNoExposeEvent::from_bytes(&raw)
    }
}

impl FromSpecImpl<XEvent> for XNoExposeEvent {
    open spec fn obeys_from_spec() -> bool {
        true
    }

    open spec fn from_spec(e: XEvent) -> XNoExposeEvent {
        union_to_variant(e)
    }
}

#[derive(Clone, Copy, PartialEq, Debug)]
pub struct XPropertyEvent {
    pub kind: c_int,
    pub serial: c_ulong,
    pub send_event: Bool,
    pub display: DisplayAddr,
    pub window: Window,
    pub atom: Atom,
    pub time: Time,
    pub state: c_int,
}

impl XPropertyEvent {
    /// The record's memory in its C layout (64 bytes).
    pub fn to_bytes(&self) -> (r: [u8; 64])
        ensures
            r@ == self.image(),
    {
        let mut out: [u8; 64] = [0u8; 64];
        assert(out@ =~= zeros(64));
        put_i32(&mut out, 0, self.kind);
        put_u64(&mut out, 8, self.serial);
        put_i32(&mut out, 16, self.send_event);
        put_u64(&mut out, 24, self.display);
        put_u64(&mut out, 32, self.window);
        put_u64(&mut out, 40, self.atom);
        put_u64(&mut out, 48, self.time);
        put_i32(&mut out, 56, self.state);
        out
    }

    /// The record whose fields are read at their C offsets in `b`.
    pub fn from_bytes(b: &[u8; 64]) -> (r: XPropertyEvent)
        ensures
            r == XPropertyEvent::from_image(b@),
    {
        XPropertyEvent {
            kind: get_i32(b, 0),
            serial: get_u64(b, 8),
            send_event: get_i32(b, 16),
            display: get_u64(b, 24),
            window: get_u64(b, 32),
            atom: get_u64(b, 40),
            time: get_u64(b, 48),
            state: get_i32(b, 56),
        }
    }
}

impl EventVariant for XPropertyEvent {
    open spec fn layout_size() -> nat {
        64
    }

    open spec fn image(self) -> Seq<u8> {
        let b = zeros(64);
        let b = overwrite(b, 0, i32_bytes(self.kind));
        let b = overwrite(b, 8, u64_bytes(self.serial));
        let b = overwrite(b, 16, i32_bytes(self.send_event));
        let b = overwrite(b, 24, u64_bytes(self.display));
        let b = overwrite(b, 32, u64_bytes(self.window));
        let b = overwrite(b, 40, u64_bytes(self.atom));
        let b = overwrite(b, 48, u64_bytes(self.time));
        let b = overwrite(b, 56, i32_bytes(self.state));
        b
    }

    open spec fn from_image(b: Seq<u8>) -> XPropertyEvent {
        XPropertyEvent {
            kind: i32_at(b, 0),
            serial: u64_at(b, 8),
            send_event: i32_at(b, 16),
            display: u64_at(b, 24),
            window: u64_at(b, 32),
            atom: u64_at(b, 40),
            time: u64_at(b, 48),
            state: i32_at(b, 56),
        }
    }

    open spec fn spec_kind(self) -> c_int {
        self.kind
    }

    proof fn lemma_size() {
    }

    proof fn lemma_image(self) {
        broadcast use group_native, group_signed;

        let img = self.image();
        assert(img.subrange(0, 4) =~= i32_bytes(self.kind));
        assert(img.subrange(8, 16) =~= u64_bytes(self.serial));
        assert(img.subrange(16, 20) =~= i32_bytes(self.send_event));
        assert(img.subrange(24, 32) =~= u64_bytes(self.display));
        assert(img.subrange(32, 40) =~= u64_bytes(self.window));
        assert(img.subrange(40, 48) =~= u64_bytes(self.atom));
        assert(img.subrange(48, 56) =~= u64_bytes(self.time));
        assert(img.subrange(56, 60) =~= i32_bytes(self.state));
    }
}

impl From<XPropertyEvent> for XEvent {
    fn from(e: XPropertyEvent) -> XEvent {
        let raw = e.to_bytes();
        let mut image: [u8; 192] = [0u8; 192];
        transmute_union(&raw, &mut image);
        XEvent::from_bytes(&image)
    }
}

impl FromSpecImpl<XPropertyEvent> for XEvent {
    open spec fn obeys_from_spec() -> bool {
        true
    }

    open spec fn from_spec(e: XPropertyEvent) -> XEvent {
        variant_to_union(e)
    }
}

impl From<XEvent> for XPropertyEvent {
    fn from(e: XEvent) -> XPropertyEvent {
        let image = e.to_bytes();
        let mut raw: [u8; 64] = [0u8; 64];
        transmute_union(&image, &mut raw);
        XPropertyEvent::from_bytes(&raw)
    }
}

impl FromSpecImpl<XEvent> for XPropertyEvent {
    open spec fn obeys_from_spec() -> bool {
        true
    }

    open spec fn from_spec(e: XEvent) -> XPropertyEvent {
        union_to_variant(e)
    }
}

#[derive(Clone, Copy, PartialEq, Debug)]
pub struct XReparentEvent {
    pub kind: c_int,
    pub serial: c_ulong,
    pub send_event: Bool,
    pub display: DisplayAddr,
    pub event: Window,
    pub window: Window,
    pub parent: Window,
    pub x: c_int,
    pub y: c_int,
    pub override_redirect: Bool,
}

impl XReparentEvent {
    /// The record's memory in its C layout (72 bytes).
    pub fn to_bytes(&self) -> (r: [u8; 72])
        ensures
            r@ == self.image(),
    {
        let mut out: [u8; 72] = [0u8; 72];
        assert(out@ =~= zeros(72));
        put_i32(&mut out, 0, self.kind);
        put_u64(&mut out, 8, self.serial);
        put_i32(&mut out, 16, self.send_event);
        put_u64(&mut out, 24, self.display);
        put_u64(&mut out, 32, self.event);
        put_u64(&mut out, 40, self.window);
        put_u64(&mut out, 48, self.parent);
        put_i32(&mut out, 56, self.x);
        put_i32(&mut out, 60, self.y);
        put_i32(&mut out, 64, self.override_redirect);
        out
    }

    /// The record whose fields are read at their C offsets in `b`.
    pub fn from_bytes(b: &[u8; 72]) -> (r: XReparentEvent)
        ensures
            r == XReparentEvent::from_image(b@),
    {
        XReparentEvent {
            kind: get_i32(b, 0),
            serial: get_u64(b, 8),
            send_event: get_i32(b, 16),
            display: get_u64(b, 24),
            event: get_u64(b, 32),
            window: get_u64(b, 40),
            parent: get_u64(b, 48),
            x: get_i32(b, 56),
            y: get_i32(b, 60),
            override_redirect: get_i32(b, 64),
        }
    }
}

impl EventVariant for XReparentEvent {
    open spec fn layout_size() -> nat {
        72
    }

    open spec fn image(self) -> Seq<u8> {
        let b = zeros(72);
        let b = overwrite(b, 0, i32_bytes(self.kind));
        let b = overwrite(b, 8, u64_bytes(self.serial));
        let b = overwrite(b, 16, i32_bytes(self.send_event));
        let b = overwrite(b, 24, u64_bytes(self.display));
        let b = overwrite(b, 32, u64_bytes(self.event));
        let b = overwrite(b, 40, u64_bytes(self.window));
        let b = overwrite(b, 48, u64_bytes(self.parent));
        let b = overwrite(b, 56, i32_bytes(self.x));
        let b = overwrite(b, 60, i32_bytes(self.y));
        let b = overwrite(b, 64, i32_bytes(self.override_redirect));
        b
    }

    open spec fn from_image(b: Seq<u8>) -> XReparentEvent {
        XReparentEvent {
            kind: i32_at(b, 0),
            serial: u64_at(b, 8),
            send_event: i32_at(b, 16),
            display: u64_at(b, 24),
            event: u64_at(b, 32),
            window: u64_at(b, 40),
            parent: u64_at(b, 48),
            x: i32_at(b, 56),
            y: i32_at(b, 60),
            override_redirect: i32_at(b, 64),
        }
    }

    open spec fn spec_kind(self) -> c_int {
        self.kind
    }

    proof fn lemma_size() {
    }

    proof fn lemma_image(self) {
        broadcast use group_native, group_signed;

        let img = self.image();
        assert(img.subrange(0, 4) =~= i32_bytes(self.kind));
        assert(img.subrange(8, 16) =~= u64_bytes(self.serial));
        assert(img.subrange(16, 20) =~= i32_bytes(self.send_event));
        assert(img.subrange(24, 32) =~= u64_bytes(self.display));
        assert(img.subrange(32, 40) =~= u64_bytes(self.event));
        assert(img.subrange(40, 48) =~= u64_bytes(self.window));
        assert(img.subrange(48, 56) =~= u64_bytes(self.parent));
        assert(img.subrange(56, 60) =~= i32_bytes(self.x));
        assert(img.subrange(60, 64) =~= i32_bytes(self.y));
        assert(img.subrange(64, 68) =~= i32_bytes(self.override_redirect));
    }
}

impl From<XReparentEvent> for XEvent {
    fn from(e: XReparentEvent) -> XEvent {
        let raw = e.to_bytes();
        let mut image: [u8; 192] = [0u8; 192];
        transmute_union(&raw, &mut image);
        XEvent::from_bytes(&image)
    }
}

impl FromSpecImpl<XReparentEvent> for XEvent {
    open spec fn obeys_from_spec() -> bool {
        true
    }

    open spec fn from_spec(e: XReparentEvent) -> XEvent {
        variant_to_union(e)
    }
}

impl From<XEvent> for XReparentEvent {
    fn from(e: XEvent) -> XReparentEvent {
        let image = e.to_bytes();
        let mut raw: [u8; 72] = [0u8; 72];
        transmute_union(&image, &mut raw);
        XReparentEvent::from_bytes(&raw)
    }
}

impl FromSpecImpl<XEvent> for XReparentEvent {
    open spec fn obeys_from_spec() -> bool {
        true
    }

    open spec fn from_spec(e: XEvent) -> XReparentEvent {
        union_to_variant(e)
    }
}

#[derive(Clone, Copy, PartialEq, Debug)]
pub struct XResizeRequestEvent {
    pub kind: c_int,
    pub serial: c_ulong,
    pub send_event: Bool,
    pub display: DisplayAddr,
    pub window: Window,
    pub width: c_int,
    pub height: c_int,
}

impl XResizeRequestEvent {
    /// The record's memory in its C layout (48 bytes).
    pub fn to_bytes(&self) -> (r: [u8; 48])
        ensures
            r@ == self.image(),
    {
        let mut out: [u8; 48] = [0u8; 48];
        assert(out@ =~= zeros(48));
        put_i32(&mut out, 0, self.kind);
        put_u64(&mut out, 8, self.serial);
        put_i32(&mut out, 16, self.send_event);
        put_u64(&mut out, 24, self.display);
        put_u64(&mut out, 32, self.window);
        put_i32(&mut out, 40, self.width);
        put_i32(&mut out, 44, self.height);
        out
    }

    /// The record whose fields are read at their C offsets in `b`.
    pub fn from_bytes(b: &[u8; 48]) -> (r: XResizeRequestEvent)
        ensures
            r == XResizeRequestEvent::from_image(b@),
    {
        XResizeRequestEvent {
            kind: get_i32(b, 0),
            serial: get_u64(b, 8),
            send_event: get_i32(b, 16),
            display: get_u64(b, 24),
            window: get_u64(b, 32),
            width: get_i32(b, 40),
            height: get_i32(b, 44),
        }
    }
}

impl EventVariant for XResizeRequestEvent {
    open spec fn layout_size() -> nat {
        48
    }

    open spec fn image(self) -> Seq<u8> {
        let b = zeros(48);
        let b = overwrite(b, 0, i32_bytes(self.kind));
        let b = overwrite(b, 8, u64_bytes(self.serial));
        let b = overwrite(b, 16, i32_bytes(self.send_event));
        let b = overwrite(b, 24, u64_bytes(self.display));
        let b = overwrite(b, 32, u64_bytes(self.window));
        let b = overwrite(b, 40, i32_bytes(self.width));
        let b = overwrite(b, 44, i32_bytes(self.height));
        b
    }

    open spec fn from_image(b: Seq<u8>) -> XResizeRequestEvent {
        XResizeRequestEvent {
            kind: i32_at(b, 0),
            serial: u64_at(b, 8),
            send_event: i32_at(b, 16),
            display: u64_at(b, 24),
            window: u64_at(b, 32),
            width: i32_at(b, 40),
            height: i32_at(b, 44),
        }
    }

    open spec fn spec_kind(self) -> c_int {
        self.kind
    }

    proof fn lemma_size() {
    }

    proof fn lemma_image(self) {
        broadcast use group_native, group_signed;

        let img = self.image();
        assert(img.subrange(0, 4) =~= i32_bytes(self.kind));
        assert(img.subrange(8, 16) =~= u64_bytes(self.serial));
        assert(img.subrange(16, 20) =~= i32_bytes(self.send_event));
        assert(img.subrange(24, 32) =~= u64_bytes(self.display));
        assert(img.subrange(32, 40) =~= u64_bytes(self.window));
        assert(img.subrange(40, 44) =~= i32_bytes(self.width));
        assert(img.subrange(44, 48) =~= i32_bytes(self.height));
    }
}

impl From<XResizeRequestEvent> for XEvent {
    fn from(e: XResizeRequestEvent) -> XEvent {
        let raw = e.to_bytes();
        let mut image: [u8; 192] = [0u8; 192];
        transmute_union(&raw, &mut image);
        XEvent::from_bytes(&image)
    }
}

impl FromSpecImpl<XResizeRequestEvent> for XEvent {
    open spec fn obeys_from_spec() -> bool {
        true
    }

    open spec fn from_spec(e: XResizeRequestEvent) -> XEvent {
        variant_to_union(e)
    }
}

impl From<XEvent> for XResizeRequestEvent {
    fn from(e: XEvent) -> XResizeRequestEvent {
        let image = e.to_bytes();
        let mut raw: [u8; 48] = [0u8; 48];
        transmute_union(&image, &mut raw);
        XResizeRequestEvent::from_bytes(&raw)
    }
}

impl FromSpecImpl<XEvent> for XResizeRequestEvent {
    open spec fn obeys_from_spec() -> bool {
        true
    }

    open spec fn from_spec(e: XEvent) -> XResizeRequestEvent {
        union_to_variant(e)
    }
}

#[derive(Clone, Copy, PartialEq, Debug)]
pub struct XSelectionClearEvent {
    pub kind: c_int,
    pub serial: c_ulong,
    pub send_event: Bool,
    pub display: DisplayAddr,
    pub window: Window,
    pub selection: Atom,
    pub time: Time,
}

impl XSelectionClearEvent {
    /// The record's memory in its C layout (56 bytes).
    pub fn to_bytes(&self) -> (r: [u8; 56])
        ensures
            r@ == self.image(),
    {
        let mut out: [u8; 56] = [0u8; 56];
        assert(out@ =~= zeros(56));
        put_i32(&mut out, 0, self.kind);
        put_u64(&mut out, 8, self.serial);
        put_i32(&mut out, 16, self.send_event);
        put_u64(&mut out, 24, self.display);
        put_u64(&mut out, 32, self.window);
        put_u64(&mut out, 40, self.selection);
        put_u64(&mut out, 48, self.time);
        out
    }

    /// The record whose fields are read at their C offsets in `b`.
    pub fn from_bytes(b: &[u8; 56]) -> (r: XSelectionClearEvent)
        ensures
            r == XSelectionClearEvent::from_image(b@),
    {
        XSelectionClearEvent {
            kind: get_i32(b, 0),
            serial: get_u64(b, 8),
            send_event: get_i32(b, 16),
            display: get_u64(b, 24),
            window: get_u64(b, 32),
            selection: get_u64(b, 40),
            time: get_u64(b, 48),
        }
    }
}

impl EventVariant for XSelectionClearEvent {
    open spec fn layout_size() -> nat {
        56
    }

    open spec fn image(self) -> Seq<u8> {
        let b = zeros(56);
        let b = overwrite(b, 0, i32_bytes(self.kind));
        let b = overwrite(b, 8, u64_bytes(self.serial));
        let b = overwrite(b, 16, i32_bytes(self.send_event));
        let b = overwrite(b, 24, u64_bytes(self.display));
        let b = overwrite(b, 32, u64_bytes(self.window));
        let b = overwrite(b, 40, u64_bytes(self.selection));
        let b = overwrite(b, 48, u64_bytes(self.time));
        b
    }

    open spec fn from_image(b: Seq<u8>) -> XSelectionClearEvent {
        XSelectionClearEvent {
            kind: i32_at(b, 0),
            serial: u64_at(b, 8),
            send_event: i32_at(b, 16),
            display: u64_at(b, 24),
            window: u64_at(b, 32),
            selection: u64_at(b, 40),
            time: u64_at(b, 48),
        }
    }

    open spec fn spec_kind(self) -> c_int {
        self.kind
    }

    proof fn lemma_size() {
    }

    proof fn lemma_image(self) {
        broadcast use group_native, group_signed;

        let img = self.image();
        assert(img.subrange(0, 4) =~= i32_bytes(self.kind));
        assert(img.subrange(8, 16) =~= u64_bytes(self.serial));
        assert(img.subrange(16, 20) =~= i32_bytes(self.send_event));
        assert(img.subrange(24, 32) =~= u64_bytes(self.display));
        assert(img.subrange(32, 40) =~= u64_bytes(self.window));
        assert(img.subrange(40, 48) =~= u64_bytes(self.selection));
        assert(img.subrange(48, 56) =~= u64_bytes(self.time));
    }
}

impl From<XSelectionClearEvent> for XEvent {
    fn from(e: XSelectionClearEvent) -> XEvent {
        let raw = e.to_bytes();
        let mut image: [u8; 192] = [0u8; 192];
        transmute_union(&raw, &mut image);
        XEvent::from_bytes(&image)
    }
}

impl FromSpecImpl<XSelectionClearEvent> for XEvent {
    open spec fn obeys_from_spec() -> bool {
        true
    }

    open spec fn from_spec(e: XSelectionClearEvent) -> XEvent {
        variant_to_union(e)
    }
}

impl From<XEvent> for XSelectionClearEvent {
    fn from(e: XEvent) -> XSelectionClearEvent {
        let image = e.to_bytes();
        let mut raw: [u8; 56] = [0u8; 56];
        transmute_union(&image, &mut raw);
        XSelectionClearEvent::from_bytes(&raw)
    }
}

impl FromSpecImpl<XEvent> for XSelectionClearEvent {
    open spec fn obeys_from_spec() -> bool {
        true
    }

    open spec fn from_spec(e: XEvent) -> XSelectionClearEvent {
        union_to_variant(e)
    }
}

#[derive(Clone, Copy, PartialEq, Debug)]
pub struct XSelectionEvent {
    pub kind: c_int,
    pub serial: c_ulong,
    pub send_event: Bool,
    pub display: DisplayAddr,
    pub requestor: Window,
    pub selection: Atom,
    pub target: Atom,
    pub property: Atom,
    pub time: Time,
}

impl XSelectionEvent {
    /// The record's memory in its C layout (72 bytes).
    pub fn to_bytes(&self) -> (r: [u8; 72])
        ensures
            r@ == self.image(),
    {
        let mut out: [u8; 72] = [0u8; 72];
        assert(out@ =~= zeros(72));
        put_i32(&mut out, 0, self.kind);
        put_u64(&mut out, 8, self.serial);
        put_i32(&mut out, 16, self.send_event);
        put_u64(&mut out, 24, self.display);
        put_u64(&mut out, 32, self.requestor);
        put_u64(&mut out, 40, self.selection);
        put_u64(&mut out, 48, self.target);
        put_u64(&mut out, 56, self.property);
        put_u64(&mut out, 64, self.time);
        out
    }

    /// The record whose fields are read at their C offsets in `b`.
    pub fn from_bytes(b: &[u8; 72]) -> (r: XSelectionEvent)
        ensures
            r == XSelectionEvent::from_image(b@),
    {
        XSelectionEvent {
            kind: get_i32(b, 0),
            serial: get_u64(b, 8),
            send_event: get_i32(b, 16),
            display: get_u64(b, 24),
            requestor: get_u64(b, 32),
            selection: get_u64(b, 40),
            target: get_u64(b, 48),
            property: get_u64(b, 56),
            time: get_u64(b, 64),
        }
    }
}

impl EventVariant for XSelectionEvent {
    open spec fn layout_size() -> nat {
        72
    }

    open spec fn image(self) -> Seq<u8> {
        let b = zeros(72);
        let b = overwrite(b, 0, i32_bytes(self.kind));
        let b = overwrite(b, 8, u64_bytes(self.serial));
        let b = overwrite(b, 16, i32_bytes(self.send_event));
        let b = overwrite(b, 24, u64_bytes(self.display));
        let b = overwrite(b, 32, u64_bytes(self.requestor));
        let b = overwrite(b, 40, u64_bytes(self.selection));
        let b = overwrite(b, 48, u64_bytes(self.target));
        let b = overwrite(b, 56, u64_bytes(self.property));
        let b = overwrite(b, 64, u64_bytes(self.time));
        b
    }

    open spec fn from_image(b: Seq<u8>) -> XSelectionEvent {
        XSelectionEvent {
            kind: i32_at(b, 0),
            serial: u64_at(b, 8),
            send_event: i32_at(b, 16),
            display: u64_at(b, 24),
            requestor: u64_at(b, 32),
            selection: u64_at(b, 40),
            target: u64_at(b, 48),
            property: u64_at(b, 56),
            time: u64_at(b, 64),
        }
    }

    open spec fn spec_kind(self) -> c_int {
        self.kind
    }

    proof fn lemma_size() {
    }

    proof fn lemma_image(self) {
        broadcast use group_native, group_signed;

        let img = self.image();
        assert(img.subrange(0, 4) =~= i32_bytes(self.kind));
        assert(img.subrange(8, 16) =~= u64_bytes(self.serial));
        assert(img.subrange(16, 20) =~= i32_bytes(self.send_event));
        assert(img.subrange(24, 32) =~= u64_bytes(self.display));
        assert(img.subrange(32, 40) =~= u64_bytes(self.requestor));
        assert(img.subrange(40, 48) =~= u64_bytes(self.selection));
        assert(img.subrange(48, 56) =~= u64_bytes(self.target));
        assert(img.subrange(56, 64) =~= u64_bytes(self.property));
        assert(img.subrange(64, 72) =~= u64_bytes(self.time));
    }
}

impl From<XSelectionEvent> for XEvent {
    fn from(e: XSelectionEvent) -> XEvent {
        let raw = e.to_bytes();
        let mut image: [u8; 192] = [0u8; 192];
        transmute_union(&raw, &mut image);
        XEvent::from_bytes(&image)
    }
}

impl FromSpecImpl<XSelectionEvent> for XEvent {
    open spec fn obeys_from_spec() -> bool {
        true
    }

    open spec fn from_spec(e: XSelectionEvent) -> XEvent {
        variant_to_union(e)
    }
}

impl From<XEvent> for XSelectionEvent {
    fn from(e: XEvent) -> XSelectionEvent {
        let image = e.to_bytes();
        let mut raw: [u8; 72] = [0u8; 72];
        transmute_union(&image, &mut raw);
        XSelectionEvent::from_bytes(&raw)
    }
}

impl FromSpecImpl<XEvent> for XSelectionEvent {
    open spec fn obeys_from_spec() -> bool {
        true
    }

    open spec fn from_spec(e: XEvent) -> XSelectionEvent {
        union_to_variant(e)
    }
}

#[derive(Clone, Copy, PartialEq, Debug)]
pub struct XSelectionRequestEvent {
    pub kind: c_int,
    pub serial: c_ulong,
    pub send_event: Bool,
    pub display: DisplayAddr,
    pub owner: Window,
    pub requestor: Window,
    pub selection: Atom,
    pub target: Atom,
    pub property: Atom,
    pub time: Time,
}

impl XSelectionRequestEvent {
    /// The record's memory in its C layout (80 bytes).
    pub fn to_bytes(&self) -> (r: [u8; 80])
        ensures
            r@ == self.image(),
    {
        let mut out: [u8; 80] = [0u8; 80];
        assert(out@ =~= zeros(80));
        put_i32(&mut out, 0, self.kind);
        put_u64(&mut out, 8, self.serial);
        put_i32(&mut out, 16, self.send_event);
        put_u64(&mut out, 24, self.display);
        put_u64(&mut out, 32, self.owner);
        put_u64(&mut out, 40, self.requestor);
        put_u64(&mut out, 48, self.selection);
        put_u64(&mut out, 56, self.target);
        put_u64(&mut out, 64, self.property);
        put_u64(&mut out, 72, self.time);
        out
    }

    /// The record whose fields are read at their C offsets in `b`.
    pub fn from_bytes(b: &[u8; 80]) -> (r: XSelectionRequestEvent)
        ensures
            r == XSelectionRequestEvent::from_image(b@),
    {
        XSelectionRequestEvent {
            kind: get_i32(b, 0),
            serial: get_u64(b, 8),
            send_event: get_i32(b, 16),
            display: get_u64(b, 24),
            owner: get_u64(b, 32),
            requestor: get_u64(b, 40),
            selection: get_u64(b, 48),
            target: get_u64(b, 56),
            property: get_u64(b, 64),
            time: get_u64(b, 72),
        }
    }
}

impl EventVariant for XSelectionRequestEvent {
    open spec fn layout_size() -> nat {
        80
    }

    open spec fn image(self) -> Seq<u8> {
        let b = zeros(80);
        let b = overwrite(b, 0, i32_bytes(self.kind));
        let b = overwrite(b, 8, u64_bytes(self.serial));
        let b = overwrite(b, 16, i32_bytes(self.send_event));
        let b = overwrite(b, 24, u64_bytes(self.display));
        let b = overwrite(b, 32, u64_bytes(self.owner));
        let b = overwrite(b, 40, u64_bytes(self.requestor));
        let b = overwrite(b, 48, u64_bytes(self.selection));
        let b = overwrite(b, 56, u64_bytes(self.target));
        let b = overwrite(b, 64, u64_bytes(self.property));
        let b = overwrite(b, 72, u64_bytes(self.time));
        b
    }

    open spec fn from_image(b: Seq<u8>) -> XSelectionRequestEvent {
        XSelectionRequestEvent {
            kind: i32_at(b, 0),
            serial: u64_at(b, 8),
            send_event: i32_at(b, 16),
            display: u64_at(b, 24),
            owner: u64_at(b, 32),
            requestor: u64_at(b, 40),
            selection: u64_at(b, 48),
            target: u64_at(b, 56),
            property: u64_at(b, 64),
            time: u64_at(b, 72),
        }
    }

    open spec fn spec_kind(self) -> c_int {
        self.kind
    }

    proof fn lemma_size() {
    }

    proof fn lemma_image(self) {
        broadcast use group_native, group_signed;

        let img = self.image();
        assert(img.subrange(0, 4) =~= i32_bytes(self.kind));
        assert(img.subrange(8, 16) =~= u64_bytes(self.serial));
        assert(img.subrange(16, 20) =~= i32_bytes(self.send_event));
        assert(img.subrange(24, 32) =~= u64_bytes(self.display));
        assert(img.subrange(32, 40) =~= u64_bytes(self.owner));
        assert(img.subrange(40, 48) =~= u64_bytes(self.requestor));
        assert(img.subrange(48, 56) =~= u64_bytes(self.selection));
        assert(img.subrange(56, 64) =~= u64_bytes(self.target));
        assert(img.subrange(64, 72) =~= u64_bytes(self.property));
        assert(img.subrange(72, 80) =~= u64_bytes(self.time));
    }
}

impl From<XSelectionRequestEvent> for XEvent {
    fn from(e: XSelectionRequestEvent) -> XEvent {
        let raw = e.to_bytes();
        let mut image: [u8; 192] = [0u8; 192];
        transmute_union(&raw, &mut image);
        XEvent::from_bytes(&image)
    }
}

impl FromSpecImpl<XSelectionRequestEvent> for XEvent {
    open spec fn obeys_from_spec() -> bool {
        true
    }

    open spec fn from_spec(e: XSelectionRequestEvent) -> XEvent {
        variant_to_union(e)
    }
}

impl From<XEvent> for XSelectionRequestEvent {
    fn from(e: XEvent) -> XSelectionRequestEvent {
        let image = e.to_bytes();
        let mut raw: [u8; 80] = [0u8; 80];
        transmute_union(&image, &mut raw);
        XSelectionRequestEvent::from_bytes(&raw)
    }
}

impl FromSpecImpl<XEvent> for XSelectionRequestEvent {
    open spec fn obeys_from_spec() -> bool {
        true
    }

    open spec fn from_spec(e: XEvent) -> XSelectionRequestEvent {
        union_to_variant(e)
    }
}

#[derive(Clone, Copy, PartialEq, Debug)]
pub struct XUnmapEvent {
    pub kind: c_int,
    pub serial: c_ulong,
    pub send_event: Bool,
    pub display: DisplayAddr,
    pub event: Window,
    pub window: Window,
    pub from_configure: Bool,
}

impl XUnmapEvent {
    /// The record's memory in its C layout (56 bytes).
    pub fn to_bytes(&self) -> (r: [u8; 56])
        ensures
            r@ == self.image(),
    {
        let mut out: [u8; 56] = [0u8; 56];
        assert(out@ =~= zeros(56));
        put_i32(&mut out, 0, self.kind);
        put_u64(&mut out, 8, self.serial);
        put_i32(&mut out, 16, self.send_event);
        put_u64(&mut out, 24, self.display);
        put_u64(&mut out, 32, self.event);
        put_u64(&mut out, 40, self.window);
        put_i32(&mut out, 48, self.from_configure);
        out
    }

    /// The record whose fields are read at their C offsets in `b`.
    pub fn from_bytes(b: &[u8; 56]) -> (r: XUnmapEvent)
        ensures
            r == XUnmapEvent::from_image(b@),
    {
        XUnmapEvent {
            kind: get_i32(b, 0),
            serial: get_u64(b, 8),
            send_event: get_i32(b, 16),
            display: get_u64(b, 24),
            event: get_u64(b, 32),
            window: get_u64(b, 40),
            from_configure: get_i32(b, 48),
        }
    }
}

impl EventVariant for XUnmapEvent {
    open spec fn layout_size() -> nat {
        56
    }

    open spec fn image(self) -> Seq<u8> {
        let b = zeros(56);
        let b = overwrite(b, 0, i32_bytes(self.kind));
        let b = overwrite(b, 8, u64_bytes(self.serial));
        let b = overwrite(b, 16, i32_bytes(self.send_event));
        let b = overwrite(b, 24, u64_bytes(self.display));
        let b = overwrite(b, 32, u64_bytes(self.event));
        let b = overwrite(b, 40, u64_bytes(self.window));
        let b = overwrite(b, 48, i32_bytes(self.from_configure));
        b
    }

    open spec fn from_image(b: Seq<u8>) -> XUnmapEvent {
        XUnmapEvent {
            kind: i32_at(b, 0),
            serial: u64_at(b, 8),
            send_event: i32_at(b, 16),
            display: u64_at(b, 24),
            event: u64_at(b, 32),
            window: u64_at(b, 40),
            from_configure: i32_at(b, 48),
        }
    }

    open spec fn spec_kind(self) -> c_int {
        self.kind
    }

    proof fn lemma_size() {
    }

    proof fn lemma_image(self) {
        broadcast use group_native, group_signed;

        let img = self.image();
        assert(img.subrange(0, 4) =~= i32_bytes(self.kind));
        assert(img.subrange(8, 16) =~= u64_bytes(self.serial));
        assert(img.subrange(16, 20) =~= i32_bytes(self.send_event));
        assert(img.subrange(24, 32) =~= u64_bytes(self.display));
        assert(img.subrange(32, 40) =~= u64_bytes(self.event));
        assert(img.subrange(40, 48) =~= u64_bytes(self.window));
        assert(img.subrange(48, 52) =~= i32_bytes(self.from_configure));
    }
}

impl From<XUnmapEvent> for XEvent {
    fn from(e: XUnmapEvent) -> XEvent {
        let raw = e.to_bytes();
        let mut image: [u8; 192] = [0u8; 192];
        transmute_union(&raw, &mut image);
        XEvent::from_bytes(&image)
    }
}

impl FromSpecImpl<XUnmapEvent> for XEvent {
    open spec fn obeys_from_spec() -> bool {
        true
    }

    open spec fn from_spec(e: XUnmapEvent) -> XEvent {
        variant_to_union(e)
    }
}

impl From<XEvent> for XUnmapEvent {
    fn from(e: XEvent) -> XUnmapEvent {
        let image = e.to_bytes();
        let mut raw: [u8; 56] = [0u8; 56];
        transmute_union(&image, &mut raw);
        XUnmapEvent::from_bytes(&raw)
    }
}

impl FromSpecImpl<XEvent> for XUnmapEvent {
    open spec fn obeys_from_spec() -> bool {
        true
    }

    open spec fn from_spec(e: XEvent) -> XUnmapEvent {
        union_to_variant(e)
    }
}

#[derive(Clone, Copy, PartialEq, Debug)]
pub struct XVisibilityEvent {
    pub kind: c_int,
    pub serial: c_ulong,
    pub send_event: Bool,
    pub display: DisplayAddr,
    pub window: Window,
    pub state: c_int,
}

impl XVisibilityEvent {
    /// The record's memory in its C layout (48 bytes).
    pub fn to_bytes(&self) -> (r: [u8; 48])
        ensures
            r@ == self.image(),
    {
        let mut out: [u8; 48] = [0u8; 48];
        assert(out@ =~= zeros(48));
        put_i32(&mut out, 0, self.kind);
        put_u64(&mut out, 8, self.serial);
        put_i32(&mut out, 16, self.send_event);
        put_u64(&mut out, 24, self.display);
        put_u64(&mut out, 32, self.window);
        put_i32(&mut out, 40, self.state);
        out
    }

    /// The record whose fields are read at their C offsets in `b`.
    pub fn from_bytes(b: &[u8; 48]) -> (r: XVisibilityEvent)
        ensures
            r == XVisibilityEvent::from_image(b@),
    {
        XVisibilityEvent {
            kind: get_i32(b, 0),
            serial: get_u64(b, 8),
            send_event: get_i32(b, 16),
            display: get_u64(b, 24),
            window: get_u64(b, 32),
            state: get_i32(b, 40),
        }
    }
}

impl EventVariant for XVisibilityEvent {
    open spec fn layout_size() -> nat {
        48
    }

    open spec fn image(self) -> Seq<u8> {
        let b = zeros(48);
        let b = overwrite(b, 0, i32_bytes(self.kind));
        let b = overwrite(b, 8, u64_bytes(self.serial));
        let b = overwrite(b, 16, i32_bytes(self.send_event));
        let b = overwrite(b, 24, u64_bytes(self.display));
        let b = overwrite(b, 32, u64_bytes(self.window));
        let b = overwrite(b, 40, i32_bytes(self.state));
        b
    }

    open spec fn from_image(b: Seq<u8>) -> XVisibilityEvent {
        XVisibilityEvent {
            kind: i32_at(b, 0),
            serial: u64_at(b, 8),
            send_event: i32_at(b, 16),
            display: u64_at(b, 24),
            window: u64_at(b, 32),
            state: i32_at(b, 40),
        }
    }

    open spec fn spec_kind(self) -> c_int {
        self.kind
    }

    proof fn lemma_size() {
    }

    proof fn lemma_image(self) {
        broadcast use group_native, group_signed;

        let img = self.image();
        assert(img.subrange(0, 4) =~= i32_bytes(self.kind));
        assert(img.subrange(8, 16) =~= u64_bytes(self.serial));
        assert(img.subrange(16, 20) =~= i32_bytes(self.send_event));
        assert(img.subrange(24, 32) =~= u64_bytes(self.display));
        assert(img.subrange(32, 40) =~= u64_bytes(self.window));
        assert(img.subrange(40, 44) =~= i32_bytes(self.state));
    }
}

impl From<XVisibilityEvent> for XEvent {
    fn from(e: XVisibilityEvent) -> XEvent {
        let raw = e.to_bytes();
        let mut image: [u8; 192] = [0u8; 192];
        transmute_union(&raw, &mut image);
        XEvent::from_bytes(&image)
    }
}

impl FromSpecImpl<XVisibilityEvent> for XEvent {
    open spec fn obeys_from_spec() -> bool {
        true
    }

    open spec fn from_spec(e: XVisibilityEvent) -> XEvent {
        variant_to_union(e)
    }
}

impl From<XEvent> for XVisibilityEvent {
    fn from(e: XEvent) -> XVisibilityEvent {
        let image = e.to_bytes();
        let mut raw: [u8; 48] = [0u8; 48];
        transmute_union(&image, &mut raw);
        XVisibilityEvent::from_bytes(&raw)
    }
}

impl FromSpecImpl<XEvent> for XVisibilityEvent {
    open spec fn obeys_from_spec() -> bool {
        true
    }

    open spec fn from_spec(e: XEvent) -> XVisibilityEvent {
        union_to_variant(e)
    }
}

} // verus!
