use std::mem::size_of;

use libc::{c_char, c_long, c_short};
use x11::client_message::ClientMessageData;
use x11::event::EVENT_SIZE;
use x11::raw::{mem_eq, transmute_union};
use x11::xlib::{
    ClientMessage, KeyPress, KeymapNotify, MotionNotify, XAnyEvent, XButtonEvent,
    XCirculateEvent, XCirculateRequestEvent, XClientMessageEvent, XColormapEvent,
    XConfigureEvent, XConfigureRequestEvent, XCreateWindowEvent, XCrossingEvent,
    XDestroyWindowEvent, XErrorEvent, XEvent, XExposeEvent, XFocusChangeEvent,
    XGraphicsExposeEvent, XGravityEvent, XKeyEvent, XKeymapEvent, XMapEvent, XMapRequestEvent,
    XMappingEvent, XMotionEvent, XNoExposeEvent, XPropertyEvent, XReparentEvent,
    XResizeRequestEvent, XSelectionClearEvent, XSelectionEvent, XSelectionRequestEvent,
    XUnmapEvent, XVisibilityEvent,
};

#[test]
fn xevent_size_test() {
    assert!(size_of::<XEvent>() >= size_of::<XAnyEvent>());
    assert!(size_of::<XEvent>() >= size_of::<XButtonEvent>());
    assert!(size_of::<XEvent>() >= size_of::<XCirculateEvent>());
    assert!(size_of::<XEvent>() >= size_of::<XCirculateRequestEvent>());
    assert!(size_of::<XEvent>() >= size_of::<XClientMessageEvent>());
    assert!(size_of::<XEvent>() >= size_of::<XColormapEvent>());
    assert!(size_of::<XEvent>() >= size_of::<XConfigureEvent>());
    assert!(size_of::<XEvent>() >= size_of::<XConfigureRequestEvent>());
    assert!(size_of::<XEvent>() >= size_of::<XCreateWindowEvent>());
    assert!(size_of::<XEvent>() >= size_of::<XCrossingEvent>());
    assert!(size_of::<XEvent>() >= size_of::<XDestroyWindowEvent>());
    assert!(size_of::<XEvent>() >= size_of::<XErrorEvent>());
    assert!(size_of::<XEvent>() >= size_of::<XExposeEvent>());
    assert!(size_of::<XEvent>() >= size_of::<XFocusChangeEvent>());
    assert!(size_of::<XEvent>() >= size_of::<XGraphicsExposeEvent>());
    assert!(size_of::<XEvent>() >= size_of::<XGravityEvent>());
    assert!(size_of::<XEvent>() >= size_of::<XKeyEvent>());
    assert!(size_of::<XEvent>() >= size_of::<XKeymapEvent>());
    assert!(size_of::<XEvent>() >= size_of::<XMapEvent>());
    assert!(size_of::<XEvent>() >= size_of::<XMappingEvent>());
    assert!(size_of::<XEvent>() >= size_of::<XMapRequestEvent>());
    assert!(size_of::<XEvent>() >= size_of::<XMotionEvent>());
    assert!(size_of::<XEvent>() >= size_of::<XNoExposeEvent>());
    assert!(size_of::<XEvent>() >= size_of::<XPropertyEvent>());
    assert!(size_of::<XEvent>() >= size_of::<XReparentEvent>());
    assert!(size_of::<XEvent>() >= size_of::<XResizeRequestEvent>());
    assert!(size_of::<XEvent>() >= size_of::<XSelectionClearEvent>());
    assert!(size_of::<XEvent>() >= size_of::<XSelectionEvent>());
    assert!(size_of::<XEvent>() >= size_of::<XSelectionRequestEvent>());
    assert!(size_of::<XEvent>() >= size_of::<XUnmapEvent>());
    assert!(size_of::<XEvent>() >= size_of::<XVisibilityEvent>());
}

#[test]
fn client_message_size_test() {
    assert!(size_of::<ClientMessageData>() >= size_of::<[c_char; 20]>());
    assert!(size_of::<ClientMessageData>() >= size_of::<[c_short; 10]>());
}

fn key_event(kind: i32, serial: u64, window: u64, x: i32, y: i32) -> XKeyEvent {
    XKeyEvent {
        kind,
        serial,
        send_event: 0,
        display: 0x7f00_1234_5678,
        window,
        root: 1,
        subwindow: 0,
        time: 99,
        x,
        y,
        x_root: 110,
        y_root: 220,
        state: 0x11,
        keycode: 38,
        same_screen: 1,
    }
}

#[test]
fn key_press_through_union() {
    let key = key_event(KeyPress, 7, 42, 10, 20);
    let event = XEvent::from(key);
    assert_eq!(event.kind(), KeyPress);
    let back = XKeyEvent::from(event);
    assert_eq!(back.window, 42);
    assert_eq!((back.x, back.y), (10, 20));
    assert_eq!(back.serial, 7);
    assert_eq!(back, key);
}

#[test]
fn record_bytes_follow_the_c_layout() {
    let key = key_event(KeyPress, 7, 42, 10, 20);
    let bytes = key.to_bytes();
    assert_eq!(bytes.len(), 96);
    assert_eq!(&bytes[0..4], &KeyPress.to_ne_bytes());
    assert_eq!(&bytes[4..8], &[0, 0, 0, 0]);
    assert_eq!(&bytes[8..16], &7u64.to_ne_bytes());
    assert_eq!(&bytes[32..40], &42u64.to_ne_bytes());
    assert_eq!(&bytes[64..68], &10i32.to_ne_bytes());
    assert_eq!(&bytes[68..72], &20i32.to_ne_bytes());
    assert_eq!(&bytes[84..88], &38u32.to_ne_bytes());
    assert_eq!(XKeyEvent::from_bytes(&bytes), key);
}

#[test]
fn union_tail_is_zero_after_conversion() {
    let any = XAnyEvent { kind: 33, serial: 5, send_event: 1, display: 8, window: 9 };
    let event = XEvent::from(any);
    let bytes = event.to_bytes();
    assert_eq!(bytes.len(), EVENT_SIZE);
    assert!(bytes[40..].iter().all(|b| *b == 0));
    assert_eq!(&bytes[0..40], &any.to_bytes()[..]);
}

#[test]
fn conversion_reads_only_the_record_prefix() {
    let any = XAnyEvent { kind: 2, serial: 5, send_event: 0, display: 8, window: 9 };
    let mut a = XEvent::from(any);
    let b = a;
    for i in 5..24 {
        a.pad[i] = -1;
    }
    assert_eq!(XAnyEvent::from(a), XAnyEvent::from(b));
    assert_eq!(XAnyEvent::from(a), any);
    assert!(a != b);
}

#[test]
fn error_event_keeps_its_own_layout() {
    let err = XErrorEvent {
        kind: 0,
        display: 0xdead_beef,
        serial: 77,
        error_code: 3,
        request_code: 12,
        minor_code: 255,
        resourceid: 0x0040_0001,
    };
    let bytes = err.to_bytes();
    assert_eq!(bytes.len(), 40);
    assert_eq!(&bytes[8..16], &0xdead_beefu64.to_ne_bytes());
    assert_eq!(&bytes[16..24], &77u64.to_ne_bytes());
    assert_eq!(bytes[24], 3);
    assert_eq!(bytes[25], 12);
    assert_eq!(bytes[26], 255);
    assert_eq!(&bytes[32..40], &0x0040_0001u64.to_ne_bytes());
    let event = XEvent::from(err);
    assert_eq!(event.kind(), 0);
    assert_eq!(XErrorEvent::from(event), err);
}

#[test]
fn keymap_and_motion_round_trip() {
    let mut keys = [0 as c_char; 32];
    for (i, k) in keys.iter_mut().enumerate() {
        *k = (i as c_char).wrapping_mul(7).wrapping_sub(100);
    }
    let keymap = XKeymapEvent { kind: KeymapNotify, serial: 1, send_event: 0, display: 2, window: 3, key_vector: keys };
    let event = XEvent::from(keymap);
    assert_eq!(event.kind(), KeymapNotify);
    assert_eq!(XKeymapEvent::from(event), keymap);

    let motion = XMotionEvent {
        kind: MotionNotify,
        serial: u64::MAX,
        send_event: 1,
        display: 4,
        window: 5,
        root: 6,
        subwindow: 7,
        time: 8,
        x: -3,
        y: i32::MIN,
        x_root: i32::MAX,
        y_root: 0,
        state: u32::MAX,
        is_hint: -1,
        same_screen: 1,
    };
    let event = XEvent::from(motion);
    assert_eq!(event.kind(), MotionNotify);
    assert_eq!(XMotionEvent::from(event), motion);
}

#[test]
fn client_message_event_carries_payload() {
    let mut data = ClientMessageData::new();
    data.set_long(0, 123);
    data.set_long(4, -9);
    let msg = XClientMessageEvent {
        kind: ClientMessage,
        serial: 3,
        send_event: 1,
        display: 10,
        window: 11,
        message_type: 300,
        format: 32,
        data,
    };
    let event = XEvent::from(msg);
    assert_eq!(event.kind(), ClientMessage);
    let back = XClientMessageEvent::from(event);
    assert_eq!(back, msg);
    assert_eq!(back.data.get_long(0), 123);
    assert_eq!(back.data.get_long(4), -9);
}

#[test]
fn unknown_kind_passes_through() {
    let mut event = XEvent { pad: [0; 24] };
    event.pad[0] = i64::from_ne_bytes([200, 1, 0, 0, 0, 0, 0, 0]);
    let expected = i32::from_ne_bytes([200, 1, 0, 0]);
    assert_eq!(event.kind(), expected);
    assert_eq!(XAnyEvent::from(event).kind, expected);
}

#[test]
fn union_equality_is_byte_equality() {
    let any = XAnyEvent { kind: KeyPress, serial: 7, send_event: 0, display: 3, window: 42 };
    let mut key = key_event(KeyPress, 7, 42, 0, 0);
    key.display = 3;
    key.root = 0;
    key.time = 0;
    key.x_root = 0;
    key.y_root = 0;
    key.state = 0;
    key.keycode = 0;
    key.same_screen = 0;
    assert!(XEvent::from(any) == XEvent::from(key));
    key.keycode = 1;
    assert!(XEvent::from(any) != XEvent::from(key));
}

#[test]
fn payload_halves_of_a_word() {
    let mut data = ClientMessageData::new();
    data.set_long(0, 0x0102_0304);
    let word = (0x0102_0304 as c_long).to_ne_bytes();
    assert_eq!(data.get_short(0), i16::from_ne_bytes([word[0], word[1]]));
    assert_eq!(data.get_short(1), i16::from_ne_bytes([word[2], word[3]]));
    assert_eq!(data.get_short(2), i16::from_ne_bytes([word[4], word[5]]));
    assert_eq!(data.get_short(3), i16::from_ne_bytes([word[6], word[7]]));
}

#[test]
fn payload_byte_write_keeps_other_bytes() {
    let mut data = ClientMessageData::new();
    data.set_long(0, 0x0102_0304);
    data.set_byte(0, 0x7f);
    let mut expected = (0x0102_0304 as c_long).to_ne_bytes();
    expected[0] = 0x7f;
    assert_eq!(data.get_long(0), c_long::from_ne_bytes(expected));
    assert_eq!(data.get_long(1), 0);
}

#[test]
fn payload_minus_one() {
    let mut data = ClientMessageData::new();
    data.set_long(0, -1);
    let bytes = (-1 as c_long).to_ne_bytes();
    for i in 0..4 {
        assert_eq!(data.get_byte(i), bytes[i] as c_char);
    }
    for i in 1..5 {
        assert_eq!(data.get_long(i), 0);
    }
}

#[test]
fn payload_views_share_memory() {
    let mut data = ClientMessageData::new();
    data.set_short(9, 0x1234);
    let half = 0x1234i16.to_ne_bytes();
    assert_eq!(data.get_byte(18), half[0] as c_char);
    assert_eq!(data.get_byte(19), half[1] as c_char);
    let mut word = [0u8; 8];
    word[2] = half[0];
    word[3] = half[1];
    assert_eq!(data.get_long(2), c_long::from_ne_bytes(word));
    data.set_byte(19, 0);
    data.set_byte(18, 0);
    assert_eq!(data.get_short(9), 0);
    assert_eq!(data.get_long(2), 0);
    data.set_long(1, 0x0807_0605_0403_0201);
    let w1 = (0x0807_0605_0403_0201 as c_long).to_ne_bytes();
    for i in 0..8 {
        assert_eq!(data.get_byte(8 + i), w1[i] as c_char);
    }
}

#[test]
fn truncating_copy_in_every_direction() {
    let input = [1u8, 2, 3, 4, 5];
    let mut longer = [9u8; 8];
    transmute_union(&input, &mut longer);
    assert_eq!(longer, [1, 2, 3, 4, 5, 0, 0, 0]);
    let mut shorter = [9u8; 3];
    transmute_union(&input, &mut shorter);
    assert_eq!(shorter, [1, 2, 3]);
    let mut same = [9u8; 5];
    transmute_union(&input, &mut same);
    assert_eq!(same, input);
    let mut empty: [u8; 0] = [];
    transmute_union(&input, &mut empty);
    let mut from_empty = [9u8; 2];
    transmute_union(&[], &mut from_empty);
    assert_eq!(from_empty, [0, 0]);
}

#[test]
fn bytewise_equality() {
    assert!(mem_eq(&[1, 2, 3], &[1, 2, 3]));
    assert!(!mem_eq(&[1, 2, 3], &[1, 2, 4]));
    assert!(!mem_eq(&[1, 2, 3], &[1, 2]));
    assert!(mem_eq(&[], &[]));
}

#[test]
fn configure_request_and_selection_request_round_trip() {
    let req = XConfigureRequestEvent {
        kind: 23,
        serial: 1000,
        send_event: 0,
        display: 1,
        parent: 2,
        window: 3,
        x: -10,
        y: 10,
        width: 640,
        height: 480,
        border_width: 2,
        above: 4,
        detail: 5,
        value_mask: 0x7f,
    };
    let bytes = req.to_bytes();
    assert_eq!(bytes.len(), 96);
    assert_eq!(&bytes[80..84], &5i32.to_ne_bytes());
    assert_eq!(&bytes[88..96], &0x7fu64.to_ne_bytes());
    let event = XEvent::from(req);
    assert_eq!(event.kind(), 23);
    assert_eq!(XConfigureRequestEvent::from(event), req);

    let sel = XSelectionRequestEvent {
        kind: 30,
        serial: 2,
        send_event: 1,
        display: 3,
        owner: 4,
        requestor: 5,
        selection: 1,
        target: 31,
        property: 39,
        time: 123456,
    };
    let event = XEvent::from(sel);
    assert_eq!(event.kind(), 30);
    assert_eq!(XSelectionRequestEvent::from(event), sel);
}
