//! The names of the X library's C interface that the event model uses.

pub use crate::client_message::ClientMessageData;
pub use crate::event::XEvent;
pub use crate::variants::{
    XAnyEvent,
    XButtonEvent,
    XButtonPressedEvent,
    XButtonReleasedEvent,
    XCirculateEvent,
    XCirculateRequestEvent,
    XClientMessageEvent,
    XColormapEvent,
    XConfigureEvent,
    XConfigureRequestEvent,
    XCreateWindowEvent,
    XCrossingEvent,
    XDestroyWindowEvent,
    XEnterWindowEvent,
    XErrorEvent,
    XExposeEvent,
    XFocusChangeEvent,
    XFocusInEvent,
    XFocusOutEvent,
    XGraphicsExposeEvent,
    XGravityEvent,
    XKeyEvent,
    XKeyPressedEvent,
    XKeyReleasedEvent,
    XKeymapEvent,
    XLeaveWindowEvent,
    XMapEvent,
    XMapRequestEvent,
    XMappingEvent,
    XMotionEvent,
    XNoExposeEvent,
    XPointerMovedEvent,
    XPropertyEvent,
    XReparentEvent,
    XResizeRequestEvent,
    XSelectionClearEvent,
    XSelectionEvent,
    XSelectionRequestEvent,
    XUnmapEvent,
    XVisibilityEvent,
};
use libc::{c_int, c_uchar, c_ulong};
use vstd::prelude::*;

verus! {

pub type XID = c_ulong;
pub type Atom = XID;
pub type Bool = c_int;
pub type Colormap = XID;
pub type Cursor = XID;
pub type Drawable = XID;
pub type Font = XID;
pub type GC = XID;
pub type KeyCode = c_uchar;
pub type KeySym = XID;
pub type Mask = c_ulong;
pub type Pixmap = XID;
pub type Status = Bool;
pub type Time = c_ulong;
pub type VisualID = XID;
pub type Window = XID;

/// Address of the display connection an event came from. The event model
/// only carries it; it never dereferences or frees it.
pub type DisplayAddr = u64;

/// The connection to an X server; only ever handled by address.
pub struct Display;

/// A screen of a display; only ever handled by address.
pub struct Screen;

/// A visual of a screen; only ever handled by address.
pub struct Visual;

/// An input context; only ever handled by address.
pub struct XIC_Rec;

/// An input method; only ever handled by address.
pub struct XIM_Rec;

// boolean values
pub const False: Bool = 0;
pub const True: Bool = 1;

// event kinds
pub const KeyPress: c_int = 2;
pub const KeyRelease: c_int = 3;
pub const ButtonPress: c_int = 4;
pub const ButtonRelease: c_int = 5;
pub const MotionNotify: c_int = 6;
pub const EnterNotify: c_int = 7;
pub const LeaveNotify: c_int = 8;
pub const FocusIn: c_int = 9;
pub const FocusOut: c_int = 10;
pub const KeymapNotify: c_int = 11;
pub const Expose: c_int = 12;
pub const GraphicsExpose: c_int = 13;
pub const NoExpose: c_int = 14;
pub const VisibilityNotify: c_int = 15;
pub const CreateNotify: c_int = 16;
pub const DestroyNotify: c_int = 17;
pub const UnmapNotify: c_int = 18;
pub const MapNotify: c_int = 19;
pub const MapRequest: c_int = 20;
pub const ReparentNotify: c_int = 21;
pub const ConfigureNotify: c_int = 22;
pub const ConfigureRequest: c_int = 23;
pub const GravityNotify: c_int = 24;
pub const ResizeRequest: c_int = 25;
pub const CirculateNotify: c_int = 26;
pub const CirculateRequest: c_int = 27;
pub const PropertyNotify: c_int = 28;
pub const SelectionClear: c_int = 29;
pub const SelectionRequest: c_int = 30;
pub const SelectionNotify: c_int = 31;
pub const ColormapNotify: c_int = 32;
pub const ClientMessage: c_int = 33;
pub const MappingNotify: c_int = 34;

} // verus!
