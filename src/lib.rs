//! Bindings to the X11 client library, with a verified model of its event
//! union and client-message payload.
#![allow(non_snake_case)]
#![allow(non_upper_case_globals)]
#![allow(non_camel_case_types)]

pub mod native;
pub mod raw;
pub mod event;
pub mod client_message;
pub mod variants;
pub mod xlib;
