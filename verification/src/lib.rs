//! The deciding half of a virtual-desktop watcher for X11.
//!
//! Nothing here talks to a display. The caller owns the connection, performs
//! each request that this crate describes, and hands the answer back; what to
//! ask, what an answer means and when to stop waiting is decided here, and
//! proved.
//!
//! A watcher is made from the outcome of opening the display
//! ([`x::XWrapper::new`]) and subscribes its root window to property changes
//! ([`x::XWrapper::init`]). From then on there are three things to do with it:
//!
//! * wait for the active desktop to change: take the next event from the
//!   queue, look the atom of the active-desktop property up
//!   ([`x::XWrapper::current_desktop_lookup`]) and ask
//!   [`x::XWrapper::next_event`] whether the wait is over;
//! * read the number of desktops or the active desktop: look the atom up,
//!   make the read that [`x::XWrapper::window_property`] describes, and hand
//!   the reply to [`x::XWrapper::get_number_of_desktops`] or
//!   [`x::XWrapper::get_current_desktop`];
//! * set the background: start the command that
//!   [`x::XWrapper::change_background`] describes.

// Names that only contracts mention count as unused once the proofs are erased.
#![allow(unused_imports)]

pub mod atom;
pub mod background;
pub mod error;
pub mod event;
pub mod property;
pub mod x;
