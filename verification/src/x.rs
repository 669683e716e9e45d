//! The watcher: what it asks of the display, and what it makes of the answers.

use crate::atom::{desktop_names_are_valid, is_atom, is_valid_name, valid_name};
use crate::atom::{InternAtom, NET_CURRENT_DESKTOP, NET_NUMBER_OF_DESKTOPS, NONE};
use crate::background::{scaled_background, Argument, Launch, BG_SCALE, FEH};
use crate::error::XError;
use crate::event::{verdict, SelectInput, Verdict, XEvent};
use crate::event::{PROPERTY_CHANGE_MASK, PROPERTY_NOTIFY};
use crate::property::{absent_reply, low_byte, low_word, narrow_to_u8, narrow_to_usize};
use crate::property::{GetWindowProperty, PropertyReply, ANY_PROPERTY_TYPE, WHOLE_PROPERTY};
use std::path::PathBuf;
use vstd::prelude::*;

verus! {

/// How the attempt to reach the display ended.
#[derive(Clone, Copy, Debug, PartialEq, Eq, Structural)]
pub enum Opening {
    /// The client library could not be loaded.
    NoLibrary,
    /// The library is there, but it opened no display.
    NoDisplay,
    /// A display is open, and this is the root window of its default screen.
    Opened { root_window: u64 },
}

/// The watcher's side of one open display. It knows the root window and
/// nothing else: every answer of the server is handed to it anew.
#[derive(Debug, PartialEq, Eq)]
pub struct XWrapper {
    root_window: u64,
}

impl XWrapper {
    /// The root window that the watcher was made with.
    pub closed spec fn root(&self) -> u64 {
        self.root_window
    }

    /// Makes the watcher of a display that was opened, and refuses to make
    /// one of a display that was not.
    pub fn new(opening: Opening) -> (r: Result<XWrapper, XError>)
        ensures
            opening is NoLibrary ==> r == Err::<XWrapper, XError>(XError::LibraryUnavailable),
            opening is NoDisplay ==> r == Err::<XWrapper, XError>(XError::DisplayUnavailable),
            opening matches Opening::Opened { root_window } ==> r matches Ok(x) && x.root()
                == root_window,
    {
        match opening {
            Opening::NoLibrary => Err(XError::LibraryUnavailable),
            Opening::NoDisplay => Err(XError::DisplayUnavailable),
            Opening::Opened { root_window } => Ok(XWrapper { root_window }),
        }
    }

    /// The root window.
    pub fn root_window(&self) -> (w: u64)
        ensures
            w == self.root(),
    {
        self.root_window
    }

    /// The subscription that has to be in place before the first wait: the
    /// root window reports property changes, and no other class of event.
    pub fn init(&self) -> (s: SelectInput)
        ensures
            s.window == self.root(),
            s.event_mask == PROPERTY_CHANGE_MASK,
    {
        SelectInput { window: self.root_window, event_mask: PROPERTY_CHANGE_MASK }
    }

    /// The lookup of `atom`. It never creates an atom: a name that has none is
    /// answered with [`NONE`]. A name that cannot be sent is refused.
    pub fn get_atom_by_name<'a>(&self, atom: &'a str) -> (r: Result<InternAtom<'a>, XError>)
        ensures
            valid_name(atom@) ==> r == Ok::<InternAtom<'a>, XError>(
                (InternAtom { name: atom, only_if_exists: true }),
            ),
            !valid_name(atom@) ==> r == Err::<InternAtom<'a>, XError>(XError::InvalidName),
            r matches Ok(lookup) ==> lookup.wf(),
    {
        if is_valid_name(atom) {
            Ok(InternAtom { name: atom, only_if_exists: true })
        } else {
            Err(XError::InvalidName)
        }
    }

    /// The lookup of the property that holds the active desktop.
    pub fn current_desktop_lookup(&self) -> (lookup: InternAtom<'static>)
        ensures
            lookup == (InternAtom { name: NET_CURRENT_DESKTOP, only_if_exists: true }),
            lookup.wf(),
    {
        proof {
            desktop_names_are_valid();
        }
        self.get_atom_by_name(NET_CURRENT_DESKTOP).unwrap()
    }

    /// The lookup of the property that holds the number of desktops.
    pub fn number_of_desktops_lookup(&self) -> (lookup: InternAtom<'static>)
        ensures
            lookup == (InternAtom { name: NET_NUMBER_OF_DESKTOPS, only_if_exists: true }),
            lookup.wf(),
    {
        proof {
            desktop_names_are_valid();
        }
        self.get_atom_by_name(NET_NUMBER_OF_DESKTOPS).unwrap()
    }

    /// What the wait for a desktop change does with `event`, the next one
    /// from the queue, when the lookup of the active-desktop property was
    /// answered with `wanted`.
    ///
    /// A notification for that property ends the wait and is returned as it
    /// came. A notification for any other property is dropped. Anything that
    /// is not a property-change notification breaks the subscription that
    /// [`XWrapper::init`] describes, and is an error.
    pub fn next_event(&mut self, event: XEvent, wanted: u64) -> (r: Result<Verdict, XError>)
        ensures
            *final(self) == *old(self),
            r == verdict(event, wanted),
            event.is_property_notify() && event.property.atom != wanted ==> r == Ok::<
                Verdict,
                XError,
            >(Verdict::Skip),
            event.is_property_notify() && event.property.atom == wanted ==> r == Ok::<
                Verdict,
                XError,
            >(Verdict::Deliver(event.property)),
            !event.is_property_notify() ==> r == Err::<Verdict, XError>(
                (XError::UnexpectedEvent { type_: event.property.type_ }),
            ),
    {
        if event.get_type() != PROPERTY_NOTIFY {
            Err(XError::UnexpectedEvent { type_: event.get_type() })
        } else if event.property.atom == wanted {
            Ok(Verdict::Deliver(event.property))
        } else {
            Ok(Verdict::Skip)
        }
    }

    /// The read that a query makes once the lookup of its property was
    /// answered with `atom`: none when there is no such atom, and else one of
    /// the whole property on the root window.
    pub open spec fn property_read(&self, atom: u64) -> Option<GetWindowProperty> {
        if is_atom(atom) {
            Some(
                GetWindowProperty {
                    window: self.root(),
                    property: atom,
                    long_offset: 0,
                    long_length: WHOLE_PROPERTY,
                    delete: false,
                    req_type: ANY_PROPERTY_TYPE,
                },
            )
        } else {
            None
        }
    }

    /// The read of the root-window property `atom`: all of it, of whatever
    /// type, left in place. There is nothing to read when the lookup found no
    /// atom; the property then counts as one that the window does not have,
    /// and the query goes on with [`PropertyReply::absent`].
    pub fn window_property(&self, atom: u64) -> (r: Option<GetWindowProperty>)
        ensures
            r == self.property_read(atom),
            r is Some <==> is_atom(atom),
            r matches Some(read) ==> {
                &&& read.window == self.root()
                &&& read.property == atom
                &&& read.reads_everything()
            },
    {
        if atom == NONE {
            None
        } else {
            Some(
                GetWindowProperty {
                    window: self.root_window,
                    property: atom,
                    long_offset: 0,
                    long_length: WHOLE_PROPERTY,
                    delete: false,
                    req_type: ANY_PROPERTY_TYPE,
                },
            )
        }
    }

    /// The number of desktops, from the reply to the read of
    /// [`NET_NUMBER_OF_DESKTOPS`]: the one integer in it, cut to eight bits.
    pub fn get_number_of_desktops(&self, reply: &PropertyReply) -> (r: Result<u8, XError>)
        ensures
            r == reply.number_of_desktops(),
            r is Ok <==> reply.values().len() == 1,
            reply.values().len() == 1 ==> r == Ok::<u8, XError>(low_byte(reply.values()[0])),
            reply.values().len() != 1 ==> r == Err::<u8, XError>(
                (XError::ItemCount { count: reply.values().len() as usize }),
            ),
    {
        match reply.single_integer() {
            Ok(value) => Ok(narrow_to_u8(value)),
            Err(e) => Err(e),
        }
    }

    /// Tells the background setter to show `img_file`, scaled to the screen,
    /// and not to be waited for.
    pub fn change_background<'a>(&mut self, img_file: &'a PathBuf) -> (launch: Launch<'a>)
        ensures
            *final(self) == *old(self),
            launch.program == FEH,
            launch.arguments@ == scaled_background(img_file),
            launch.detached,
    {
        let mut arguments: Vec<Argument<'a>> = Vec::new();
        arguments.push(Argument::Flag(BG_SCALE));
        arguments.push(Argument::Path(img_file));
        Launch { program: FEH, arguments, detached: true }
    }

    /// The index of the active desktop, from the reply to the read of
    /// [`NET_CURRENT_DESKTOP`]: the one integer in it, as a `usize`.
    pub fn get_current_desktop(&self, reply: &PropertyReply) -> (r: Result<usize, XError>)
        ensures
            r == reply.current_desktop(),
            r is Ok <==> reply.values().len() == 1,
            reply.values().len() == 1 ==> r == Ok::<usize, XError>(low_word(reply.values()[0])),
            reply.values().len() != 1 ==> r == Err::<usize, XError>(
                (XError::ItemCount { count: reply.values().len() as usize }),
            ),
    {
        match reply.single_integer() {
            Ok(value) => Ok(narrow_to_usize(value)),
            Err(e) => Err(e),
        }
    }
}

/// A lookup that found no atom is answered with [`NONE`], an identifier that
/// no atom has. Whoever compares against it finds no match: a wait delivers
/// no notification that names an atom, but skips it, and a query has no
/// property to read and ends as on a property without items.
pub proof fn missing_atom_matches_nothing(x: XWrapper, event: XEvent)
    requires
        is_atom(event.property.atom),
    ensures
        !is_atom(NONE),
        !(verdict(event, NONE) matches Ok(Verdict::Deliver(_))),
        event.is_property_notify() ==> verdict(event, NONE) == Ok::<Verdict, XError>(
            Verdict::Skip,
        ),
        x.property_read(NONE) is None,
        absent_reply().number_of_desktops() == Err::<u8, XError>(
            (XError::ItemCount { count: 0 }),
        ),
        absent_reply().current_desktop() == Err::<usize, XError>(
            (XError::ItemCount { count: 0 }),
        ),
{
}

} // verus!
