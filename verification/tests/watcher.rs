//! The watcher driven against a scripted display, the way a program drives it
//! against a real one.

use deskwatch::atom::{InternAtom, NET_CURRENT_DESKTOP, NET_NUMBER_OF_DESKTOPS, NONE};
use deskwatch::error::XError;
use deskwatch::event::{SelectInput, Verdict, XEvent, XPropertyEvent, PROPERTY_NOTIFY};
use deskwatch::property::{GetWindowProperty, PropertyReply};
use deskwatch::x::{Opening, XWrapper};

const ROOT: u64 = 0x1a4;
const ATOM_NUMBER_OF_DESKTOPS: u64 = 301;
const ATOM_CURRENT_DESKTOP: u64 = 302;
const ATOM_ACTIVE_WINDOW: u64 = 303;
const CARDINAL: u64 = 6;

/// A display that answers from a script and records what it was asked.
struct Display {
    hints: bool,
    desktops: Vec<u64>,
    current: Vec<u64>,
    queue: Vec<XEvent>,
    selected: Vec<SelectInput>,
    lookups: usize,
    reads: Vec<GetWindowProperty>,
    pulled: usize,
}

impl Display {
    fn with_desktops(count: u64, current: u64) -> Display {
        Display {
            hints: true,
            desktops: vec![count],
            current: vec![current],
            queue: Vec::new(),
            selected: Vec::new(),
            lookups: 0,
            reads: Vec::new(),
            pulled: 0,
        }
    }

    /// A display whose window manager keeps no desktop properties.
    fn without_hints() -> Display {
        let mut display = Display::with_desktops(0, 0);
        display.hints = false;
        display.desktops = Vec::new();
        display.current = Vec::new();
        display
    }

    fn select_input(&mut self, request: SelectInput) {
        self.selected.push(request);
    }

    fn intern_atom(&mut self, lookup: InternAtom) -> u64 {
        assert!(lookup.only_if_exists);
        self.lookups += 1;
        if !self.hints {
            NONE
        } else if lookup.name == "_NET_NUMBER_OF_DESKTOPS" {
            ATOM_NUMBER_OF_DESKTOPS
        } else if lookup.name == "_NET_CURRENT_DESKTOP" {
            ATOM_CURRENT_DESKTOP
        } else if lookup.name == "_NET_ACTIVE_WINDOW" {
            ATOM_ACTIVE_WINDOW
        } else {
            NONE
        }
    }

    fn get_window_property(&mut self, read: GetWindowProperty) -> PropertyReply {
        self.reads.push(read);
        let items = if read.window != ROOT {
            None
        } else if read.property == ATOM_NUMBER_OF_DESKTOPS {
            Some(self.desktops.clone())
        } else if read.property == ATOM_CURRENT_DESKTOP {
            Some(self.current.clone())
        } else {
            None
        };
        match items {
            Some(items) => PropertyReply {
                actual_type: CARDINAL,
                actual_format: 32,
                bytes_after: 0,
                items: Some(items),
            },
            None => PropertyReply::absent(),
        }
    }

    fn next_event(&mut self) -> XEvent {
        self.pulled += 1;
        self.queue.remove(0)
    }

    fn change(&mut self, atom: u64) {
        let serial = (self.queue.len() + self.pulled) as u64 + 1;
        self.queue.push(XEvent {
            property: XPropertyEvent {
                type_: PROPERTY_NOTIFY,
                serial,
                send_event: 0,
                window: ROOT,
                atom,
                time: 1000 + serial,
                state: 0,
            },
        });
    }

    fn switch_to(&mut self, desktop: u64) {
        self.current = vec![desktop];
        self.change(ATOM_CURRENT_DESKTOP);
    }
}

/// The watcher together with the display that it watches.
struct Session {
    core: XWrapper,
    display: Display,
}

impl Session {
    fn open(display: Display) -> Session {
        let core = XWrapper::new(Opening::Opened { root_window: ROOT }).unwrap();
        let mut session = Session { core, display };
        let subscription = session.core.init();
        session.display.select_input(subscription);
        session
    }

    fn read(&mut self, lookup: InternAtom) -> PropertyReply {
        let atom = self.display.intern_atom(lookup);
        match self.core.window_property(atom) {
            Some(read) => self.display.get_window_property(read),
            None => PropertyReply::absent(),
        }
    }

    fn get_number_of_desktops(&mut self) -> Result<u8, XError> {
        let lookup = self.core.number_of_desktops_lookup();
        let reply = self.read(lookup);
        self.core.get_number_of_desktops(&reply)
    }

    fn get_current_desktop(&mut self) -> Result<usize, XError> {
        let lookup = self.core.current_desktop_lookup();
        let reply = self.read(lookup);
        self.core.get_current_desktop(&reply)
    }

    fn next_event(&mut self) -> Result<XPropertyEvent, XError> {
        loop {
            let event = self.display.next_event();
            let wanted = self.display.intern_atom(self.core.current_desktop_lookup());
            match self.core.next_event(event, wanted)? {
                Verdict::Deliver(change) => return Ok(change),
                Verdict::Skip => {}
            }
        }
    }
}

#[test]
fn current_desktop() {
    let mut x = Session::open(Display::with_desktops(4, 1));
    let current = x.get_current_desktop();
    println!("{:#?}", current);
    assert_eq!(current, Ok(1));
}

#[test]
fn number_of_desktops() {
    let mut x = Session::open(Display::with_desktops(4, 1));
    let count = x.get_number_of_desktops();
    println!("{:#?}", count);
    assert_eq!(count, Ok(4));
}

#[test]
fn next_event() {
    let mut x = Session::open(Display::with_desktops(4, 1));
    x.display.switch_to(3);
    let event = x.next_event().unwrap();
    assert_eq!(event.atom, ATOM_CURRENT_DESKTOP);
    assert_eq!(event.type_, PROPERTY_NOTIFY);
}

#[test]
fn construction_subscribes_the_root_window_to_property_changes_only() {
    let x = Session::open(Display::with_desktops(4, 1));
    assert_eq!(x.core.root_window(), ROOT);
    assert_eq!(
        x.display.selected,
        vec![SelectInput { window: ROOT, event_mask: 0x0040_0000 }]
    );
    assert_eq!(x.display.pulled, 0);
}

#[test]
fn four_desktops_and_a_switch_from_one_to_two() {
    let mut x = Session::open(Display::with_desktops(4, 1));
    assert_eq!(x.get_number_of_desktops(), Ok(4));
    assert_eq!(x.get_current_desktop(), Ok(1));

    x.display.switch_to(2);
    let injected = x.display.queue[0];
    let event = x.next_event().unwrap();
    assert_eq!(event, injected.property);
    assert_eq!(x.display.pulled, 1);
    assert!(x.display.queue.is_empty());
    assert_eq!(x.get_current_desktop(), Ok(2));
    assert_eq!(x.get_number_of_desktops(), Ok(4));
}

#[test]
fn other_property_changes_are_passed_over_until_the_desktop_changes() {
    let mut x = Session::open(Display::with_desktops(4, 0));
    x.display.change(ATOM_ACTIVE_WINDOW);
    x.display.change(ATOM_NUMBER_OF_DESKTOPS);
    x.display.change(ATOM_ACTIVE_WINDOW);
    x.display.switch_to(3);
    x.display.change(ATOM_ACTIVE_WINDOW);
    let expected = x.display.queue[3].property;

    let event = x.next_event().unwrap();
    assert_eq!(event, expected);
    assert_eq!(event.serial, 4);
    assert_eq!(x.display.pulled, 4);
    assert_eq!(x.display.queue.len(), 1);
    assert_eq!(x.get_current_desktop(), Ok(3));
}

#[test]
fn every_wait_and_query_looks_the_name_up_again() {
    let mut x = Session::open(Display::with_desktops(2, 0));
    assert_eq!(x.display.lookups, 0);
    x.get_number_of_desktops().unwrap();
    x.get_current_desktop().unwrap();
    assert_eq!(x.display.lookups, 2);
    x.display.change(ATOM_ACTIVE_WINDOW);
    x.display.switch_to(1);
    x.next_event().unwrap();
    assert_eq!(x.display.lookups, 4);
}

#[test]
fn queries_read_the_whole_property_of_the_root_window() {
    let mut x = Session::open(Display::with_desktops(4, 1));
    x.get_number_of_desktops().unwrap();
    x.get_current_desktop().unwrap();
    let whole = |property: u64| GetWindowProperty {
        window: ROOT,
        property,
        long_offset: 0,
        long_length: 0xFFFF_FFFF,
        delete: false,
        req_type: 0,
    };
    assert_eq!(
        x.display.reads,
        vec![whole(ATOM_NUMBER_OF_DESKTOPS), whole(ATOM_CURRENT_DESKTOP)]
    );
}

#[test]
fn an_event_of_another_class_stops_the_wait() {
    let mut x = Session::open(Display::with_desktops(4, 1));
    x.display.change(ATOM_ACTIVE_WINDOW);
    x.display.switch_to(2);
    x.display.queue[1].property.type_ = 22;
    assert_eq!(x.next_event(), Err(XError::UnexpectedEvent { type_: 22 }));
    assert_eq!(x.display.pulled, 2);
}

#[test]
fn a_property_without_items_is_fatal_for_both_queries() {
    let mut display = Display::with_desktops(4, 1);
    display.desktops = Vec::new();
    display.current = Vec::new();
    let mut x = Session::open(display);
    assert_eq!(x.get_number_of_desktops(), Err(XError::ItemCount { count: 0 }));
    assert_eq!(x.get_current_desktop(), Err(XError::ItemCount { count: 0 }));
}

#[test]
fn a_property_with_two_items_is_fatal_for_both_queries() {
    let mut display = Display::with_desktops(4, 1);
    display.desktops = vec![4, 4];
    display.current = vec![1, 0];
    let mut x = Session::open(display);
    assert_eq!(x.get_number_of_desktops(), Err(XError::ItemCount { count: 2 }));
    assert_eq!(x.get_current_desktop(), Err(XError::ItemCount { count: 2 }));
}

#[test]
fn a_name_without_an_atom_is_answered_with_the_missing_atom() {
    let mut display = Display::with_desktops(4, 1);
    let x = XWrapper::new(Opening::Opened { root_window: ROOT }).unwrap();
    let unknown = x.get_atom_by_name("_NET_NO_SUCH_PROPERTY").unwrap();
    assert_eq!(display.intern_atom(unknown), NONE);
    let known = display.intern_atom(x.current_desktop_lookup());
    assert_eq!(known, ATOM_CURRENT_DESKTOP);
    assert_ne!(known, NONE);
}

#[test]
fn without_the_hints_every_notification_is_skipped_and_nothing_is_read() {
    let mut x = Session::open(Display::without_hints());
    x.display.change(ATOM_ACTIVE_WINDOW);
    x.display.change(ATOM_CURRENT_DESKTOP);
    x.display.change(ATOM_NUMBER_OF_DESKTOPS);
    while !x.display.queue.is_empty() {
        let event = x.display.next_event();
        let wanted = x.display.intern_atom(x.core.current_desktop_lookup());
        assert_eq!(wanted, NONE);
        assert_eq!(x.core.next_event(event, wanted), Ok(Verdict::Skip));
    }
    assert_eq!(x.display.pulled, 3);

    assert_eq!(x.get_number_of_desktops(), Err(XError::ItemCount { count: 0 }));
    assert_eq!(x.get_current_desktop(), Err(XError::ItemCount { count: 0 }));
    assert!(x.display.reads.is_empty());
}

#[test]
fn the_names_are_the_window_manager_hints() {
    let x = XWrapper::new(Opening::Opened { root_window: ROOT }).unwrap();
    assert_eq!(NET_CURRENT_DESKTOP, "_NET_CURRENT_DESKTOP");
    assert_eq!(NET_NUMBER_OF_DESKTOPS, "_NET_NUMBER_OF_DESKTOPS");
    assert_eq!(
        x.current_desktop_lookup(),
        InternAtom { name: "_NET_CURRENT_DESKTOP", only_if_exists: true }
    );
    assert_eq!(
        x.number_of_desktops_lookup(),
        InternAtom { name: "_NET_NUMBER_OF_DESKTOPS", only_if_exists: true }
    );
}
