//! Atoms: the numbers under which the windowing system files property names.

use vstd::prelude::*;

verus! {

/// The identifier that a lookup answers with when the name has no atom.
/// The server numbers real atoms from one, so no real atom equals it.
pub const NONE: u64 = 0;

/// The root-window property that holds the index of the active desktop.
pub const NET_CURRENT_DESKTOP: &'static str = "_NET_CURRENT_DESKTOP";

/// The root-window property that holds how many desktops there are.
pub const NET_NUMBER_OF_DESKTOPS: &'static str = "_NET_NUMBER_OF_DESKTOPS";

/// A name can be looked up when it has at least one character and none of
/// them is NUL: it crosses to the server as a NUL-terminated string.
pub open spec fn valid_name(name: Seq<char>) -> bool {
    name.len() > 0 && !name.contains('\0')
}

/// Whether `id` can be the identifier of an atom that exists.
pub open spec fn is_atom(id: u64) -> bool {
    id != NONE
}

/// The lookup of one name.
#[derive(Clone, Copy, Debug, PartialEq, Eq)]
pub struct InternAtom<'a> {
    /// The name to look up.
    pub name: &'a str,
    /// When set, a name without an atom is answered with [`NONE`];
    /// when clear, the server makes a new atom for it.
    pub only_if_exists: bool,
}

impl<'a> InternAtom<'a> {
    /// A lookup that the server can be asked and that creates nothing.
    pub open spec fn wf(&self) -> bool {
        valid_name(self.name@) && self.only_if_exists
    }
}

/// Decides [`valid_name`] by one pass over the characters.
pub fn is_valid_name(name: &str) -> (ok: bool)
    ensures
        ok == valid_name(name@),
{
    let mut empty: bool = true;
    let mut nul: bool = false;
    for c in it: name.chars()
        invariant
            it.seq() == name@,
            empty == (it.index() == 0),
            nul == exists|i: int| 0 <= i < it.index() && name@[i] == '\0',
    {
        empty = false;
        if c == '\0' {
            nul = true;
        }
    }
    !empty && !nul
}

/// The two names that the watcher looks up are valid.
pub proof fn desktop_names_are_valid()
    ensures
        valid_name(NET_CURRENT_DESKTOP@),
        valid_name(NET_NUMBER_OF_DESKTOPS@),
        NET_CURRENT_DESKTOP@ != NET_NUMBER_OF_DESKTOPS@,
{
    reveal_strlit("_NET_CURRENT_DESKTOP");
    reveal_strlit("_NET_NUMBER_OF_DESKTOPS");
}

} // verus!
