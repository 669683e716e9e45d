//! The command that puts an image on the root window.

use std::path::PathBuf;
use vstd::prelude::*;

verus! {

/// `std::path::PathBuf`, carried through as it is. Nothing is claimed of what
/// a path holds.
#[verifier::external_type_specification]
#[verifier::external_body]
pub struct ExPathBuf(PathBuf);

/// The program that sets the background.
pub const FEH: &'static str = "/usr/bin/feh";

/// The flag that scales the image to the size of the screen.
pub const BG_SCALE: &'static str = "--bg-scale";

/// One argument on a command line.
#[derive(Clone, Copy, Debug, PartialEq, Eq)]
pub enum Argument<'a> {
    /// A fixed word.
    Flag(&'static str),
    /// A path in the file system.
    Path(&'a PathBuf),
}

/// A child process to start.
#[derive(Debug, PartialEq, Eq)]
pub struct Launch<'a> {
    /// The executable, by its full path.
    pub program: &'static str,
    /// Its arguments, in order.
    pub arguments: Vec<Argument<'a>>,
    /// Whether the child is left to itself once started: nobody waits for it
    /// or looks at its exit status.
    pub detached: bool,
}

/// The command line that shows `img_file` scaled to the screen.
pub open spec fn scaled_background<'a>(img_file: &'a PathBuf) -> Seq<Argument<'a>> {
    seq![Argument::Flag(BG_SCALE), Argument::Path(img_file)]
}

} // verus!
