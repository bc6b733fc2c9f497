//! A minimal runner for Lua scripts: discover one script file, or every
//! script file immediately inside a directory, and execute them in order in
//! one shared interpreter, stopping at the first failure.
//!
//! The selection rules, the ordering, and the fail-fast policy are stated as
//! contracts and proved. The filesystem and the interpreter stay outside:
//! the filesystem's answers are handed in as plain data ([`discover`]), and
//! the interpreter is called through a narrow, documented boundary
//! ([`runner`]).
//!
//! [`discover`]: discover::discover

use vstd::prelude::*;

pub mod discover;
pub mod paths;
pub mod runner;

verus! {

/// One discovered script: the path it was read from, kept for diagnostics,
/// and the full text of the file at load time.
#[derive(Debug)]
pub struct ScriptUnit {
    pub path: Vec<u8>,
    pub content: String,
}

/// The view of a [`ScriptUnit`]: a path as a byte sequence and the text as a
/// character sequence.
pub struct ScriptUnitView {
    pub path: Seq<u8>,
    pub content: Seq<char>,
}

impl View for ScriptUnit {
    type V = ScriptUnitView;

    open spec fn view(&self) -> ScriptUnitView {
        ScriptUnitView { path: self.path@, content: self.content@ }
    }
}

impl DeepView for ScriptUnit {
    type V = ScriptUnitView;

    open spec fn deep_view(&self) -> ScriptUnitView {
        self.view()
    }
}

impl ScriptUnit {
    /// Pair a path with the text that was read from it.
    pub fn new(path: Vec<u8>, content: String) -> (u: ScriptUnit)
        ensures
            u@.path == path@,
            u@.content == content@,
    {
        ScriptUnit { path, content }
    }
}

} // verus!
