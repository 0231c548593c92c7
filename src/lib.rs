//! Safe access to the LuaDec bytecode decompiler.
//!
//! A request starts with [`decompile`] (or [`decompile_file`], or the same
//! methods of [`Decompiler`]) and yields a [`Session`]. Whoever holds the
//! native library performs each [`Action`] the session asks for, reports what
//! it saw as an [`Event`], and takes the outcome when the action is
//! [`Action::Finish`]. The session guarantees that the decompiler is called at
//! most once, that the handle it returns is released exactly once, that its
//! error is read before its result, and that every failure is a
//! [`DecompileError`].
use vstd::prelude::*;

pub mod boundary;
pub mod error;

pub use boundary::{Action, Event, Session, SessionModel};
pub use error::{DecompileError, Failure};

use boundary::start;

verus! {

/// Starts decompiling `bytecode`. An empty buffer fails at once with
/// `InvalidBytecode`; any other waits for the foreign decompile call.
pub fn decompile(bytecode: &[u8]) -> (r: Session)
    ensures
        r@.wf(),
        r@ == start(bytecode@),
{
    Session::begin(bytecode)
}

/// Starts decompiling the contents of a bytecode file, given as the result of
/// reading it whole. A failed read is the outcome, as `Io`, and nothing
/// foreign is asked.
pub fn decompile_file(read: Result<&[u8], std::io::Error>) -> (r: Session)
    ensures
        r@.wf(),
        match read {
            Ok(bytecode) => r@ == start(bytecode@),
            Err(e) => r@ == (SessionModel {
                next: Action::Finish,
                outcome: Some(Err(Failure::Io(e))),
            }),
        },
{
    match read {
        Ok(bytecode) => decompile(bytecode),
        Err(e) => Session::read_failed(e),
    }
}

/// An entry point for callers who prefer an object; it holds no state.
pub struct Decompiler {}

impl Decompiler {
    /// A new decompiler; this cannot fail.
    pub fn new() -> (r: Decompiler)
        ensures
            r == (Decompiler {}),
    {
        Decompiler {}
    }

    /// Same as the free function [`decompile`].
    pub fn decompile(&self, bytecode: &[u8]) -> (r: Session)
        ensures
            r@.wf(),
            r@ == start(bytecode@),
    {
        decompile(bytecode)
    }

    /// Same as the free function [`decompile_file`].
    pub fn decompile_file(&self, read: Result<&[u8], std::io::Error>) -> (r: Session)
        ensures
            r@.wf(),
            match read {
                Ok(bytecode) => r@ == start(bytecode@),
                Err(e) => r@ == (SessionModel {
                    next: Action::Finish,
                    outcome: Some(Err(Failure::Io(e))),
                }),
            },
    {
        decompile_file(read)
    }
}

impl Default for Decompiler {
    fn default() -> (r: Decompiler)
        ensures
            r == (Decompiler {}),
    {
        Decompiler::new()
    }
}

} // verus!
