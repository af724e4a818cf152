//! What a program hands back when it ends: a success value or an error, and
//! the decision what to do with either.
//!
//! The decision is made here; writing to the error stream and leaving the
//! process are the caller's part.

use vstd::prelude::*;
use vstd::std_specs::convert::FromSpecImpl;
use std::fmt::Display;
use crate::cause::displays_as;
use crate::error::Error;

verus! {

/// An error that can be written out for a reader.
pub trait Render {
    /// `text` is a text that the error may be written out as.
    spec fn renders_as(&self, text: Seq<char>) -> bool;

    /// The text to write out.
    fn render(&self) -> (text: String)
        ensures
            self.renders_as(text@),
    ;
}

impl<E: Display> Render for E {
    open spec fn renders_as(&self, text: Seq<char>) -> bool {
        displays_as(self, text)
    }

    fn render(&self) -> (text: String) {
        self.to_string()
    }
}

impl Render for Error {
    open spec fn renders_as(&self, text: Seq<char>) -> bool {
        Error::renders_as(self, text)
    }

    fn render(&self) -> (text: String) {
        Error::render(self)
    }
}

/// The result of a program's entry point: a success value or an error.
pub enum MainResult<T = (), E = Error> {
    /// The program did its work.
    Success(T),
    /// The program failed.
    Failure(E),
}

impl<T, E> From<Result<T, E>> for MainResult<T, E> {
    /// Takes a result over variant by variant. An error is taken as it is:
    /// its context was captured where it was built.
    fn from(value: Result<T, E>) -> (outcome: MainResult<T, E>)
        ensures
            value matches Ok(success) ==> outcome == MainResult::<T, E>::Success(success),
            value matches Err(error) ==> outcome == MainResult::<T, E>::Failure(error),
    {
        match value {
            Ok(value) => MainResult::Success(value),
            Err(error) => MainResult::Failure(error),
        }
    }
}

impl<T, E> FromSpecImpl<Result<T, E>> for MainResult<T, E> {
    open spec fn obeys_from_spec() -> bool {
        true
    }

    open spec fn from_spec(value: Result<T, E>) -> MainResult<T, E> {
        match value {
            Ok(value) => MainResult::Success(value),
            Err(error) => MainResult::Failure(error),
        }
    }
}

/// What is left to do when the program ends.
#[derive(Debug, PartialEq, Eq)]
pub enum Exit<T> {
    /// Leave with the status that the success value chooses.
    Delegate(T),
    /// Write the message to the error stream and leave with the one failure
    /// status, whatever the cause.
    Failure(String),
}

impl<T, E: Render> MainResult<T, E> {
    /// Decides how the program ends. A success is handed on for its own exit
    /// status. A failure becomes the line to write to the error stream: a
    /// rendering of the error, closed by a line break.
    pub fn report(self) -> (exit: Exit<T>)
        ensures
            self matches MainResult::Success(value) ==> exit == Exit::Delegate(value),
            self matches MainResult::Failure(error) ==> ({
                &&& exit matches Exit::Failure(message)
                &&& exists|text: Seq<char>| error.renders_as(text) && message@ == text + "\n"@
            }),
    {
        match self {
            MainResult::Success(value) => Exit::Delegate(value),
            MainResult::Failure(error) => {
                let mut message = error.render();
                let ghost text = message@;
                message.append("\n");
                assert(error.renders_as(text) && message@ == text + "\n"@);
                Exit::Failure(message)
            },
        }
    }
}

} // verus!
