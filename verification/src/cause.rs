//! The cause of an error: any value that can be displayed and debugged, held
//! behind a trait object once the error is built.

use vstd::prelude::*;
use vstd::string::to_string_from_display_ensures;
use std::fmt::{Debug, Display, Formatter};

verus! {

/// `std::fmt::Formatter`, the sink that a `Debug` impl writes to.
#[verifier::external_type_specification]
#[verifier::external_body]
pub struct ExFormatter<'a>(std::fmt::Formatter<'a>);

/// `std::fmt::Error`, the failure of such a sink.
#[verifier::external_type_specification]
#[verifier::external_body]
pub struct ExFmtError(std::fmt::Error);

/// `text` is a text that `value` displays as: one that `to_string` may
/// return for it. A `Display` impl is free to answer differently from call to
/// call, so a value can have more than one.
pub open spec fn displays_as<T: Display + ?Sized>(value: &T, text: Seq<char>) -> bool {
    exists|s: String| s@ == text && to_string_from_display_ensures::<T>(value, s)
}

/// `Debug::fmt` of `value` into `f`. Nothing is claimed of what is written.
#[verifier::external_body]
fn debug_into<T: Debug>(value: &T, f: &mut Formatter<'_>) -> (done: Result<(), std::fmt::Error>) {
    Debug::fmt(value, f)
}

/// What an error keeps of its cause once the cause's type is forgotten.
pub trait Cause: Send + Sync + 'static {
    /// `text` is a text that the cause displays as.
    spec fn is_message(&self, text: Seq<char>) -> bool;

    /// The cause's display text.
    fn message(&self) -> (text: String)
        ensures
            self.is_message(text@),
    ;

    /// Writes the cause's debug text to `f`.
    fn debug(&self, f: &mut Formatter<'_>) -> (done: Result<(), std::fmt::Error>);
}

impl<T: Display + Debug + Send + Sync + 'static> Cause for T {
    open spec fn is_message(&self, text: Seq<char>) -> bool {
        displays_as(self, text)
    }

    fn message(&self) -> (text: String) {
        self.to_string()
    }

    fn debug(&self, f: &mut Formatter<'_>) -> (done: Result<(), std::fmt::Error>) {
        debug_into(self, f)
    }
}

impl Debug for dyn Cause {
    fn fmt(&self, f: &mut Formatter<'_>) -> (done: Result<(), std::fmt::Error>) {
        self.debug(f)
    }
}

} // verus!
