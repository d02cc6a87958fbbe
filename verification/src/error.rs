//! The one kind of failure that the graphics layer reports.

use vstd::prelude::*;
use vstd::string::StringExecFns;
use crate::decimal::decimal;
use crate::decimal::push_decimal;

verus! {

/// A failure of the graphics layer.
#[derive(Clone, Copy, Debug)]
pub enum Error {
    /// The graphics interface failed while doing `context`; `code` is the raw
    /// value of its error flag at that moment.
    Gl { code: u32, context: &'static str },
}

impl Error {
    /// The raw error code.
    pub open spec fn spec_code(self) -> u32 {
        match self {
            Error::Gl { code, .. } => code,
        }
    }

    /// The label of the operation that failed.
    pub open spec fn spec_context(self) -> Seq<char> {
        match self {
            Error::Gl { context, .. } => context@,
        }
    }

    /// The text shown to the host for this error:
    /// `GL error <code in decimal> at <context>`.
    pub open spec fn spec_message(self) -> Seq<char> {
        "GL error "@ + decimal(self.spec_code() as nat) + " at "@ + self.spec_context()
    }

    #[verifier::when_used_as_spec(spec_code)]
    pub fn code(self) -> (c: u32)
        ensures
            c == self.spec_code(),
    {
        match self {
            Error::Gl { code, .. } => code,
        }
    }

    pub fn context(self) -> (c: &'static str)
        ensures
            c@ == self.spec_context(),
    {
        match self {
            Error::Gl { context, .. } => context,
        }
    }

    /// Renders the error as the text that the host is shown.
    pub fn message(self) -> (text: String)
        ensures
            text@ == self.spec_message(),
    {
        let mut text = String::from_str("GL error ");
        push_decimal(&mut text, self.code());
        text.append(" at ");
        text.append(self.context());
        text
    }
}

} // verus!
