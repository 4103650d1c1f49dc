use vstd::prelude::*;
use vstd::string::StringExecFns;

verus! {

/// Why a numeric field of an event specification failed to parse.
#[derive(Debug, Clone, Copy, PartialEq, Eq, Structural)]
pub enum IntParseError {
    Empty,
    InvalidDigit,
    Overflow,
}

/// Errors reported while turning configuration text into event descriptors.
#[derive(Debug, PartialEq, Eq)]
pub enum Error {
    InputEventInterval(String, IntParseError),
    MouseEventButton(String, IntParseError),
    MouseEventSpec(String),
    KeyboardEventSpec(String),
}

/// Spec-level image of an `Error`, with the offending text as a character sequence.
pub enum ErrorV {
    InputEventInterval(Seq<char>, IntParseError),
    MouseEventButton(Seq<char>, IntParseError),
    MouseEventSpec(Seq<char>),
    KeyboardEventSpec(Seq<char>),
}

impl View for Error {
    type V = ErrorV;

    open spec fn view(&self) -> ErrorV {
        match self {
            Error::InputEventInterval(s, e) => ErrorV::InputEventInterval(s@, *e),
            Error::MouseEventButton(s, e) => ErrorV::MouseEventButton(s@, *e),
            Error::MouseEventSpec(s) => ErrorV::MouseEventSpec(s@),
            Error::KeyboardEventSpec(s) => ErrorV::KeyboardEventSpec(s@),
        }
    }
}

/// The text that `IntParseError::description` returns.
pub open spec fn spec_int_parse_description(e: IntParseError) -> Seq<char> {
    match e {
        IntParseError::Empty => "cannot parse integer from empty string"@,
        IntParseError::InvalidDigit => "invalid digit found in string"@,
        IntParseError::Overflow => "number too large to fit in target type"@,
    }
}

/// The text that `Error::description` returns.
pub open spec fn spec_description(e: ErrorV) -> Seq<char> {
    match e {
        ErrorV::InputEventInterval(s, ie) => "Input event interval "@ + s
            + " is not valid: "@ + spec_int_parse_description(ie),
        ErrorV::MouseEventButton(s, ie) => "Mouse button "@ + s + " is not valid: "@
            + spec_int_parse_description(ie),
        ErrorV::MouseEventSpec(s) => "Mouse event specification "@ + s + " is not valid."@,
        ErrorV::KeyboardEventSpec(s) => "Keyboard event specification "@ + s + " is not valid."@,
    }
}

impl IntParseError {
    /// A human-readable account of the parse failure.
    pub fn description(&self) -> (r: String)
        ensures
            r@ == spec_int_parse_description(*self),
    {
        match self {
            IntParseError::Empty => String::from_str("cannot parse integer from empty string"),
            IntParseError::InvalidDigit => String::from_str("invalid digit found in string"),
            IntParseError::Overflow => String::from_str(
                "number too large to fit in target type",
            ),
        }
    }
}

impl Error {
    /// A human-readable account of the configuration error.
    pub fn description(&self) -> (r: String)
        ensures
            r@ == spec_description(self@),
    {
        match self {
            Error::InputEventInterval(s, e) => {
                let mut out = String::from_str("Input event interval ");
                out.append(s.as_str());
                out.append(" is not valid: ");
                out.append(e.description().as_str());
                out
            },
            Error::MouseEventButton(s, e) => {
                let mut out = String::from_str("Mouse button ");
                out.append(s.as_str());
                out.append(" is not valid: ");
                out.append(e.description().as_str());
                out
            },
            Error::MouseEventSpec(s) => {
                let mut out = String::from_str("Mouse event specification ");
                out.append(s.as_str());
                out.append(" is not valid.");
                out
            },
            Error::KeyboardEventSpec(s) => {
                let mut out = String::from_str("Keyboard event specification ");
                out.append(s.as_str());
                out.append(" is not valid.");
                out
            },
        }
    }
}

} // verus!
