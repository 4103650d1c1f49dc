use vstd::prelude::*;
use vstd::string::StringExecFns;
use vstd::string::StrSliceExecFns;

use crate::errors::{Error, ErrorV, IntParseError};
use crate::numparse::{all_digits, dec_value, parse_u64, parse_u8};

verus! {

/// One periodic action requested by the configuration: a key name or a mouse
/// button, together with its repeat interval in milliseconds.
#[derive(Debug, PartialEq, Eq)]
pub enum EventSpec {
    KeyboardEvent(String, u64),
    MouseEvent(u8, u64),
}

/// Spec-level image of an `EventSpec`.
pub enum EventSpecV {
    KeyboardEvent(Seq<char>, u64),
    MouseEvent(u8, u64),
}

impl View for EventSpec {
    type V = EventSpecV;

    open spec fn view(&self) -> EventSpecV {
        match self {
            EventSpec::KeyboardEvent(key, interval) => EventSpecV::KeyboardEvent(key@, *interval),
            EventSpec::MouseEvent(button, interval) => EventSpecV::MouseEvent(*button, *interval),
        }
    }
}

/// Index of the first `':'` in `s`, or `s.len()` if there is none.
pub open spec fn first_colon(s: Seq<char>) -> int
    decreases s.len(),
{
    if s.len() == 0 {
        0
    } else if s[0] == ':' {
        0
    } else {
        1 + first_colon(s.skip(1))
    }
}

/// What `first_colon` returns: the position of the first `':'`.
pub proof fn lemma_first_colon(s: Seq<char>)
    ensures
        0 <= first_colon(s) <= s.len(),
        forall|j: int| 0 <= j < first_colon(s) ==> s[j] != ':',
        first_colon(s) < s.len() ==> s[first_colon(s)] == ':',
    decreases s.len(),
{
    if s.len() > 0 && s[0] != ':' {
        lemma_first_colon(s.skip(1));
        assert(forall|j: int| 1 <= j < s.len() ==> s[j] == s.skip(1)[j - 1]);
    }
}

/// Every character of `s` is printable ASCII (space through tilde).
pub open spec fn printable(s: Seq<char>) -> bool {
    forall|i: int| 0 <= i < s.len() ==> ' ' <= #[trigger] s[i] <= '~'
}

/// The grammar of a keyboard event specification: a non-empty printable key
/// name, a `':'`, and a decimal interval in milliseconds.
pub open spec fn spec_parse_key(s: Seq<char>) -> Result<EventSpecV, ErrorV> {
    let fc = first_colon(s);
    if fc == s.len() {
        Err(ErrorV::KeyboardEventSpec(s))
    } else {
        let key = s.subrange(0, fc);
        let rest = s.subrange(fc + 1, s.len() as int);
        if key.len() == 0 || !printable(key) {
            Err(ErrorV::KeyboardEventSpec(s))
        } else if rest.len() == 0 {
            Err(ErrorV::InputEventInterval(rest, IntParseError::Empty))
        } else if !all_digits(rest) {
            Err(ErrorV::InputEventInterval(rest, IntParseError::InvalidDigit))
        } else if dec_value(rest) > u64::MAX {
            Err(ErrorV::InputEventInterval(rest, IntParseError::Overflow))
        } else {
            Ok(EventSpecV::KeyboardEvent(key, dec_value(rest) as u64))
        }
    }
}

/// The grammar of a mouse event specification: a decimal button number, a
/// `':'`, and a decimal interval in milliseconds.
pub open spec fn spec_parse_mouse(s: Seq<char>) -> Result<EventSpecV, ErrorV> {
    let fc = first_colon(s);
    if fc == s.len() {
        Err(ErrorV::MouseEventSpec(s))
    } else {
        let button = s.subrange(0, fc);
        let rest = s.subrange(fc + 1, s.len() as int);
        if button.len() == 0 {
            Err(ErrorV::MouseEventButton(button, IntParseError::Empty))
        } else if !all_digits(button) {
            Err(ErrorV::MouseEventButton(button, IntParseError::InvalidDigit))
        } else if dec_value(button) > u8::MAX {
            Err(ErrorV::MouseEventButton(button, IntParseError::Overflow))
        } else if rest.len() == 0 {
            Err(ErrorV::InputEventInterval(rest, IntParseError::Empty))
        } else if !all_digits(rest) {
            Err(ErrorV::InputEventInterval(rest, IntParseError::InvalidDigit))
        } else if dec_value(rest) > u64::MAX {
            Err(ErrorV::InputEventInterval(rest, IntParseError::Overflow))
        } else {
            Ok(EventSpecV::MouseEvent(dec_value(button) as u8, dec_value(rest) as u64))
        }
    }
}

/// Finds the first `':'` of `arg`, or `arg`'s length if it has none.
fn find_colon(arg: &str, n: usize) -> (r: usize)
    requires
        n == arg@.len(),
    ensures
        r == first_colon(arg@),
        r <= n,
{
    proof {
        lemma_first_colon(arg@);
    }
    let mut i: usize = 0;
    while i < n
        invariant
            n == arg@.len(),
            i <= n,
            forall|j: int| 0 <= j < i ==> arg@[j] != ':',
            0 <= first_colon(arg@) <= arg@.len(),
            forall|j: int| 0 <= j < first_colon(arg@) ==> arg@[j] != ':',
            first_colon(arg@) < arg@.len() ==> arg@[first_colon(arg@)] == ':',
        decreases n - i,
    {
        let c = arg.get_char(i);
        if c == ':' {
            return i;
        }
        i += 1;
    }
    n
}

/// Checks that `key` is non-empty printable ASCII.
fn valid_key_name(key: &str) -> (r: bool)
    ensures
        r == (key@.len() > 0 && printable(key@)),
{
    let n = key.unicode_len();
    if n == 0 {
        return false;
    }
    let mut i: usize = 0;
    while i < n
        invariant
            n == key@.len(),
            i <= n,
            forall|j: int| 0 <= j < i ==> ' ' <= #[trigger] key@[j] <= '~',
        decreases n - i,
    {
        let c = key.get_char(i);
        if !(' ' <= c && c <= '~') {
            return false;
        }
        i += 1;
    }
    true
}

impl EventSpec {
    /// Parses a mouse specification of the form `button:interval_ms`.
    pub fn parse_mouse(arg: &str) -> (r: Result<Self, Error>)
        ensures
            match r {
                Ok(spec) => spec_parse_mouse(arg@) == Ok::<EventSpecV, ErrorV>(spec@),
                Err(e) => spec_parse_mouse(arg@) == Err::<EventSpecV, ErrorV>(e@),
            },
    {
        let n = arg.unicode_len();
        let fc = find_colon(arg, n);
        if fc == n {
            return Err(Error::MouseEventSpec(String::from_str(arg)));
        }
        let button_str = arg.substring_char(0, fc);
        let interval_str = arg.substring_char(fc + 1, n);
        let button = match parse_u8(button_str) {
            Ok(b) => b,
            Err(e) => {
                return Err(Error::MouseEventButton(String::from_str(button_str), e));
            },
        };
        match parse_u64(interval_str) {
            Ok(interval) => Ok(EventSpec::MouseEvent(button, interval)),
            Err(e) => Err(Error::InputEventInterval(String::from_str(interval_str), e)),
        }
    }

    /// Parses a keyboard specification of the form `key_name:interval_ms`.
    pub fn parse_key(arg: &str) -> (r: Result<Self, Error>)
        ensures
            match r {
                Ok(spec) => spec_parse_key(arg@) == Ok::<EventSpecV, ErrorV>(spec@),
                Err(e) => spec_parse_key(arg@) == Err::<EventSpecV, ErrorV>(e@),
            },
    {
        let n = arg.unicode_len();
        let fc = find_colon(arg, n);
        if fc == n {
            return Err(Error::KeyboardEventSpec(String::from_str(arg)));
        }
        let key_str = arg.substring_char(0, fc);
        let interval_str = arg.substring_char(fc + 1, n);
        if !valid_key_name(key_str) {
            return Err(Error::KeyboardEventSpec(String::from_str(arg)));
        }
        match parse_u64(interval_str) {
            Ok(interval) => Ok(
                EventSpec::KeyboardEvent(String::from_str(key_str), interval),
            ),
            Err(e) => Err(Error::InputEventInterval(String::from_str(interval_str), e)),
        }
    }
}

} // verus!
