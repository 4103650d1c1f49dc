use vstd::prelude::*;

verus! {

/// Keys of the virtual keyboard that the uinput-style backend can emit.
#[derive(Debug, Clone, Copy, PartialEq, Eq, Structural)]
pub enum UinputKey {
    Num0,
    Num1,
    Num2,
    Num3,
    Num4,
    Num5,
    Num6,
    Num7,
    Num8,
    Num9,
    A,
    B,
    C,
    D,
    E,
    F,
    G,
    H,
    I,
    J,
    K,
    L,
    M,
    N,
    O,
    P,
    Q,
    R,
    S,
    T,
    U,
    V,
    W,
    X,
    Y,
    Z,
    Comma,
    Dot,
    Slash,
    Space,
    LeftShift,
    LeftAlt,
    LeftControl,
    Reserved,
}

/// Buttons of the virtual pointer device.
#[derive(Debug, Clone, Copy, PartialEq, Eq, Structural)]
pub enum UinputButton {
    Left,
    Middle,
    Right,
    Extra,
}

/// One synthetic event that the virtual device can deliver.
#[derive(Debug, Clone, Copy, PartialEq, Eq, Structural)]
pub enum UinputEvent {
    Key(UinputKey),
    Button(UinputButton),
}

/// A key or button event together with the modifier keys it needs held.
#[derive(Debug, Clone, Copy, PartialEq, Eq, Structural)]
pub struct ModifiedEvent {
    pub event: UinputEvent,
    pub shift: bool,
    pub control: bool,
    pub alt: bool,
}

/// Which mouse button a configured button number selects.
pub open spec fn spec_button_event(button: u8) -> ModifiedEvent {
    let b = if button == 0 || button == 1 {
        UinputButton::Left
    } else if button == 2 {
        UinputButton::Middle
    } else if button == 3 {
        UinputButton::Right
    } else {
        UinputButton::Extra
    };
    ModifiedEvent { event: UinputEvent::Button(b), shift: false, control: false, alt: false }
}

/// Which key, and whether shift must be held, a single character resolves to.
/// Characters outside the table resolve to the reserved key.
pub open spec fn spec_char_key(c: char) -> (UinputKey, bool) {
    if c == '1' { (UinputKey::Num1, false) }
    else if c == '2' { (UinputKey::Num2, false) }
    else if c == '3' { (UinputKey::Num3, false) }
    else if c == '4' { (UinputKey::Num4, false) }
    else if c == '5' { (UinputKey::Num5, false) }
    else if c == '6' { (UinputKey::Num6, false) }
    else if c == '7' { (UinputKey::Num7, false) }
    else if c == '8' { (UinputKey::Num8, false) }
    else if c == '9' { (UinputKey::Num9, false) }
    else if c == '0' { (UinputKey::Num0, false) }
    else if c == '!' { (UinputKey::Num1, true) }
    else if c == '@' { (UinputKey::Num2, true) }
    else if c == '#' { (UinputKey::Num3, true) }
    else if c == '$' { (UinputKey::Num4, true) }
    else if c == '%' { (UinputKey::Num5, true) }
    else if c == '^' { (UinputKey::Num6, true) }
    else if c == '&' { (UinputKey::Num7, true) }
    else if c == '*' { (UinputKey::Num8, true) }
    else if c == '(' { (UinputKey::Num9, true) }
    else if c == ')' { (UinputKey::Num0, true) }
    else if c == 'a' { (UinputKey::A, false) }
    else if c == 'b' { (UinputKey::B, false) }
    else if c == 'c' { (UinputKey::C, false) }
    else if c == 'd' { (UinputKey::D, false) }
    else if c == 'e' { (UinputKey::E, false) }
    else if c == 'f' { (UinputKey::F, false) }
    else if c == 'g' { (UinputKey::G, false) }
    else if c == 'h' { (UinputKey::H, false) }
    else if c == 'i' { (UinputKey::I, false) }
    else if c == 'j' { (UinputKey::J, false) }
    else if c == 'k' { (UinputKey::K, false) }
    else if c == 'l' { (UinputKey::L, false) }
    else if c == 'm' { (UinputKey::M, false) }
    else if c == 'n' { (UinputKey::N, false) }
    else if c == 'o' { (UinputKey::O, false) }
    else if c == 'p' { (UinputKey::P, false) }
    else if c == 'q' { (UinputKey::Q, false) }
    else if c == 'r' { (UinputKey::R, false) }
    else if c == 's' { (UinputKey::S, false) }
    else if c == 't' { (UinputKey::T, false) }
    else if c == 'u' { (UinputKey::U, false) }
    else if c == 'v' { (UinputKey::V, false) }
    else if c == 'w' { (UinputKey::W, false) }
    else if c == 'x' { (UinputKey::X, false) }
    else if c == 'y' { (UinputKey::Y, false) }
    else if c == 'z' { (UinputKey::Z, false) }
    else if c == 'A' { (UinputKey::A, true) }
    else if c == 'B' { (UinputKey::B, true) }
    else if c == 'C' { (UinputKey::C, true) }
    else if c == 'D' { (UinputKey::D, true) }
    else if c == 'E' { (UinputKey::E, true) }
    else if c == 'F' { (UinputKey::F, true) }
    else if c == 'G' { (UinputKey::G, true) }
    else if c == 'H' { (UinputKey::H, true) }
    else if c == 'I' { (UinputKey::I, true) }
    else if c == 'J' { (UinputKey::J, true) }
    else if c == 'K' { (UinputKey::K, true) }
    else if c == 'L' { (UinputKey::L, true) }
    else if c == 'M' { (UinputKey::M, true) }
    else if c == 'N' { (UinputKey::N, true) }
    else if c == 'O' { (UinputKey::O, true) }
    else if c == 'P' { (UinputKey::P, true) }
    else if c == 'Q' { (UinputKey::Q, true) }
    else if c == 'R' { (UinputKey::R, true) }
    else if c == 'S' { (UinputKey::S, true) }
    else if c == 'T' { (UinputKey::T, true) }
    else if c == 'U' { (UinputKey::U, true) }
    else if c == 'V' { (UinputKey::V, true) }
    else if c == 'W' { (UinputKey::W, true) }
    else if c == 'X' { (UinputKey::X, true) }
    else if c == 'Y' { (UinputKey::Y, true) }
    else if c == 'Z' { (UinputKey::Z, true) }
    else if c == ',' { (UinputKey::Comma, false) }
    else if c == '.' { (UinputKey::Dot, false) }
    else if c == '/' { (UinputKey::Slash, false) }
    else if c == '<' { (UinputKey::Comma, true) }
    else if c == '>' { (UinputKey::Dot, true) }
    else if c == '?' { (UinputKey::Slash, true) }
    else if c == ' ' { (UinputKey::Space, false) }
    else { (UinputKey::Reserved, false) }
}

/// Which key event a configured key name resolves to: single characters go
/// through the key table, anything else resolves to the reserved key.
pub open spec fn spec_key_event(name: Seq<char>) -> ModifiedEvent {
    let (key, shift) = if name.len() == 1 {
        spec_char_key(name[0])
    } else {
        (UinputKey::Reserved, false)
    };
    ModifiedEvent { event: UinputEvent::Key(key), shift, control: false, alt: false }
}

/// Resolves one character through the key table.
fn char_key(c: char) -> (r: (UinputKey, bool))
    ensures
        r == spec_char_key(c),
{
    if c == '1' { (UinputKey::Num1, false) }
    else if c == '2' { (UinputKey::Num2, false) }
    else if c == '3' { (UinputKey::Num3, false) }
    else if c == '4' { (UinputKey::Num4, false) }
    else if c == '5' { (UinputKey::Num5, false) }
    else if c == '6' { (UinputKey::Num6, false) }
    else if c == '7' { (UinputKey::Num7, false) }
    else if c == '8' { (UinputKey::Num8, false) }
    else if c == '9' { (UinputKey::Num9, false) }
    else if c == '0' { (UinputKey::Num0, false) }
    else if c == '!' { (UinputKey::Num1, true) }
    else if c == '@' { (UinputKey::Num2, true) }
    else if c == '#' { (UinputKey::Num3, true) }
    else if c == '$' { (UinputKey::Num4, true) }
    else if c == '%' { (UinputKey::Num5, true) }
    else if c == '^' { (UinputKey::Num6, true) }
    else if c == '&' { (UinputKey::Num7, true) }
    else if c == '*' { (UinputKey::Num8, true) }
    else if c == '(' { (UinputKey::Num9, true) }
    else if c == ')' { (UinputKey::Num0, true) }
    else if c == 'a' { (UinputKey::A, false) }
    else if c == 'b' { (UinputKey::B, false) }
    else if c == 'c' { (UinputKey::C, false) }
    else if c == 'd' { (UinputKey::D, false) }
    else if c == 'e' { (UinputKey::E, false) }
    else if c == 'f' { (UinputKey::F, false) }
    else if c == 'g' { (UinputKey::G, false) }
    else if c == 'h' { (UinputKey::H, false) }
    else if c == 'i' { (UinputKey::I, false) }
    else if c == 'j' { (UinputKey::J, false) }
    else if c == 'k' { (UinputKey::K, false) }
    else if c == 'l' { (UinputKey::L, false) }
    else if c == 'm' { (UinputKey::M, false) }
    else if c == 'n' { (UinputKey::N, false) }
    else if c == 'o' { (UinputKey::O, false) }
    else if c == 'p' { (UinputKey::P, false) }
    else if c == 'q' { (UinputKey::Q, false) }
    else if c == 'r' { (UinputKey::R, false) }
    else if c == 's' { (UinputKey::S, false) }
    else if c == 't' { (UinputKey::T, false) }
    else if c == 'u' { (UinputKey::U, false) }
    else if c == 'v' { (UinputKey::V, false) }
    else if c == 'w' { (UinputKey::W, false) }
    else if c == 'x' { (UinputKey::X, false) }
    else if c == 'y' { (UinputKey::Y, false) }
    else if c == 'z' { (UinputKey::Z, false) }
    else if c == 'A' { (UinputKey::A, true) }
    else if c == 'B' { (UinputKey::B, true) }
    else if c == 'C' { (UinputKey::C, true) }
    else if c == 'D' { (UinputKey::D, true) }
    else if c == 'E' { (UinputKey::E, true) }
    else if c == 'F' { (UinputKey::F, true) }
    else if c == 'G' { (UinputKey::G, true) }
    else if c == 'H' { (UinputKey::H, true) }
    else if c == 'I' { (UinputKey::I, true) }
    else if c == 'J' { (UinputKey::J, true) }
    else if c == 'K' { (UinputKey::K, true) }
    else if c == 'L' { (UinputKey::L, true) }
    else if c == 'M' { (UinputKey::M, true) }
    else if c == 'N' { (UinputKey::N, true) }
    else if c == 'O' { (UinputKey::O, true) }
    else if c == 'P' { (UinputKey::P, true) }
    else if c == 'Q' { (UinputKey::Q, true) }
    else if c == 'R' { (UinputKey::R, true) }
    else if c == 'S' { (UinputKey::S, true) }
    else if c == 'T' { (UinputKey::T, true) }
    else if c == 'U' { (UinputKey::U, true) }
    else if c == 'V' { (UinputKey::V, true) }
    else if c == 'W' { (UinputKey::W, true) }
    else if c == 'X' { (UinputKey::X, true) }
    else if c == 'Y' { (UinputKey::Y, true) }
    else if c == 'Z' { (UinputKey::Z, true) }
    else if c == ',' { (UinputKey::Comma, false) }
    else if c == '.' { (UinputKey::Dot, false) }
    else if c == '/' { (UinputKey::Slash, false) }
    else if c == '<' { (UinputKey::Comma, true) }
    else if c == '>' { (UinputKey::Dot, true) }
    else if c == '?' { (UinputKey::Slash, true) }
    else if c == ' ' { (UinputKey::Space, false) }
    else { (UinputKey::Reserved, false) }
}

/// One primitive operation of the virtual input device.
#[derive(Debug, Clone, Copy, PartialEq, Eq, Structural)]
pub enum DeviceOp {
    Press(UinputKey),
    Release(UinputKey),
    Send(UinputEvent, i32),
    Sync,
}

/// The operation sequence that delivers one modified event: hold the needed
/// modifier keys, tap the event between synchronisation points, then release
/// the modifiers in the opposite order.
pub open spec fn spec_injection_ops(m: ModifiedEvent) -> Seq<DeviceOp> {
    (if m.shift {
        seq![DeviceOp::Press(UinputKey::LeftShift)]
    } else {
        Seq::<DeviceOp>::empty()
    }) + (if m.alt {
        seq![DeviceOp::Press(UinputKey::LeftAlt)]
    } else {
        Seq::<DeviceOp>::empty()
    }) + (if m.control {
        seq![DeviceOp::Press(UinputKey::LeftControl)]
    } else {
        Seq::<DeviceOp>::empty()
    }) + seq![
        DeviceOp::Sync,
        DeviceOp::Send(m.event, 1),
        DeviceOp::Sync,
        DeviceOp::Send(m.event, 0),
        DeviceOp::Sync,
    ] + (if m.control {
        seq![DeviceOp::Release(UinputKey::LeftControl)]
    } else {
        Seq::<DeviceOp>::empty()
    }) + (if m.alt {
        seq![DeviceOp::Release(UinputKey::LeftAlt)]
    } else {
        Seq::<DeviceOp>::empty()
    }) + (if m.shift {
        seq![DeviceOp::Release(UinputKey::LeftShift)]
    } else {
        Seq::<DeviceOp>::empty()
    })
}

impl ModifiedEvent {
    /// The device operations that deliver one occurrence of this event.
    pub fn do_event(&self) -> (r: Vec<DeviceOp>)
        ensures
            r@ == spec_injection_ops(*self),
    {
        let mut ops: Vec<DeviceOp> = Vec::new();
        if self.shift {
            ops.push(DeviceOp::Press(UinputKey::LeftShift));
        }
        if self.alt {
            ops.push(DeviceOp::Press(UinputKey::LeftAlt));
        }
        if self.control {
            ops.push(DeviceOp::Press(UinputKey::LeftControl));
        }
        ops.push(DeviceOp::Sync);
        ops.push(DeviceOp::Send(self.event, 1));
        ops.push(DeviceOp::Sync);
        ops.push(DeviceOp::Send(self.event, 0));
        ops.push(DeviceOp::Sync);
        if self.control {
            ops.push(DeviceOp::Release(UinputKey::LeftControl));
        }
        if self.alt {
            ops.push(DeviceOp::Release(UinputKey::LeftAlt));
        }
        if self.shift {
            ops.push(DeviceOp::Release(UinputKey::LeftShift));
        }
        proof {
            assert(ops@ =~= spec_injection_ops(*self));
        }
        ops
    }
}

impl From<u8> for ModifiedEvent {
    /// Maps a configured mouse button number onto the virtual device's buttons.
    fn from(button: u8) -> (r: ModifiedEvent) {
        let b = if button == 0 || button == 1 {
            UinputButton::Left
        } else if button == 2 {
            UinputButton::Middle
        } else if button == 3 {
            UinputButton::Right
        } else {
            UinputButton::Extra
        };
        ModifiedEvent { event: UinputEvent::Button(b), shift: false, control: false, alt: false }
    }
}

impl vstd::std_specs::convert::FromSpecImpl<u8> for ModifiedEvent {
    open spec fn obeys_from_spec() -> bool {
        true
    }

    open spec fn from_spec(button: u8) -> ModifiedEvent {
        spec_button_event(button)
    }
}

impl From<&str> for ModifiedEvent {
    /// Resolves a configured key name onto the virtual device's keys.
    fn from(key: &str) -> (r: ModifiedEvent) {
        let (k, shift) = if key.unicode_len() == 1 {
            char_key(key.get_char(0))
        } else {
            (UinputKey::Reserved, false)
        };
        ModifiedEvent { event: UinputEvent::Key(k), shift, control: false, alt: false }
    }
}

impl vstd::std_specs::convert::FromSpecImpl<&str> for ModifiedEvent {
    open spec fn obeys_from_spec() -> bool {
        true
    }

    open spec fn from_spec(key: &str) -> ModifiedEvent {
        spec_key_event(key@)
    }
}

} // verus!
