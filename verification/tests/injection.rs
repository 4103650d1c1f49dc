use clickrs::focus::{BackendOp, XContext};
use clickrs::keymap::{DeviceOp, ModifiedEvent, UinputButton, UinputEvent, UinputKey};

#[test]
fn flip_saves_and_refocuses_current_window() {
    let ctx = XContext::new(None);
    let (saved, op) = ctx.flip_to_saved_window(7, 1);
    assert_eq!(saved, (7, 1));
    assert_eq!(op, BackendOp::SetFocus { window: 7, revert: 1 });
}

#[test]
fn flip_prefers_the_configured_window() {
    let mut ctx = XContext::new(None);
    ctx.window = Some(42);
    let (saved, op) = ctx.flip_to_saved_window(7, 1);
    assert_eq!(saved, (7, 1));
    assert_eq!(op, BackendOp::SetFocus { window: 42, revert: 1 });
}

#[test]
fn restore_refocuses_the_saved_window() {
    let ctx = XContext::new(None);
    let op = ctx.restore_original_window((7, 1));
    assert_eq!(op, BackendOp::SetFocus { window: 7, revert: 1 });
}

#[test]
fn button_transaction_brackets_the_click() {
    let ctx = XContext::new(None);
    let ops = ctx.send_button_event_to_window(7, 1, 3);
    assert_eq!(
        ops,
        vec![
            BackendOp::SetFocus { window: 7, revert: 1 },
            BackendOp::ButtonDown { button: 3 },
            BackendOp::ButtonUp { button: 3 },
            BackendOp::SetFocus { window: 7, revert: 1 },
            BackendOp::Flush,
        ]
    );
}

#[test]
fn key_transaction_brackets_the_tap() {
    let mut ctx = XContext::new(None);
    ctx.window = Some(42);
    let ops = ctx.send_key_event_to_window(7, 1, 24);
    assert_eq!(
        ops,
        vec![
            BackendOp::SetFocus { window: 42, revert: 1 },
            BackendOp::KeyDown { keycode: 24 },
            BackendOp::KeyUp { keycode: 24 },
            BackendOp::SetFocus { window: 7, revert: 1 },
            BackendOp::Flush,
        ]
    );
}

#[test]
fn key_names_resolve_once_and_stick() {
    let mut ctx = XContext::new(None);
    let first = ctx.keycode_lookup("q", 24);
    assert_eq!(first, 24);
    // a second resolution reports a different code; the memoised one wins
    let second = ctx.keycode_lookup("q", 99);
    assert_eq!(second, 24);
    let other = ctx.keycode_lookup("w", 25);
    assert_eq!(other, 25);
}

#[test]
fn send_key_to_window_uses_the_memoised_code() {
    let mut ctx = XContext::new(None);
    let first = ctx.send_key_to_window(7, 1, "q", 24);
    assert_eq!(first[1], BackendOp::KeyDown { keycode: 24 });
    let second = ctx.send_key_to_window(7, 1, "q", 99);
    assert_eq!(
        second,
        vec![
            BackendOp::SetFocus { window: 7, revert: 1 },
            BackendOp::KeyDown { keycode: 24 },
            BackendOp::KeyUp { keycode: 24 },
            BackendOp::SetFocus { window: 7, revert: 1 },
            BackendOp::Flush,
        ]
    );
}

#[test]
fn new_context_keeps_the_display_name() {
    let ctx = XContext::new(Some(":0".to_string()));
    assert_eq!(ctx.display_name, Some(":0".to_string()));
    assert_eq!(ctx.window, None);
}

#[test]
fn plain_letters_need_no_shift() {
    let m = ModifiedEvent::from("a");
    assert_eq!(m.event, UinputEvent::Key(UinputKey::A));
    assert!(!m.shift && !m.control && !m.alt);
}

#[test]
fn capital_letters_need_shift() {
    let m = ModifiedEvent::from("Z");
    assert_eq!(m.event, UinputEvent::Key(UinputKey::Z));
    assert!(m.shift);
}

#[test]
fn shifted_symbols_map_to_their_digit_keys() {
    let m = ModifiedEvent::from("!");
    assert_eq!(m.event, UinputEvent::Key(UinputKey::Num1));
    assert!(m.shift);
    let m = ModifiedEvent::from(")");
    assert_eq!(m.event, UinputEvent::Key(UinputKey::Num0));
    assert!(m.shift);
    let m = ModifiedEvent::from("?");
    assert_eq!(m.event, UinputEvent::Key(UinputKey::Slash));
    assert!(m.shift);
}

#[test]
fn digits_and_space_map_directly() {
    assert_eq!(
        ModifiedEvent::from("7").event,
        UinputEvent::Key(UinputKey::Num7)
    );
    assert_eq!(
        ModifiedEvent::from(" ").event,
        UinputEvent::Key(UinputKey::Space)
    );
}

#[test]
fn unknown_names_fall_back_to_the_reserved_key() {
    assert_eq!(
        ModifiedEvent::from("ab").event,
        UinputEvent::Key(UinputKey::Reserved)
    );
    assert_eq!(
        ModifiedEvent::from("~").event,
        UinputEvent::Key(UinputKey::Reserved)
    );
    assert_eq!(
        ModifiedEvent::from("").event,
        UinputEvent::Key(UinputKey::Reserved)
    );
}

#[test]
fn mouse_buttons_map_onto_the_virtual_device() {
    assert_eq!(
        ModifiedEvent::from(0u8).event,
        UinputEvent::Button(UinputButton::Left)
    );
    assert_eq!(
        ModifiedEvent::from(1u8).event,
        UinputEvent::Button(UinputButton::Left)
    );
    assert_eq!(
        ModifiedEvent::from(2u8).event,
        UinputEvent::Button(UinputButton::Middle)
    );
    assert_eq!(
        ModifiedEvent::from(3u8).event,
        UinputEvent::Button(UinputButton::Right)
    );
    assert_eq!(
        ModifiedEvent::from(9u8).event,
        UinputEvent::Button(UinputButton::Extra)
    );
}

#[test]
fn unmodified_events_tap_between_syncs() {
    let m = ModifiedEvent::from("a");
    let e = m.event;
    assert_eq!(
        m.do_event(),
        vec![
            DeviceOp::Sync,
            DeviceOp::Send(e, 1),
            DeviceOp::Sync,
            DeviceOp::Send(e, 0),
            DeviceOp::Sync,
        ]
    );
}

#[test]
fn shifted_events_hold_shift_around_the_tap() {
    let m = ModifiedEvent::from("A");
    let e = m.event;
    assert_eq!(
        m.do_event(),
        vec![
            DeviceOp::Press(UinputKey::LeftShift),
            DeviceOp::Sync,
            DeviceOp::Send(e, 1),
            DeviceOp::Sync,
            DeviceOp::Send(e, 0),
            DeviceOp::Sync,
            DeviceOp::Release(UinputKey::LeftShift),
        ]
    );
}

#[test]
fn all_modifiers_release_in_reverse_order() {
    let m = ModifiedEvent {
        event: UinputEvent::Key(UinputKey::A),
        shift: true,
        control: true,
        alt: true,
    };
    assert_eq!(
        m.do_event(),
        vec![
            DeviceOp::Press(UinputKey::LeftShift),
            DeviceOp::Press(UinputKey::LeftAlt),
            DeviceOp::Press(UinputKey::LeftControl),
            DeviceOp::Sync,
            DeviceOp::Send(m.event, 1),
            DeviceOp::Sync,
            DeviceOp::Send(m.event, 0),
            DeviceOp::Sync,
            DeviceOp::Release(UinputKey::LeftControl),
            DeviceOp::Release(UinputKey::LeftAlt),
            DeviceOp::Release(UinputKey::LeftShift),
        ]
    );
}
