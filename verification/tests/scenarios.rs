//! End-to-end message sequences driven through the dispatcher, the way the
//! window procedure and the message loop would drive them.

use italiankey::bindings::Modifiers;
use italiankey::dispatch::{
    classify_message, dispatch, hotkey_batch, menu_outcome_requests_quit, DispatchAction,
    WindowMessage,
};
use italiankey::inject::KeyEvent;
use italiankey::menu::{menu_selection, EXIT_COMMAND};
use italiankey::registry::HotkeyRegistry;
use italiankey::tray::TrayIconState;

const HOTKEY_MESSAGE: u32 = 0x0312;
const COMMAND_MESSAGE: u32 = 0x0111;
const DESTROY_MESSAGE: u32 = 0x0002;
const TRAY_CALLBACK: u32 = 0x0401;
const RIGHT_BUTTON_UP: usize = 0x0205;

fn ctrl_alt() -> Modifiers {
    Modifiers { control: true, alt: true, shift: false, win: false }
}

#[test]
fn classification_covers_every_category() {
    assert_eq!(
        classify_message(HOTKEY_MESSAGE, 3, 0),
        WindowMessage::HotkeyFired { id: 3 }
    );
    assert_eq!(
        classify_message(TRAY_CALLBACK, 1, RIGHT_BUTTON_UP),
        WindowMessage::TrayCallback { event: 0x0205 }
    );
    assert_eq!(
        classify_message(COMMAND_MESSAGE, EXIT_COMMAND as usize, 0),
        WindowMessage::MenuCommand { command: EXIT_COMMAND }
    );
    // A command identifier rides in the low word of the parameter.
    assert_eq!(
        classify_message(COMMAND_MESSAGE, 0x30000 + EXIT_COMMAND as usize, 0),
        WindowMessage::MenuCommand { command: EXIT_COMMAND }
    );
    assert_eq!(classify_message(DESTROY_MESSAGE, 0, 0), WindowMessage::DestroyNotice);
    assert_eq!(classify_message(0x4242, 0, 0), WindowMessage::Other);
}

#[test]
fn hotkey_id_is_the_whole_parameter_as_signed_32_bits() {
    assert_eq!(
        classify_message(HOTKEY_MESSAGE, 0x10001, 0),
        WindowMessage::HotkeyFired { id: 0x10001 }
    );
    // System-owned hotkeys carry negative identifiers.
    assert_eq!(
        classify_message(HOTKEY_MESSAGE, 0xFFFF_FFFF, 0),
        WindowMessage::HotkeyFired { id: -1 }
    );
    assert_eq!(
        classify_message(HOTKEY_MESSAGE, 0x8000_0000, 0),
        WindowMessage::HotkeyFired { id: i32::MIN }
    );
    // An identifier that only matches a binding in its low word is not a
    // binding, and injects nothing.
    assert_eq!(
        dispatch(classify_message(HOTKEY_MESSAGE, 0x10001, 0)),
        DispatchAction::Consumed
    );
    assert_eq!(hotkey_batch(0x10001), None);
    assert_eq!(
        dispatch(classify_message(HOTKEY_MESSAGE, 0xFFFF_FFFF, 0)),
        DispatchAction::Consumed
    );
}

#[test]
fn tray_sub_event_is_the_whole_parameter_as_32_bits() {
    assert_eq!(
        classify_message(TRAY_CALLBACK, 1, 0x10205),
        WindowMessage::TrayCallback { event: 0x10205 }
    );
    // Only an exact right-click-up opens the menu.
    assert_eq!(
        dispatch(classify_message(TRAY_CALLBACK, 1, 0x10205)),
        DispatchAction::Consumed
    );
}

#[test]
fn hotkey_id_one_injects_e_grave_once() {
    // A "hotkey fired" message with id 1 arrives.
    let message = classify_message(HOTKEY_MESSAGE, 1, 0);
    let action = dispatch(message);
    assert_eq!(action, DispatchAction::InjectCharacter { output: '\u{e8}' });
    // The injector is invoked exactly once, with one down+up batch.
    let mut injections = 0;
    if let DispatchAction::InjectCharacter { output } = action {
        let batch = hotkey_batch(1).unwrap();
        assert_eq!(output, '\u{e8}');
        assert_eq!(
            batch,
            vec![
                KeyEvent { code_unit: 0xE8, key_up: false },
                KeyEvent { code_unit: 0xE8, key_up: true },
            ]
        );
        injections += 1;
    }
    assert_eq!(injections, 1);
}

#[test]
fn unbound_hotkey_id_injects_nothing() {
    let action = dispatch(classify_message(HOTKEY_MESSAGE, 9, 0));
    assert_eq!(action, DispatchAction::Consumed);
    assert_eq!(hotkey_batch(9), None);
}

#[test]
fn tray_exit_selection_quits_and_destroy_removes_the_icon_once() {
    let mut tray = TrayIconState::new();
    tray.show("Italian accents hotkey", true).unwrap();
    let mut quit_posts = 0;
    let mut removals = 0;

    // Right-click-up on the tray icon opens the context menu.
    let action = dispatch(classify_message(TRAY_CALLBACK, 1, RIGHT_BUTTON_UP));
    assert_eq!(action, DispatchAction::OpenContextMenu);

    // The user picks "Exit": the tracking call returns its command id.
    let selection = menu_selection(EXIT_COMMAND as u32);
    if menu_outcome_requests_quit(selection) {
        quit_posts += 1;
    }
    assert_eq!(quit_posts, 1);

    // The loop winds down: the window-destroy notification arrives.
    let action = dispatch(classify_message(DESTROY_MESSAGE, 0, 0));
    assert_eq!(action, DispatchAction::RemoveIconAndQuit);
    if action == DispatchAction::RemoveIconAndQuit {
        tray.remove();
        removals += 1;
        quit_posts += 1;
    }
    assert_eq!(removals, 1);
    assert!(!tray.present());
}

#[test]
fn dismissed_menu_posts_no_quit() {
    let action = dispatch(classify_message(TRAY_CALLBACK, 1, RIGHT_BUTTON_UP));
    assert_eq!(action, DispatchAction::OpenContextMenu);
    // The menu is dismissed without a selection.
    let selection = menu_selection(0);
    assert_eq!(selection, None);
    let mut quit_posts = 0;
    if menu_outcome_requests_quit(selection) {
        quit_posts += 1;
    }
    assert_eq!(quit_posts, 0);
}

#[test]
fn other_tray_events_are_consumed_without_a_menu() {
    // A left-button-down callback: consumed, no menu.
    let action = dispatch(classify_message(TRAY_CALLBACK, 1, 0x0201));
    assert_eq!(action, DispatchAction::Consumed);
}

#[test]
fn foreign_commands_fall_through_to_default_handling() {
    let action = dispatch(classify_message(COMMAND_MESSAGE, 7, 0));
    assert_eq!(action, DispatchAction::DefaultHandling);
}

#[test]
fn exit_command_message_requests_quit_directly() {
    let action = dispatch(classify_message(COMMAND_MESSAGE, EXIT_COMMAND as usize, 0));
    assert_eq!(action, DispatchAction::RequestQuit);
}

#[test]
fn registration_failure_on_the_third_binding_still_tears_down_cleanly() {
    let mut reg = HotkeyRegistry::new();
    // Another process already holds Ctrl+Alt+I, the third combination.
    assert!(reg.register(1000, ctrl_alt(), 0x49));

    // Startup stops at the third binding and reports which one failed.
    let outcome = reg.register_all();
    assert_eq!(outcome.unwrap_err().index, 2);
    // The first two stayed registered: no rollback on the startup path.
    assert!(reg.has_id(1));
    assert!(reg.has_id(2));
    assert!(!reg.has_id(3));
    assert_eq!(reg.len(), 3);

    // The forced shutdown path unregisters all five ids; three of them
    // were never registered, and none of the calls raises an error.
    reg.unregister_all();
    assert_eq!(reg.len(), 1);
    assert!(reg.has_id(1000));
    for id in 1..=5 {
        assert!(!reg.has_id(id));
    }
}
