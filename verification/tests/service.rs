use italiankey::bindings::{bindings, lookup, Modifiers};
use italiankey::inject::{injection_outcome, unicode_down_up, InjectionError, KeyEvent};
use italiankey::menu::{context_menu_ops, exit_label, menu_selection, MenuOp, EXIT_COMMAND};
use italiankey::registry::HotkeyRegistry;
use italiankey::tray::{build_tooltip, tray_icon_config, TrayError, TrayIconState};
use italiankey::wide::to_wide;

fn ctrl_alt() -> Modifiers {
    Modifiers { control: true, alt: true, shift: false, win: false }
}

#[test]
fn lookup_maps_each_binding_to_its_character() {
    assert_eq!(lookup(1), Some('\u{e8}'));
    assert_eq!(lookup(2), Some('\u{e0}'));
    assert_eq!(lookup(3), Some('\u{ec}'));
    assert_eq!(lookup(4), Some('\u{f2}'));
    assert_eq!(lookup(5), Some('\u{f9}'));
}

#[test]
fn lookup_of_unbound_ids_is_none() {
    assert_eq!(lookup(0), None);
    assert_eq!(lookup(6), None);
    assert_eq!(lookup(-1), None);
    assert_eq!(lookup(1000), None);
}

#[test]
fn binding_table_is_the_five_accented_vowels() {
    let table = bindings();
    assert_eq!(table.len(), 5);
    let expected = [
        (1, 0x45, '\u{e8}'),
        (2, 0x41, '\u{e0}'),
        (3, 0x49, '\u{ec}'),
        (4, 0x4F, '\u{f2}'),
        (5, 0x55, '\u{f9}'),
    ];
    for (b, (id, key, output)) in table.iter().zip(expected.iter()) {
        assert_eq!(b.id, *id);
        assert_eq!(b.key, *key);
        assert_eq!(b.output, *output);
        assert_eq!(b.modifiers, ctrl_alt());
    }
}

#[test]
fn modifier_bits_use_the_documented_encoding() {
    assert_eq!(ctrl_alt().bits(), 0x0003);
    let none = Modifiers { control: false, alt: false, shift: false, win: false };
    assert_eq!(none.bits(), 0);
    let all = Modifiers { control: true, alt: true, shift: true, win: true };
    assert_eq!(all.bits(), 0x000F);
    let shift_only = Modifiers { control: false, alt: false, shift: true, win: false };
    assert_eq!(shift_only.bits(), 0x0004);
    let win_only = Modifiers { control: false, alt: false, shift: false, win: true };
    assert_eq!(win_only.bits(), 0x0008);
}

#[test]
fn registering_a_taken_combination_fails_on_the_second_attempt() {
    let mut reg = HotkeyRegistry::new();
    assert!(reg.register(1, ctrl_alt(), 0x45));
    assert!(!reg.register(99, ctrl_alt(), 0x45));
    assert_eq!(reg.len(), 1);
    assert!(!reg.has_id(99));
}

#[test]
fn registering_a_taken_id_fails() {
    let mut reg = HotkeyRegistry::new();
    assert!(reg.register(1, ctrl_alt(), 0x45));
    let shift = Modifiers { control: false, alt: false, shift: true, win: false };
    assert!(!reg.register(1, shift, 0x42));
    assert_eq!(reg.len(), 1);
}

#[test]
fn unregistering_an_unknown_id_is_a_noop() {
    let mut reg = HotkeyRegistry::new();
    assert!(reg.register(1, ctrl_alt(), 0x45));
    reg.unregister(42);
    assert_eq!(reg.len(), 1);
    assert!(reg.has_id(1));
    let mut empty = HotkeyRegistry::new();
    empty.unregister(7);
    assert_eq!(empty.len(), 0);
}

#[test]
fn register_all_succeeds_on_a_free_table() {
    let mut reg = HotkeyRegistry::new();
    assert!(reg.register_all().is_ok());
    assert_eq!(reg.len(), 5);
    for id in 1..=5 {
        assert!(reg.has_id(id));
    }
    assert!(reg.has_combo(ctrl_alt(), 0x45));
    assert!(reg.has_combo(ctrl_alt(), 0x55));
}

#[test]
fn unregister_all_clears_the_five_bindings() {
    let mut reg = HotkeyRegistry::new();
    assert!(reg.register_all().is_ok());
    reg.unregister_all();
    assert_eq!(reg.len(), 0);
    for id in 1..=5 {
        assert!(!reg.has_id(id));
    }
}

#[test]
fn context_menu_trace_creates_once_and_destroys_last() {
    let ops = context_menu_ops();
    assert_eq!(ops.len(), 7);
    assert_eq!(ops[0], MenuOp::Create);
    assert_eq!(*ops.last().unwrap(), MenuOp::Destroy);
    let creates = ops.iter().filter(|o| **o == MenuOp::Create).count();
    let destroys = ops.iter().filter(|o| **o == MenuOp::Destroy).count();
    assert_eq!(creates, 1);
    assert_eq!(destroys, 1);
    let track_at = ops.iter().position(|o| *o == MenuOp::Track).unwrap();
    let destroy_at = ops.iter().position(|o| *o == MenuOp::Destroy).unwrap();
    assert!(track_at < destroy_at);
    assert_eq!(ops[1], MenuOp::InsertItem { command: EXIT_COMMAND });
    assert_eq!(ops[2], MenuOp::SetDefaultItem { command: EXIT_COMMAND });
}

#[test]
fn menu_selection_reads_the_low_word_and_zero_is_dismissal() {
    assert_eq!(menu_selection(0), None);
    assert_eq!(menu_selection(EXIT_COMMAND as u32), Some(EXIT_COMMAND));
    assert_eq!(menu_selection(0x10000 + EXIT_COMMAND as u32), Some(EXIT_COMMAND));
    assert_eq!(menu_selection(7), Some(7));
}

#[test]
fn exit_entry_label() {
    assert_eq!(exit_label(), "Exit");
}

#[test]
fn to_wide_is_utf16_with_terminator() {
    assert_eq!(to_wide("Exit"), vec![0x45, 0x78, 0x69, 0x74, 0]);
    assert_eq!(to_wide(""), vec![0]);
    assert_eq!(to_wide("\u{e8}"), vec![0xE8, 0]);
    assert_eq!(to_wide("\u{1F600}"), vec![0xD83D, 0xDE00, 0]);
}

#[test]
fn tooltip_is_cut_to_the_field_capacity() {
    let short = build_tooltip("Italian accents hotkey");
    assert_eq!(short, to_wide("Italian accents hotkey"));
    let long: String = std::iter::repeat('a').take(200).collect();
    let cut = build_tooltip(&long);
    assert_eq!(cut.len(), 128);
    assert!(cut.iter().all(|u| *u == 0x61));
}

#[test]
fn tray_icon_config_uses_the_reserved_id_and_callback() {
    let config = tray_icon_config("lu2000luk's italian remap");
    assert_eq!(config.icon_id, 1);
    assert_eq!(config.callback_message, 0x0401);
    assert_eq!(config.tooltip, to_wide("lu2000luk's italian remap"));
}

#[test]
fn tray_presence_follows_show_update_remove() {
    let mut tray = TrayIconState::new();
    assert!(!tray.present());
    assert!(tray.show("Italian accents hotkey", true).is_ok());
    assert!(tray.present());
    assert_eq!(*tray.current_tooltip(), to_wide("Italian accents hotkey"));
    tray.update_tooltip("ignored", false);
    assert_eq!(*tray.current_tooltip(), to_wide("Italian accents hotkey"));
    tray.update_tooltip("lu2000luk's italian remap", true);
    assert_eq!(*tray.current_tooltip(), to_wide("lu2000luk's italian remap"));
    tray.remove();
    assert!(!tray.present());
    tray.remove();
    assert!(!tray.present());
}

#[test]
fn tray_show_refused_is_fatal_and_leaves_it_absent() {
    let mut tray = TrayIconState::new();
    assert_eq!(tray.show("tip", false), Err(TrayError::AddRefused));
    assert!(!tray.present());
}

#[test]
fn injection_outcome_reports_the_os_error_code() {
    assert_eq!(injection_outcome(2, 0), Ok(()));
    assert_eq!(injection_outcome(1, 0), Ok(()));
    assert_eq!(injection_outcome(0, 5), Err(InjectionError::Rejected { code: 5 }));
}

#[test]
fn unicode_down_up_is_one_down_then_one_up() {
    let batch = unicode_down_up('\u{e8}');
    assert_eq!(
        batch,
        vec![
            KeyEvent { code_unit: 0xE8, key_up: false },
            KeyEvent { code_unit: 0xE8, key_up: true },
        ]
    );
}
