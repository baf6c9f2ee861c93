//! The window-procedure state machine: every OS-delivered message arrives
//! here, serialized, and is classified and routed to exactly one action.
//!
//! The dispatcher owns no long-lived state; it is a pure router over the
//! binding table. A fired hotkey becomes one injection batch; the tray
//! icon's right-click-up callback opens the context menu; the "Exit"
//! command, from the menu or as a direct command message, requests quit;
//! the window-destroy notification removes the icon and requests quit;
//! everything else falls through to default OS handling.

use vstd::prelude::*;
use crate::bindings::{spec_lookup, spec_bindings, spec_bound_id, lookup, lemma_lookup_matches_table};
use crate::inject::{KeyEvent, spec_down_up, unicode_down_up};
use crate::menu::EXIT_COMMAND;
use crate::tray::TRAY_CALLBACK_MESSAGE;

verus! {

/// The OS message number of a fired global hotkey.
pub const HOTKEY_MESSAGE: u32 = 0x0312;

/// The OS message number of a menu or control command.
pub const COMMAND_MESSAGE: u32 = 0x0111;

/// The OS message number of the window-destroy notification.
pub const DESTROY_MESSAGE: u32 = 0x0002;

/// The sub-event code of a right-button release, as the tray callback
/// reports it.
pub const RIGHT_BUTTON_UP: u32 = 0x0205;

/// A received message, reduced to the one category it belongs to and the
/// fields that category carries.
#[derive(Clone, Copy, Debug, PartialEq, Eq, Structural)]
pub enum WindowMessage {
    HotkeyFired { id: i32 },
    TrayCallback { event: u32 },
    MenuCommand { command: u16 },
    DestroyNotice,
    Other,
}

/// What the dispatcher decided for one message.
#[derive(Clone, Copy, Debug, PartialEq, Eq, Structural)]
pub enum DispatchAction {
    /// Inject this character as one down/up batch.
    InjectCharacter { output: char },
    /// Handled; nothing further to do.
    Consumed,
    /// Open the tray context menu and act on its outcome.
    OpenContextMenu,
    /// Post the quit notification.
    RequestQuit,
    /// Remove the tray icon, then post the quit notification.
    RemoveIconAndQuit,
    /// Hand the message to default OS handling.
    DefaultHandling,
}

/// The low 32 bits of a message parameter.
pub open spec fn spec_param_low_u32(w: usize) -> u32 {
    (((w as int) % 0x1_0000_0000) as u32)
}

/// A message parameter read the way the hotkey subsystem delivers a fired
/// hotkey's identifier: its low 32 bits as a signed value. System-owned
/// hotkeys use negative identifiers, which this keeps apart from the
/// table's positive ones.
pub open spec fn spec_param_hotkey_id(w: usize) -> i32 {
    if spec_param_low_u32(w) < 0x8000_0000 {
        spec_param_low_u32(w) as i32
    } else {
        ((spec_param_low_u32(w) - 0x1_0000_0000) as i32)
    }
}

/// Reads the low 32 bits of a message parameter.
pub fn param_low_u32(w: usize) -> (r: u32)
    ensures
        r == spec_param_low_u32(w),
{
    ((w as u64) % 0x1_0000_0000) as u32
}

/// Reads a message parameter as a signed 32-bit hotkey identifier.
pub fn param_hotkey_id(w: usize) -> (id: i32)
    ensures
        id == spec_param_hotkey_id(w),
{
    let low = param_low_u32(w);
    if low < 0x8000_0000 {
        low as i32
    } else {
        ((low as i64) - 0x1_0000_0000i64) as i32
    }
}

/// How a raw message is classified: the hotkey identifier is the whole
/// first parameter as a signed 32-bit value, the tray sub-event the whole
/// second parameter as a 32-bit value; only the command identifier is the
/// low word of its parameter, whose high word the OS uses for other
/// notification codes.
pub open spec fn spec_classify(msg: u32, wparam: usize, lparam: usize) -> WindowMessage {
    if msg == HOTKEY_MESSAGE {
        WindowMessage::HotkeyFired { id: spec_param_hotkey_id(wparam) }
    } else if msg == TRAY_CALLBACK_MESSAGE {
        WindowMessage::TrayCallback { event: spec_param_low_u32(lparam) }
    } else if msg == COMMAND_MESSAGE {
        WindowMessage::MenuCommand { command: (wparam % 0x10000) as u16 }
    } else if msg == DESTROY_MESSAGE {
        WindowMessage::DestroyNotice
    } else {
        WindowMessage::Other
    }
}

/// Classifies a raw message by its number and parameters.
pub fn classify_message(msg: u32, wparam: usize, lparam: usize) -> (r: WindowMessage)
    ensures
        r == spec_classify(msg, wparam, lparam),
{
    if msg == HOTKEY_MESSAGE {
        WindowMessage::HotkeyFired { id: param_hotkey_id(wparam) }
    } else if msg == TRAY_CALLBACK_MESSAGE {
        WindowMessage::TrayCallback { event: param_low_u32(lparam) }
    } else if msg == COMMAND_MESSAGE {
        WindowMessage::MenuCommand { command: (wparam % 0x10000) as u16 }
    } else if msg == DESTROY_MESSAGE {
        WindowMessage::DestroyNotice
    } else {
        WindowMessage::Other
    }
}

/// The routing table: one action per message category.
pub open spec fn spec_dispatch(m: WindowMessage) -> DispatchAction {
    match m {
        WindowMessage::HotkeyFired { id } => match spec_lookup(id) {
            Some(c) => DispatchAction::InjectCharacter { output: c },
            None => DispatchAction::Consumed,
        },
        WindowMessage::TrayCallback { event } => if event == RIGHT_BUTTON_UP {
            DispatchAction::OpenContextMenu
        } else {
            DispatchAction::Consumed
        },
        WindowMessage::MenuCommand { command } => if command == EXIT_COMMAND {
            DispatchAction::RequestQuit
        } else {
            DispatchAction::DefaultHandling
        },
        WindowMessage::DestroyNotice => DispatchAction::RemoveIconAndQuit,
        WindowMessage::Other => DispatchAction::DefaultHandling,
    }
}

/// Routes one classified message to its action.
pub fn dispatch(m: WindowMessage) -> (r: DispatchAction)
    ensures
        r == spec_dispatch(m),
{
    match m {
        WindowMessage::HotkeyFired { id } => match lookup(id) {
            Some(c) => DispatchAction::InjectCharacter { output: c },
            None => DispatchAction::Consumed,
        },
        WindowMessage::TrayCallback { event } => if event == RIGHT_BUTTON_UP {
            DispatchAction::OpenContextMenu
        } else {
            DispatchAction::Consumed
        },
        WindowMessage::MenuCommand { command } => if command == EXIT_COMMAND {
            DispatchAction::RequestQuit
        } else {
            DispatchAction::DefaultHandling
        },
        WindowMessage::DestroyNotice => DispatchAction::RemoveIconAndQuit,
        WindowMessage::Other => DispatchAction::DefaultHandling,
    }
}

/// The injection batch for a fired hotkey: the down/up pair of the bound
/// character, or nothing for an identifier no binding carries.
pub fn hotkey_batch(id: i32) -> (r: Option<Vec<KeyEvent>>)
    ensures
        (match spec_lookup(id) {
            Some(c) => r matches Some(v) && v@ == spec_down_up(c),
            None => r is None,
        }),
{
    match lookup(id) {
        Some(c) => Some(unicode_down_up(c)),
        None => None,
    }
}

/// Whether the outcome of a menu interaction asks the service to quit:
/// exactly when the user selected the "Exit" entry.
pub fn menu_outcome_requests_quit(selection: Option<u16>) -> (quit: bool)
    ensures
        quit <==> selection == Some(EXIT_COMMAND),
{
    match selection {
        Some(command) => command == EXIT_COMMAND,
        None => false,
    }
}

/// Firing the hotkey of any binding in the table injects exactly the
/// character assigned to that binding, and firing an identifier no binding
/// carries injects nothing.
pub proof fn lemma_dispatch_hotkeys_exact()
    ensures
        forall|i: int|
            0 <= i < spec_bindings().len() ==> spec_dispatch(
                WindowMessage::HotkeyFired { id: (#[trigger] spec_bindings()[i]).id },
            ) == (DispatchAction::InjectCharacter { output: spec_bindings()[i].output }),
        forall|id: i32|
            !spec_bound_id(id) ==> spec_dispatch(WindowMessage::HotkeyFired { id })
                == DispatchAction::Consumed,
{
    lemma_lookup_matches_table();
}

} // verus!
