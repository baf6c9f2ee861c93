//! The transient context menu behind the tray icon: one "Exit" entry,
//! shown at the pointer until the user selects it or dismisses the menu.
//!
//! The interaction is a fixed sequence of steps; the menu object is created
//! at its start and destroyed at its end, whatever the user chose, so
//! repeated invocations leak nothing.

use vstd::prelude::*;

verus! {

/// The command identifier of the single "Exit" entry.
pub const EXIT_COMMAND: u16 = 1000;

/// One step of a context-menu interaction, in the order the OS requires:
/// build the menu, bring its owning window to the foreground so the menu
/// dismisses on outside clicks, anchor it at the pointer, run it, and
/// destroy it.
#[derive(Clone, Copy, Debug, PartialEq, Eq, Structural)]
pub enum MenuOp {
    Create,
    InsertItem { command: u16 },
    SetDefaultItem { command: u16 },
    BringOwnerToForeground,
    QueryCursorPosition,
    Track,
    Destroy,
}

/// The steps of one interaction. The sequence does not depend on what the
/// user chooses: the menu is destroyed after tracking on every path.
pub open spec fn spec_context_menu_ops() -> Seq<MenuOp> {
    seq![
        MenuOp::Create,
        MenuOp::InsertItem { command: EXIT_COMMAND },
        MenuOp::SetDefaultItem { command: EXIT_COMMAND },
        MenuOp::BringOwnerToForeground,
        MenuOp::QueryCursorPosition,
        MenuOp::Track,
        MenuOp::Destroy,
    ]
}

/// The command the user chose, from what the tracking call returned: zero
/// means the menu was dismissed without a selection; anything else is the
/// low word, a command identifier.
pub open spec fn spec_menu_selection(track_result: u32) -> Option<u16> {
    if track_result == 0 {
        None
    } else {
        Some(((track_result % 0x10000) as u16))
    }
}

/// The steps of one context-menu interaction.
pub fn context_menu_ops() -> (r: Vec<MenuOp>)
    ensures
        r@ == spec_context_menu_ops(),
{
    let mut r: Vec<MenuOp> = Vec::new();
    r.push(MenuOp::Create);
    r.push(MenuOp::InsertItem { command: EXIT_COMMAND });
    r.push(MenuOp::SetDefaultItem { command: EXIT_COMMAND });
    r.push(MenuOp::BringOwnerToForeground);
    r.push(MenuOp::QueryCursorPosition);
    r.push(MenuOp::Track);
    r.push(MenuOp::Destroy);
    proof {
        assert(r@ =~= spec_context_menu_ops());
    }
    r
}

/// The label of the menu's single entry.
pub fn exit_label() -> (r: &'static str)
    ensures
        r@ == "Exit"@,
{
    "Exit"
}

/// Reads the user's choice out of what the tracking call returned.
pub fn menu_selection(track_result: u32) -> (r: Option<u16>)
    ensures
        r == spec_menu_selection(track_result),
{
    if track_result == 0 {
        None
    } else {
        Some((track_result % 0x10000) as u16)
    }
}

/// The interaction always destroys its menu object before it ends, on the
/// selection path and on the dismissal path alike: the steps do not depend
/// on what the user chose, the one Create step opens the sequence, the one
/// Destroy step closes it, and the blocking Track step stands strictly
/// between them.
pub proof fn lemma_menu_always_destroyed()
    ensures
        spec_context_menu_ops().len() > 0,
        spec_context_menu_ops().last() == MenuOp::Destroy,
        forall|i: int|
            0 <= i < spec_context_menu_ops().len() && #[trigger] spec_context_menu_ops()[i]
                == MenuOp::Create ==> i == 0,
        forall|i: int|
            0 <= i < spec_context_menu_ops().len() && #[trigger] spec_context_menu_ops()[i]
                == MenuOp::Destroy ==> i == spec_context_menu_ops().len() - 1,
        spec_context_menu_ops()[0] == MenuOp::Create,
        exists|t: int|
            0 < t < spec_context_menu_ops().len() - 1 && #[trigger] spec_context_menu_ops()[t]
                == MenuOp::Track,
{
    let ops = spec_context_menu_ops();
    assert(ops[5] == MenuOp::Track);
    assert forall|i: int|
        0 <= i < ops.len() && #[trigger] ops[i] == MenuOp::Create implies i == 0 by {
        if i != 0 {
            assert(ops[i] != MenuOp::Create);
        }
    }
    assert forall|i: int|
        0 <= i < ops.len() && #[trigger] ops[i] == MenuOp::Destroy implies i == ops.len() - 1 by {
        if i != ops.len() - 1 {
            assert(ops[i] != MenuOp::Destroy);
        }
    }
}

} // verus!
