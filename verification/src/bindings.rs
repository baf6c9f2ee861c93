//! The fixed table of global shortcuts: Ctrl+Alt with E, A, I, O or U, each
//! bound to the corresponding lower-case vowel with a grave accent. The
//! table is built once at startup and never changes; `lookup` is the pure,
//! total map from a hotkey identifier to its bound output character.

use vstd::prelude::*;

verus! {

/// The OS bit for the Alt modifier in a hotkey registration.
pub const MODIFIER_ALT_BIT: u32 = 0x0001;

/// The OS bit for the Control modifier in a hotkey registration.
pub const MODIFIER_CONTROL_BIT: u32 = 0x0002;

/// The OS bit for the Shift modifier in a hotkey registration.
pub const MODIFIER_SHIFT_BIT: u32 = 0x0004;

/// The OS bit for the Windows-key modifier in a hotkey registration.
pub const MODIFIER_WIN_BIT: u32 = 0x0008;

/// A set of keyboard modifiers, one flag per modifier key.
#[derive(Clone, Copy, Debug, PartialEq, Eq, Structural)]
pub struct Modifiers {
    pub control: bool,
    pub alt: bool,
    pub shift: bool,
    pub win: bool,
}

/// The OS encoding of a modifier set: one documented bit per flag.
pub open spec fn spec_modifier_bits(m: Modifiers) -> u32 {
    (((if m.alt {
        MODIFIER_ALT_BIT
    } else {
        0
    }) + (if m.control {
        MODIFIER_CONTROL_BIT
    } else {
        0
    }) + (if m.shift {
        MODIFIER_SHIFT_BIT
    } else {
        0
    }) + (if m.win {
        MODIFIER_WIN_BIT
    } else {
        0
    })) as u32)
}

impl Modifiers {
    /// The Control+Alt set used by every binding in the table.
    pub fn ctrl_alt() -> (m: Modifiers)
        ensures
            m == (Modifiers { control: true, alt: true, shift: false, win: false }),
    {
        Modifiers { control: true, alt: true, shift: false, win: false }
    }

    /// Encodes the set in the form the OS registration call takes.
    pub fn bits(&self) -> (r: u32)
        ensures
            r == spec_modifier_bits(*self),
    {
        let mut r: u32 = 0;
        if self.alt {
            r = r + MODIFIER_ALT_BIT;
        }
        if self.control {
            r = r + MODIFIER_CONTROL_BIT;
        }
        if self.shift {
            r = r + MODIFIER_SHIFT_BIT;
        }
        if self.win {
            r = r + MODIFIER_WIN_BIT;
        }
        r
    }
}

/// One global shortcut: its identifier, its modifier set and physical key,
/// and the single character it injects when fired.
#[derive(Clone, Copy, Debug, PartialEq, Eq, Structural)]
pub struct HotkeyBinding {
    pub id: i32,
    pub modifiers: Modifiers,
    pub key: u32,
    pub output: char,
}

/// The modifier set shared by the whole table.
pub open spec fn spec_ctrl_alt() -> Modifiers {
    Modifiers { control: true, alt: true, shift: false, win: false }
}

/// The five bindings, in the order they are registered: E, A, I, O, U with
/// Control+Alt, producing the vowels with a grave accent.
pub open spec fn spec_bindings() -> Seq<HotkeyBinding> {
    seq![
        HotkeyBinding { id: 1, modifiers: spec_ctrl_alt(), key: 0x45, output: '\u{e8}' },
        HotkeyBinding { id: 2, modifiers: spec_ctrl_alt(), key: 0x41, output: '\u{e0}' },
        HotkeyBinding { id: 3, modifiers: spec_ctrl_alt(), key: 0x49, output: '\u{ec}' },
        HotkeyBinding { id: 4, modifiers: spec_ctrl_alt(), key: 0x4F, output: '\u{f2}' },
        HotkeyBinding { id: 5, modifiers: spec_ctrl_alt(), key: 0x55, output: '\u{f9}' },
    ]
}

/// Builds the binding table.
pub fn bindings() -> (v: Vec<HotkeyBinding>)
    ensures
        v@ == spec_bindings(),
{
    let ctrl_alt = Modifiers::ctrl_alt();
    let mut v: Vec<HotkeyBinding> = Vec::new();
    v.push(HotkeyBinding { id: 1, modifiers: ctrl_alt, key: 0x45, output: '\u{e8}' });
    v.push(HotkeyBinding { id: 2, modifiers: ctrl_alt, key: 0x41, output: '\u{e0}' });
    v.push(HotkeyBinding { id: 3, modifiers: ctrl_alt, key: 0x49, output: '\u{ec}' });
    v.push(HotkeyBinding { id: 4, modifiers: ctrl_alt, key: 0x4F, output: '\u{f2}' });
    v.push(HotkeyBinding { id: 5, modifiers: ctrl_alt, key: 0x55, output: '\u{f9}' });
    proof {
        assert(v@ =~= spec_bindings());
    }
    v
}

/// The character bound to a hotkey identifier, or nothing for an identifier
/// outside the table.
pub open spec fn spec_lookup(id: i32) -> Option<char> {
    if id == 1 {
        Some('\u{e8}')
    } else if id == 2 {
        Some('\u{e0}')
    } else if id == 3 {
        Some('\u{ec}')
    } else if id == 4 {
        Some('\u{f2}')
    } else if id == 5 {
        Some('\u{f9}')
    } else {
        None
    }
}

/// Looks up the output character of a hotkey identifier.
pub fn lookup(id: i32) -> (r: Option<char>)
    ensures
        r == spec_lookup(id),
{
    if id == 1 {
        Some('\u{e8}')
    } else if id == 2 {
        Some('\u{e0}')
    } else if id == 3 {
        Some('\u{ec}')
    } else if id == 4 {
        Some('\u{f2}')
    } else if id == 5 {
        Some('\u{f9}')
    } else {
        None
    }
}

/// Whether some binding in the table carries this identifier.
pub open spec fn spec_bound_id(id: i32) -> bool {
    exists|i: int| 0 <= i < spec_bindings().len() && (#[trigger] spec_bindings()[i]).id == id
}

/// Lookup agrees exactly with the table: the identifier of each binding maps
/// to the output character assigned to that binding, and an identifier that
/// no binding carries maps to nothing.
pub proof fn lemma_lookup_matches_table()
    ensures
        forall|i: int|
            0 <= i < spec_bindings().len() ==> spec_lookup((#[trigger] spec_bindings()[i]).id)
                == Some(spec_bindings()[i].output),
        forall|id: i32| !spec_bound_id(id) ==> spec_lookup(id) is None,
        forall|id: i32| spec_bound_id(id) <==> 1 <= id <= 5,
{
    assert forall|i: int| 0 <= i < spec_bindings().len() implies spec_lookup(
        (#[trigger] spec_bindings()[i]).id,
    ) == Some(spec_bindings()[i].output) by {
        if i == 0 {
        } else if i == 1 {
        } else if i == 2 {
        } else if i == 3 {
        } else {
            assert(i == 4);
        }
    }
    assert forall|id: i32| spec_bound_id(id) <==> 1 <= id <= 5 by {
        if 1 <= id <= 5 {
            assert(spec_bindings()[id - 1].id == id);
        } else {
            if spec_bound_id(id) {
                let i = choose|i: int|
                    0 <= i < spec_bindings().len() && (#[trigger] spec_bindings()[i]).id == id;
                assert(1 <= spec_bindings()[i].id <= 5);
            }
        }
    }
}

/// Every output in the table fits in a single UTF-16 code unit, so each can
/// be injected as one down/up pair.
pub proof fn lemma_outputs_single_unit()
    ensures
        forall|i: int|
            0 <= i < spec_bindings().len() ==> ((#[trigger] spec_bindings()[i]).output as u32)
                < 0x10000,
{
}

} // verus!
