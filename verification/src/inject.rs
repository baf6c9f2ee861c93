//! Construction of the synthetic input batch that produces one character.
//!
//! A fired hotkey is answered with two keyboard events tagged as Unicode
//! text rather than as a virtual key: a key-down and a key-up carrying the
//! character's single UTF-16 code unit. The two are submitted to the OS as
//! one batch so no other input can interleave between press and release.
//! Characters that need a surrogate pair are out of scope: none is bound.

use vstd::prelude::*;

verus! {

/// One synthetic Unicode keyboard event: the UTF-16 code unit it carries
/// and whether it is the release half of the pair.
#[derive(Clone, Copy, Debug, PartialEq, Eq, Structural)]
pub struct KeyEvent {
    pub code_unit: u16,
    pub key_up: bool,
}

/// Whether a character fits in a single UTF-16 code unit, the only case the
/// injector supports.
pub open spec fn single_unit(c: char) -> bool {
    (c as u32) < 0x10000
}

/// The batch that injects one character: its down event followed by its up
/// event, both carrying the character's code unit.
pub open spec fn spec_down_up(c: char) -> Seq<KeyEvent> {
    seq![
        KeyEvent { code_unit: (c as u32) as u16, key_up: false },
        KeyEvent { code_unit: (c as u32) as u16, key_up: true },
    ]
}

/// Builds the down/up batch for one character.
pub fn unicode_down_up(c: char) -> (r: Vec<KeyEvent>)
    requires
        single_unit(c),
    ensures
        r@ == spec_down_up(c),
{
    let unit = (c as u32) as u16;
    let mut r: Vec<KeyEvent> = Vec::new();
    r.push(KeyEvent { code_unit: unit, key_up: false });
    r.push(KeyEvent { code_unit: unit, key_up: true });
    proof {
        assert(r@ =~= spec_down_up(c));
    }
    r
}

/// The injector's failure: the OS declined the synthetic batch, with the
/// error code it reported.
#[derive(Clone, Copy, Debug, PartialEq, Eq, Structural)]
pub enum InjectionError {
    Rejected { code: u32 },
}

/// Classifies what the OS input call reported: it accepted some events, or
/// it accepted none, which is the one failure and carries the OS error
/// code. The caller treats the failure as fatal.
pub fn injection_outcome(events_sent: u32, os_error: u32) -> (r: Result<(), InjectionError>)
    ensures
        r == (if events_sent == 0 {
            Err::<(), InjectionError>(InjectionError::Rejected { code: os_error })
        } else {
            Ok::<(), InjectionError>(())
        }),
{
    if events_sent == 0 {
        Err(InjectionError::Rejected { code: os_error })
    } else {
        Ok(())
    }
}

} // verus!
