//! The notification-area presence: one icon per window, with tooltip text,
//! added once after the window exists and removed during teardown.
//!
//! The OS identifies the icon by (window, numeric id); id 1 is reserved
//! for this service's single icon. The tooltip field of the OS record
//! holds at most 128 UTF-16 units, terminator included; longer text is
//! cut to fit.

use vstd::prelude::*;
use crate::wide::{wide_of, to_wide};

verus! {

/// The numeric identifier of the service's one tray icon.
pub const TRAY_ICON_ID: u32 = 1;

/// The private window message the icon delivers its callbacks with.
pub const TRAY_CALLBACK_MESSAGE: u32 = 0x0401;

/// How many UTF-16 units the OS tooltip field holds, terminator included.
pub const TOOLTIP_CAPACITY: usize = 128;

/// Tooltip text as the OS record carries it: null-terminated UTF-16, cut
/// to the field's capacity.
pub open spec fn spec_tooltip(text: Seq<char>) -> Seq<u16> {
    let full = wide_of(text).push(0u16);
    if full.len() <= TOOLTIP_CAPACITY {
        full
    } else {
        full.take(TOOLTIP_CAPACITY as int)
    }
}

/// Prepares tooltip text for the OS record.
pub fn build_tooltip(text: &str) -> (r: Vec<u16>)
    ensures
        r@ == spec_tooltip(text@),
        r@.len() <= TOOLTIP_CAPACITY,
{
    let mut v = to_wide(text);
    if v.len() > TOOLTIP_CAPACITY {
        v.truncate(TOOLTIP_CAPACITY);
    }
    v
}

/// Everything the OS needs to add or update the icon, as plain values: the
/// reserved icon identifier, the callback message, and the prepared
/// tooltip.
pub struct TrayIconConfig {
    pub icon_id: u32,
    pub callback_message: u32,
    pub tooltip: Vec<u16>,
}

/// Builds the record for the service's icon with the given tooltip text.
pub fn tray_icon_config(text: &str) -> (r: TrayIconConfig)
    ensures
        r.icon_id == TRAY_ICON_ID,
        r.callback_message == TRAY_CALLBACK_MESSAGE,
        r.tooltip@ == spec_tooltip(text@),
{
    TrayIconConfig {
        icon_id: TRAY_ICON_ID,
        callback_message: TRAY_CALLBACK_MESSAGE,
        tooltip: build_tooltip(text),
    }
}

/// The error when the OS refuses to add the icon; fatal, since the icon is
/// the only way to exit the service.
#[derive(Clone, Copy, Debug, PartialEq, Eq, Structural)]
pub enum TrayError {
    AddRefused,
}

/// The icon's presence and current tooltip, mirroring what the shell
/// holds. At most one icon exists per window; this is it.
pub struct TrayIconState {
    present: bool,
    tooltip: Vec<u16>,
}

impl TrayIconState {
    /// Whether the icon is currently in the notification area.
    pub closed spec fn is_present(self) -> bool {
        self.present
    }

    /// The tooltip the notification area currently shows.
    pub closed spec fn tooltip_view(self) -> Seq<u16> {
        self.tooltip@
    }

    /// Whether the icon is in the notification area.
    pub fn present(&self) -> (b: bool)
        ensures
            b == self.is_present(),
    {
        self.present
    }

    /// The tooltip the notification area currently shows.
    pub fn current_tooltip(&self) -> (r: &Vec<u16>)
        ensures
            r@ == self.tooltip_view(),
    {
        &self.tooltip
    }

    /// Before the icon is added: absent, with no tooltip.
    pub fn new() -> (r: TrayIconState)
        ensures
            !r.is_present(),
            r.tooltip_view() == Seq::<u16>::empty(),
    {
        TrayIconState { present: false, tooltip: Vec::new() }
    }

    /// Adds the icon, recording whether the shell accepted it. Called once,
    /// while the icon is absent; refusal is the one error and leaves the
    /// icon absent.
    pub fn show(&mut self, text: &str, os_accepted: bool) -> (r: Result<(), TrayError>)
        requires
            !old(self).is_present(),
        ensures
            r is Ok <==> os_accepted,
            final(self).is_present() == os_accepted,
            os_accepted ==> final(self).tooltip_view() == spec_tooltip(text@),
            !os_accepted ==> *final(self) == *old(self) && r == Err::<(), TrayError>(
                TrayError::AddRefused,
            ),
    {
        if os_accepted {
            self.present = true;
            self.tooltip = build_tooltip(text);
            Ok(())
        } else {
            Err(TrayError::AddRefused)
        }
    }

    /// Updates the tooltip, best-effort: a refusal by the shell is ignored
    /// and changes nothing; presence never changes.
    pub fn update_tooltip(&mut self, text: &str, os_accepted: bool)
        ensures
            final(self).is_present() == old(self).is_present(),
            final(self).tooltip_view() == (if os_accepted && old(self).is_present() {
                spec_tooltip(text@)
            } else {
                old(self).tooltip_view()
            }),
    {
        if os_accepted && self.present {
            self.tooltip = build_tooltip(text);
        }
    }

    /// Removes the icon; idempotent when it is already absent, and never
    /// an error.
    pub fn remove(&mut self)
        ensures
            !final(self).is_present(),
            final(self).tooltip_view() == old(self).tooltip_view(),
    {
        self.present = false;
    }
}

} // verus!
