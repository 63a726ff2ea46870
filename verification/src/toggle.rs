//! The toggle coordinator: the one piece of stateful logic in the shell.
//!
//! A toggle reads the window manager's always-on-top flag, flips it, asks
//! the window manager to apply the flipped value, and on success pushes
//! the new value into every menu checkbox that mirrors the flag. A failure
//! while reading or applying aborts the whole operation and is reported to
//! the caller; the checkboxes are then left untouched. Updates to the
//! mirrors themselves are best-effort and never fail the toggle.
//!
//! The shell drives a real toggle in two steps — `decide_after_query` on
//! the outcome of the read, `finish_after_apply` on the outcome of the
//! write — and `toggle_always_on_top` composes the same steps against the
//! window model to give the whole operation one contract.

use vstd::prelude::*;

use crate::window::WindowState;
use crate::window::is_always_on_top;
use crate::window::set_always_on_top;
use crate::window::spec_toggle_window;
use crate::window::spec_window_gone;

verus! {

/// The checked state of each "Always on Top" checkbox: `Some(checked)`
/// for a checkbox that was constructed, `None` for a surface that was
/// never built. The checkboxes are mirrors of the window manager's flag,
/// never the authoritative value.
#[derive(Clone, Copy, Debug, PartialEq, Eq)]
pub struct MirrorState {
    /// The checkbox in the application menu's "View" submenu.
    pub app_menu: Option<bool>,
    /// The checkbox in the tray icon's context menu.
    pub tray: Option<bool>,
}

/// What pushing a value into the mirrors does: every constructed checkbox
/// takes the value, and a surface that was never built stays absent.
pub open spec fn spec_sync_mirrors(m: MirrorState, value: bool) -> MirrorState {
    MirrorState {
        app_menu: if m.app_menu is Some { Some(value) } else { None },
        tray: if m.tray is Some { Some(value) } else { None },
    }
}

/// Every constructed checkbox reports `value`.
pub open spec fn spec_mirrors_agree(m: MirrorState, value: bool) -> bool {
    &&& (m.app_menu matches Some(checked) ==> checked == value)
    &&& (m.tray matches Some(checked) ==> checked == value)
}

/// Push `checked` into every constructed checkbox mirror.
pub fn update_always_on_top_menu(mirrors: &mut MirrorState, checked: bool)
    ensures
        *final(mirrors) == spec_sync_mirrors(*old(mirrors), checked),
{
    if mirrors.app_menu.is_some() {
        mirrors.app_menu = Some(checked);
    }
    if mirrors.tray.is_some() {
        mirrors.tray = Some(checked);
    }
}

/// What the coordinator decides after reading the flag: apply the negated
/// value, or abort with the reader's error.
#[derive(Debug, PartialEq, Eq)]
pub enum ToggleStep {
    /// The read succeeded: ask the window manager to apply this value.
    Apply { next: bool },
    /// The read failed: abort the toggle and report this message.
    Abort { message: String },
}

/// Decide the next step from the outcome of reading the flag: a
/// successful read of `current` leads to applying `!current`, and a
/// failed read aborts with the reader's own message.
pub fn decide_after_query(queried: Result<bool, String>) -> (step: ToggleStep)
    ensures
        queried matches Ok(current) ==> step == (ToggleStep::Apply { next: !current }),
        queried matches Err(e) ==> (step matches ToggleStep::Abort { message } && message@ == e@),
{
    match queried {
        Ok(current) => ToggleStep::Apply { next: !current },
        Err(e) => ToggleStep::Abort { message: e },
    }
}

/// Finish the toggle from the outcome of applying `next`: on success every
/// constructed checkbox takes `next` and the toggle returns it; on failure
/// the checkboxes are left untouched and the applier's error is returned.
pub fn finish_after_apply(
    mirrors: &mut MirrorState,
    next: bool,
    applied: Result<(), String>,
) -> (r: Result<bool, String>)
    ensures
        applied is Ok ==> (r == Ok::<bool, String>(next)
            && *final(mirrors) == spec_sync_mirrors(*old(mirrors), next)),
        applied matches Err(e) ==> (r matches Err(m) && m@ == e@
            && *final(mirrors) == *old(mirrors)),
{
    match applied {
        Ok(()) => {
            update_always_on_top_menu(mirrors, next);
            Ok(next)
        },
        Err(e) => Err(e),
    }
}

/// The whole toggle against the window model: read the flag, flip it,
/// apply it, and push the applied value into every constructed checkbox.
///
/// While the window is live the toggle returns the negation of the old
/// flag, the window manager records that negation, and every constructed
/// checkbox agrees with it. Once the window is gone the toggle reports an
/// error and neither the window state nor any checkbox changes.
pub fn toggle_always_on_top(
    window: &mut WindowState,
    mirrors: &mut MirrorState,
) -> (r: Result<bool, String>)
    ensures
        *final(window) == spec_toggle_window(*old(window)),
        old(window).live ==> (r == Ok::<bool, String>(!old(window).always_on_top)
            && *final(mirrors) == spec_sync_mirrors(*old(mirrors), !old(window).always_on_top)
            && spec_mirrors_agree(*final(mirrors), final(window).always_on_top)),
        !old(window).live ==> (r matches Err(m) && m@ == spec_window_gone()
            && *final(mirrors) == *old(mirrors)),
{
    let queried = is_always_on_top(window);
    match decide_after_query(queried) {
        ToggleStep::Apply { next } => {
            let applied = set_always_on_top(window, next);
            finish_after_apply(mirrors, next, applied)
        },
        ToggleStep::Abort { message } => Err(message),
    }
}

/// Toggling flips the flag, and toggling twice restores it, for either
/// initial value of the flag; the window stays live throughout.
pub proof fn lemma_toggle_round_trip(w: WindowState)
    requires
        w.live,
    ensures
        spec_toggle_window(w).always_on_top == !w.always_on_top,
        spec_toggle_window(spec_toggle_window(w)).always_on_top == w.always_on_top,
        spec_toggle_window(w).live,
{
}

/// After a successful toggle, every constructed checkbox reports the same
/// value as the window manager's flag, whatever the mirrors held before.
pub proof fn lemma_toggle_synchronizes(w: WindowState, m: MirrorState)
    requires
        w.live,
    ensures
        spec_mirrors_agree(
            spec_sync_mirrors(m, !w.always_on_top),
            spec_toggle_window(w).always_on_top,
        ),
{
}

/// A toggle against a destroyed window changes nothing.
pub proof fn lemma_failed_toggle_preserves_state(w: WindowState)
    requires
        !w.live,
    ensures
        spec_toggle_window(w) == w,
{
}

} // verus!
