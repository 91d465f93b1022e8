//! The decision taken on each notification from the window manager.
//!
//! The toggle trigger is a sentinel keybinding: the user binds a key to a
//! placeholder command, and a binding-run notification whose command text
//! matches that sentinel means "toggle now". Everything the event loop does
//! is decided here; the loop itself only performs the chosen action.

use vstd::prelude::*;

verus! {

/// One notification from the window manager's event stream, reduced to
/// what the decision needs.
pub enum SessionEvent {
    /// A keybinding ran; carries the bound command's text.
    BindingRun { command: String },
    /// A binding notification other than a run.
    BindingOther,
    /// Focus moved to a window.
    WindowFocus,
    /// A window notification other than a focus change.
    WindowOther,
    /// An event kind outside the subscribed set.
    Unexpected,
}

/// What the event loop must do with a notification.
#[derive(PartialEq, Eq, Structural, Clone, Copy, Debug)]
pub enum Directive {
    /// Submit the toggle command for the `latest` slot.
    Toggle,
    /// Fetch a fresh snapshot, re-derive the focused window and observe it.
    Refocus,
    /// Do nothing.
    Ignore,
    /// Protocol violation: the subscription filter was not honoured.
    Fail,
}

/// The sentinel command text whose binding-run notification triggers a
/// toggle.
pub open spec fn toggle_sentinel() -> Seq<char> {
    "exec true"@
}

/// Relies on `regex::Regex::is_match` with the pattern `^exec true$`:
/// anchored at both ends and without the multi-line flag, it matches
/// exactly the haystack `exec true`. `regex::Regex::new` cannot fail on
/// this fixed, well-formed pattern.
#[verifier::external_body]
fn matches_toggle_binding(command: &str) -> (r: bool)
    ensures
        r == (command@ == toggle_sentinel()),
{
    regex::Regex::new("^exec true$").unwrap().is_match(command)
}

/// The decision for each notification: a binding run of the sentinel
/// command toggles, a focus change re-derives the focused window, other
/// binding and window notifications are ignored, and any event outside the
/// subscribed set is a protocol violation.
pub open spec fn spec_decide(e: SessionEvent) -> Directive {
    match e {
        SessionEvent::BindingRun { command } => {
            if command@ == toggle_sentinel() {
                Directive::Toggle
            } else {
                Directive::Ignore
            }
        },
        SessionEvent::BindingOther => Directive::Ignore,
        SessionEvent::WindowFocus => Directive::Refocus,
        SessionEvent::WindowOther => Directive::Ignore,
        SessionEvent::Unexpected => Directive::Fail,
    }
}

/// Decide what the event loop must do with the notification `e`.
pub fn decide(e: &SessionEvent) -> (r: Directive)
    ensures
        r == spec_decide(*e),
{
    match e {
        SessionEvent::BindingRun { command } => {
            if matches_toggle_binding(command.as_str()) {
                Directive::Toggle
            } else {
                Directive::Ignore
            }
        },
        SessionEvent::BindingOther => Directive::Ignore,
        SessionEvent::WindowFocus => Directive::Refocus,
        SessionEvent::WindowOther => Directive::Ignore,
        SessionEvent::Unexpected => Directive::Fail,
    }
}

} // verus!
