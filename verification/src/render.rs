//! Render decisions that depend on the form state: the password input's
//! `type` attribute and the show-password icon's class.

use vstd::prelude::*;

use crate::form::MsgView;
use crate::form::spec_update;

verus! {

/// The `type` attribute of the password input: plain text while the password
/// is shown, obscured otherwise.
pub open spec fn spec_password_input_type(show_pass: bool) -> Seq<char> {
    if show_pass {
        "text"@
    } else {
        "password"@
    }
}

/// The class of the show-password icon: a blocked eye while the password is
/// shown, an open eye otherwise.
pub open spec fn spec_password_icon_class(show_pass: bool) -> Seq<char> {
    if show_pass {
        "icon icon-eye-blocked"@
    } else {
        "icon icon-eye"@
    }
}

impl crate::form::FormState {
    /// The `type` attribute to render on the password input.
    pub fn password_input_type(&self) -> (r: &'static str)
        ensures
            r@ == spec_password_input_type(self@.show_pass),
    {
        if self.show_pass {
            "text"
        } else {
            "password"
        }
    }

    /// The class to render on the show-password icon.
    pub fn password_icon_class(&self) -> (r: &'static str)
        ensures
            r@ == spec_password_icon_class(self@.show_pass),
    {
        if self.show_pass {
            "icon icon-eye-blocked"
        } else {
            "icon icon-eye"
        }
    }
}

/// Pressing the show-password button twice returns the whole state, and with
/// it the password input's rendered `type`, to their original values; a form
/// that began with the password obscured renders it obscured again.
pub proof fn lemma_toggle_show_password_twice(s: crate::form::FormStateView)
    ensures
        spec_update(spec_update(s, MsgView::ShowPass).0, MsgView::ShowPass).0 == s,
        spec_password_input_type(
            spec_update(spec_update(s, MsgView::ShowPass).0, MsgView::ShowPass).0.show_pass,
        ) == spec_password_input_type(s.show_pass),
        !s.show_pass ==> spec_password_input_type(
            spec_update(spec_update(s, MsgView::ShowPass).0, MsgView::ShowPass).0.show_pass,
        ) == "password"@,
{
    assert(spec_update(spec_update(s, MsgView::ShowPass).0, MsgView::ShowPass).0 =~~= s);
}

} // verus!
