//! The form controller: field values, the show-password toggle, validation
//! messages, and the transition that each UI event makes on them.

use vstd::prelude::*;
use vstd::string::StrSliceExecFns;
use vstd::string::StringExecFns;

verus! {

/// What `char::is_alphanumeric` returns: whether the character is a letter or
/// a digit. The exact character classes come from the Unicode `Alphabetic`
/// and `Number` properties, so the result is named rather than written out.
pub uninterp spec fn char_is_alphanumeric(c: char) -> bool;

/// Relies on `char::is_alphanumeric` from std: the result depends on the
/// character alone.
pub assume_specification[ char::is_alphanumeric ](c: char) -> (r: bool)
    ensures
        r == char_is_alphanumeric(c),
;

/// Every character of `s` is a letter or a digit.
pub open spec fn all_alphanumeric(s: Seq<char>) -> bool {
    forall|i: int| 0 <= i < s.len() ==> char_is_alphanumeric(#[trigger] s[i])
}

/// The message shown for a field that was left empty.
pub open spec fn required_error() -> Seq<char> {
    "This field is required."@
}

/// The message shown for a username that is not alphanumeric.
pub open spec fn alphanumeric_error() -> Seq<char> {
    "Username must be alphanumeric."@
}

/// The empty message: the field has no error.
pub open spec fn no_error() -> Seq<char> {
    Seq::<char>::empty()
}

/// The validation message for the username field: required if empty, else
/// the format message if some character is not alphanumeric, else none.
pub open spec fn spec_username_error(u: Seq<char>) -> Seq<char> {
    if u.len() == 0 {
        required_error()
    } else if !all_alphanumeric(u) {
        alphanumeric_error()
    } else {
        no_error()
    }
}

/// The validation message for the password field: required if empty, else
/// none.
pub open spec fn spec_password_error(p: Seq<char>) -> Seq<char> {
    if p.len() == 0 {
        required_error()
    } else {
        no_error()
    }
}

/// Both fields pass validation: the username is non-empty and alphanumeric,
/// and the password is non-empty.
pub open spec fn spec_submit_passes(u: Seq<char>, p: Seq<char>) -> bool {
    u.len() > 0 && all_alphanumeric(u) && p.len() > 0
}

/// The echo string a successful submit produces.
pub open spec fn spec_form_result(u: Seq<char>, p: Seq<char>) -> Seq<char> {
    "Username: "@ + u + "\nPassword: "@ + p
}

/// One UI event the controller reacts to.
pub enum Msg {
    /// The username field's value changed.
    UpdateUsername(String),
    /// The password field's value changed.
    UpdatePassword(String),
    /// The form was submitted.
    Submit,
    /// The show-password button was pressed.
    ShowPass,
}

/// The mathematical value of a [`Msg`]: the same event over character
/// sequences.
pub enum MsgView {
    UpdateUsername(Seq<char>),
    UpdatePassword(Seq<char>),
    Submit,
    ShowPass,
}

impl View for Msg {
    type V = MsgView;

    open spec fn view(&self) -> MsgView {
        match self {
            Msg::UpdateUsername(u) => MsgView::UpdateUsername(u@),
            Msg::UpdatePassword(p) => MsgView::UpdatePassword(p@),
            Msg::Submit => MsgView::Submit,
            Msg::ShowPass => MsgView::ShowPass,
        }
    }
}

/// The validation and result messages the form displays.
pub struct Errors {
    /// The username field's validation message, empty when the field is fine.
    pub username: String,
    /// The password field's validation message, empty when the field is fine.
    pub password: String,
    /// The echo string of the last successful submit.
    pub form: String,
}

/// The mathematical value of [`Errors`].
#[verifier::ext_equal]
pub struct ErrorsView {
    pub username: Seq<char>,
    pub password: Seq<char>,
    pub form: Seq<char>,
}

impl View for Errors {
    type V = ErrorsView;

    open spec fn view(&self) -> ErrorsView {
        ErrorsView { username: self.username@, password: self.password@, form: self.form@ }
    }
}

/// The whole state the form controller owns.
pub struct FormState {
    /// The raw value of the username field.
    pub username: String,
    /// The raw value of the password field.
    pub password: String,
    /// Whether the password field renders as plain text.
    pub show_pass: bool,
    /// The messages currently displayed.
    pub errors: Errors,
}

/// The mathematical value of a [`FormState`].
#[verifier::ext_equal]
pub struct FormStateView {
    pub username: Seq<char>,
    pub password: Seq<char>,
    pub show_pass: bool,
    pub errors: ErrorsView,
}

impl View for FormState {
    type V = FormStateView;

    open spec fn view(&self) -> FormStateView {
        FormStateView {
            username: self.username@,
            password: self.password@,
            show_pass: self.show_pass,
            errors: self.errors@,
        }
    }
}

/// The state a submit leaves behind: every message is recomputed from the
/// current field values alone. Both validation messages are rewritten, and
/// the echo string becomes the formatted pair of values when both fields
/// pass, and empty when they do not.
pub open spec fn spec_submit(s: FormStateView) -> FormStateView {
    FormStateView {
        errors: ErrorsView {
            username: spec_username_error(s.username),
            password: spec_password_error(s.password),
            form: if spec_submit_passes(s.username, s.password) {
                spec_form_result(s.username, s.password)
            } else {
                Seq::<char>::empty()
            },
        },
        ..s
    }
}

/// The transition one event makes: the state after it, and whether the view
/// must be re-rendered.
pub open spec fn spec_update(s: FormStateView, m: MsgView) -> (FormStateView, bool) {
    match m {
        MsgView::UpdateUsername(u) => (FormStateView { username: u, ..s }, false),
        MsgView::UpdatePassword(p) => (FormStateView { password: p, ..s }, false),
        MsgView::Submit => (spec_submit(s), true),
        MsgView::ShowPass => (FormStateView { show_pass: !s.show_pass, ..s }, true),
    }
}

/// Decides whether every character of `s` is a letter or a digit.
pub fn check_alphanumeric(s: &str) -> (r: bool)
    ensures
        r == all_alphanumeric(s@),
{
    let n: usize = s.unicode_len();
    let mut i: usize = 0;
    while i < n
        invariant
            i <= n,
            n == s@.len(),
            forall|j: int| 0 <= j < i ==> char_is_alphanumeric(#[trigger] s@[j]),
        decreases n - i,
    {
        let c: char = s.get_char(i);
        if !c.is_alphanumeric() {
            return false;
        }
        i += 1;
    }
    true
}

/// Builds the echo string of a successful submit.
fn format_result(u: &str, p: &str) -> (r: String)
    ensures
        r@ == spec_form_result(u@, p@),
{
    let mut r: String = "Username: ".to_owned();
    r.append(u);
    r.append("\nPassword: ");
    r.append(p);
    r
}

impl FormState {
    /// A fresh form: both fields empty, the password obscured, no messages.
    pub fn new() -> (s: Self)
        ensures
            s@.username == Seq::<char>::empty(),
            s@.password == Seq::<char>::empty(),
            !s@.show_pass,
            s@.errors.username == no_error(),
            s@.errors.password == no_error(),
            s@.errors.form == Seq::<char>::empty(),
    {
        FormState {
            username: String::new(),
            password: String::new(),
            show_pass: false,
            errors: Errors { username: String::new(), password: String::new(), form: String::new() },
        }
    }

    /// Recomputes every message from the current field values: both
    /// validation messages, and the echo string, which is set on a pass and
    /// cleared otherwise.
    pub fn submit(&mut self)
        ensures
            final(self)@ == spec_submit(old(self)@),
    {
        let username_empty: bool = self.username.as_str().is_empty();
        let username_alnum: bool = check_alphanumeric(self.username.as_str());
        let password_empty: bool = self.password.as_str().is_empty();
        self.errors.username = if username_empty {
            "This field is required.".to_owned()
        } else if !username_alnum {
            "Username must be alphanumeric.".to_owned()
        } else {
            String::new()
        };
        self.errors.password = if password_empty {
            "This field is required.".to_owned()
        } else {
            String::new()
        };
        self.errors.form = if !username_empty && username_alnum && !password_empty {
            format_result(self.username.as_str(), self.password.as_str())
        } else {
            String::new()
        };
        proof {
            assert(self@ =~~= spec_submit(old(self)@));
        }
    }

    /// Applies one UI event, as [`spec_update`] describes, and says whether
    /// the view must be re-rendered.
    pub fn update(&mut self, msg: Msg) -> (redraw: bool)
        ensures
            final(self)@ == spec_update(old(self)@, msg@).0,
            redraw == spec_update(old(self)@, msg@).1,
    {
        match msg {
            Msg::UpdateUsername(u) => {
                self.username = u;
                proof {
                    assert(self@ =~~= spec_update(old(self)@, msg@).0);
                }
                false
            }
            Msg::UpdatePassword(p) => {
                self.password = p;
                proof {
                    assert(self@ =~~= spec_update(old(self)@, msg@).0);
                }
                false
            }
            Msg::Submit => {
                self.submit();
                true
            }
            Msg::ShowPass => {
                self.show_pass = !self.show_pass;
                proof {
                    assert(self@ =~~= spec_update(old(self)@, msg@).0);
                }
                true
            }
        }
    }
}

impl Default for FormState {
    /// The same fresh form as [`FormState::new`].
    fn default() -> (s: Self)
        ensures
            s@.username == Seq::<char>::empty(),
            s@.password == Seq::<char>::empty(),
            !s@.show_pass,
            s@.errors.username == no_error(),
            s@.errors.password == no_error(),
            s@.errors.form == Seq::<char>::empty(),
    {
        FormState::new()
    }
}

/// Submitting with both fields empty leaves the required-field message on
/// both and no result: the echo string is empty, whatever it held before.
pub proof fn lemma_submit_both_empty(s: FormStateView)
    requires
        s.username.len() == 0,
        s.password.len() == 0,
    ensures
        spec_update(s, MsgView::Submit).0.errors.username == required_error(),
        spec_update(s, MsgView::Submit).0.errors.password == required_error(),
        spec_update(s, MsgView::Submit).0.errors.form == Seq::<char>::empty(),
{
}

/// Submitting with a non-alphanumeric username and a non-empty password
/// leaves the format message on the username field only: the password field
/// gets no message, and the echo string is empty.
pub proof fn lemma_submit_bad_username(s: FormStateView)
    requires
        s.username.len() > 0,
        !all_alphanumeric(s.username),
        s.password.len() > 0,
    ensures
        spec_update(s, MsgView::Submit).0.errors.username == alphanumeric_error(),
        spec_update(s, MsgView::Submit).0.errors.password == no_error(),
        spec_update(s, MsgView::Submit).0.errors.form == Seq::<char>::empty(),
{
}

/// Submitting with a non-empty alphanumeric username and a non-empty
/// password clears both field messages and sets the echo string to the
/// formatted pair of values.
pub proof fn lemma_submit_pass(s: FormStateView)
    requires
        s.username.len() > 0,
        all_alphanumeric(s.username),
        s.password.len() > 0,
    ensures
        spec_update(s, MsgView::Submit).0.errors.username == no_error(),
        spec_update(s, MsgView::Submit).0.errors.password == no_error(),
        spec_update(s, MsgView::Submit).0.errors.form == spec_form_result(s.username, s.password),
{
}

/// A submit that left a message on the username field, followed by replacing
/// the username with a non-empty alphanumeric value and submitting again,
/// clears that message.
pub proof fn lemma_resubmit_clears_username_error(s: FormStateView, u: Seq<char>)
    requires
        spec_username_error(s.username) != no_error(),
        u.len() > 0,
        all_alphanumeric(u),
    ensures
        spec_update(s, MsgView::Submit).0.errors.username != no_error(),
        spec_update(
            spec_update(spec_update(s, MsgView::Submit).0, MsgView::UpdateUsername(u)).0,
            MsgView::Submit,
        ).0.errors.username == no_error(),
{
}

/// A submit that left a message on the password field, followed by replacing
/// the password with a non-empty value and submitting again, clears that
/// message.
pub proof fn lemma_resubmit_clears_password_error(s: FormStateView, p: Seq<char>)
    requires
        spec_password_error(s.password) != no_error(),
        p.len() > 0,
    ensures
        spec_update(s, MsgView::Submit).0.errors.password != no_error(),
        spec_update(
            spec_update(spec_update(s, MsgView::Submit).0, MsgView::UpdatePassword(p)).0,
            MsgView::Submit,
        ).0.errors.password == no_error(),
{
}

} // verus!
