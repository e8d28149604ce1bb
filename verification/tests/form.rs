use login_form::form::FormState;
use login_form::form::Msg;

const REQUIRED: &str = "This field is required.";
const ALPHANUMERIC: &str = "Username must be alphanumeric.";

#[test]
fn fresh_form_is_blank() {
    let s = FormState::new();
    assert_eq!(s.username.as_str(), "");
    assert_eq!(s.password.as_str(), "");
    assert!(!s.show_pass);
    assert_eq!(s.errors.username.as_str(), "");
    assert_eq!(s.errors.password.as_str(), "");
    assert_eq!(s.errors.form.as_str(), "");
}

#[test]
fn default_form_is_blank() {
    let s = FormState::default();
    assert_eq!(s.username.as_str(), "");
    assert_eq!(s.password.as_str(), "");
    assert!(!s.show_pass);
    assert_eq!(s.errors.form.as_str(), "");
}

#[test]
fn submit_both_empty_yields_both_required_errors_and_no_result() {
    let mut s = FormState::new();
    let redraw = s.update(Msg::Submit);
    assert!(redraw);
    assert_eq!(s.errors.username.as_str(), REQUIRED);
    assert_eq!(s.errors.password.as_str(), REQUIRED);
    assert_eq!(s.errors.form.as_str(), "");
}

#[test]
fn submit_non_alphanumeric_username_yields_format_error_only() {
    let mut s = FormState::new();
    s.update(Msg::UpdateUsername(String::from("a b!")));
    s.update(Msg::UpdatePassword(String::from("x")));
    s.update(Msg::Submit);
    assert_eq!(s.errors.username.as_str(), ALPHANUMERIC);
    assert_eq!(s.errors.password.as_str(), "");
    assert_eq!(s.errors.form.as_str(), "");
}

#[test]
fn submit_valid_fields_yields_formatted_result() {
    let mut s = FormState::new();
    s.update(Msg::UpdateUsername(String::from("alice")));
    s.update(Msg::UpdatePassword(String::from("secret")));
    let redraw = s.update(Msg::Submit);
    assert!(redraw);
    assert_eq!(s.errors.username.as_str(), "");
    assert_eq!(s.errors.password.as_str(), "");
    assert_eq!(s.errors.form.as_str(), "Username: alice\nPassword: secret");
}

#[test]
fn resubmit_after_fixing_username_clears_its_error() {
    let mut s = FormState::new();
    s.update(Msg::UpdatePassword(String::from("pw")));
    s.update(Msg::Submit);
    assert_eq!(s.errors.username.as_str(), REQUIRED);
    s.update(Msg::UpdateUsername(String::from("alice")));
    s.update(Msg::Submit);
    assert_eq!(s.errors.username.as_str(), "");
    assert_eq!(s.errors.form.as_str(), "Username: alice\nPassword: pw");
}

#[test]
fn resubmit_after_fixing_password_clears_its_error() {
    let mut s = FormState::new();
    s.update(Msg::UpdateUsername(String::from("bob")));
    s.update(Msg::Submit);
    assert_eq!(s.errors.password.as_str(), REQUIRED);
    s.update(Msg::UpdatePassword(String::from("hunter2")));
    s.update(Msg::Submit);
    assert_eq!(s.errors.password.as_str(), "");
    assert_eq!(s.errors.form.as_str(), "Username: bob\nPassword: hunter2");
}

#[test]
fn empty_username_error_takes_precedence_over_format_error() {
    let mut s = FormState::new();
    s.update(Msg::UpdatePassword(String::from("pw")));
    s.update(Msg::Submit);
    assert_eq!(s.errors.username.as_str(), REQUIRED);
}

#[test]
fn failed_submit_clears_previous_result() {
    let mut s = FormState::new();
    s.update(Msg::UpdateUsername(String::from("alice")));
    s.update(Msg::UpdatePassword(String::from("secret")));
    s.update(Msg::Submit);
    assert_eq!(s.errors.form.as_str(), "Username: alice\nPassword: secret");
    s.update(Msg::UpdateUsername(String::from("")));
    s.update(Msg::Submit);
    assert_eq!(s.errors.username.as_str(), REQUIRED);
    assert_eq!(s.errors.form.as_str(), "");
}

#[test]
fn field_edits_do_not_ask_for_a_redraw() {
    let mut s = FormState::new();
    assert!(!s.update(Msg::UpdateUsername(String::from("alice"))));
    assert!(!s.update(Msg::UpdatePassword(String::from("secret"))));
    assert_eq!(s.username.as_str(), "alice");
    assert_eq!(s.password.as_str(), "secret");
}

#[test]
fn field_edits_do_not_validate() {
    let mut s = FormState::new();
    s.update(Msg::UpdateUsername(String::from("a b!")));
    assert_eq!(s.errors.username.as_str(), "");
    assert_eq!(s.errors.password.as_str(), "");
}

#[test]
fn check_alphanumeric_accepts_letters_and_digits() {
    assert!(login_form::form::check_alphanumeric("alice123"));
    assert!(login_form::form::check_alphanumeric(""));
    assert!(login_form::form::check_alphanumeric("h\u{e9}llo"));
}

#[test]
fn check_alphanumeric_rejects_other_characters() {
    assert!(!login_form::form::check_alphanumeric("a b!"));
    assert!(!login_form::form::check_alphanumeric("a-b"));
    assert!(!login_form::form::check_alphanumeric("user name"));
    assert!(!login_form::form::check_alphanumeric("!"));
}

#[test]
fn unicode_letters_pass_validation() {
    let mut s = FormState::new();
    s.update(Msg::UpdateUsername(String::from("h\u{e9}llo")));
    s.update(Msg::UpdatePassword(String::from("pw")));
    s.update(Msg::Submit);
    assert_eq!(s.errors.username.as_str(), "");
    assert_eq!(s.errors.form.as_str(), "Username: h\u{e9}llo\nPassword: pw");
}
