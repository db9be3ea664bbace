use tenex_tui::auth::{
    auth_plan, auth_result, connect_failed, given_secret_key, handle_editing_key, login_finished,
    login_submit,
    nsec_source, AuthFailure, AuthPlan, AuthResult, EditingKeyAction, LoginAction, LoginResult,
    LoginState, LoginStep, NsecSource,
};
use tenex_tui::keys::Key;
use tenex_tui::view_state::AppView;

#[test]
fn key_source_precedence() {
    assert_eq!(nsec_source(Some("nsec1a".into()), Some("nsec1b".into())), NsecSource::CliArg("nsec1a".into()));
    assert_eq!(nsec_source(None, Some("nsec1b".into())), NsecSource::EnvVar("nsec1b".into()));
    assert_eq!(nsec_source(None, Some(String::new())), NsecSource::Stored);
    assert_eq!(nsec_source(None, None), NsecSource::Stored);
}

#[test]
fn plans_and_results() {
    assert_eq!(auth_plan(&NsecSource::CliArg("k".into()), false, false), AuthPlan::ParseGivenKey);
    assert_eq!(auth_plan(&NsecSource::Stored, false, true), AuthPlan::ShowLogin(LoginStep::Nsec));
    assert_eq!(auth_plan(&NsecSource::Stored, true, true), AuthPlan::ShowLogin(LoginStep::Unlock));
    assert_eq!(auth_plan(&NsecSource::Stored, true, false), AuthPlan::LoadStoredKey);
    assert_eq!(auth_result(None, ""), AuthResult::Success);
    assert_eq!(
        auth_result(Some(AuthFailure::KeyParse), "bad checksum"),
        AuthResult::ShowLogin(LoginStep::Nsec, Some("Invalid nsec provided: bad checksum".into()))
    );
    assert_eq!(
        auth_result(Some(AuthFailure::KeyLoad), "io"),
        AuthResult::ShowLogin(LoginStep::Nsec, Some("Failed to load credentials: io".into()))
    );
    let c = connect_failed("closed");
    assert_eq!(c, "Failed to connect: closed");
    assert_eq!(auth_result(Some(AuthFailure::Connect), &c), AuthResult::ShowLogin(LoginStep::Nsec, Some(c.clone())));
}

#[test]
fn login_screen_flow() {
    let mut st = LoginState { step: LoginStep::Nsec, pending_nsec: None };
    assert_eq!(login_submit(&mut st, "npub1x".into(), false), LoginAction::Status("Invalid nsec format".into()));
    assert_eq!(st.step, LoginStep::Nsec);
    assert_eq!(login_submit(&mut st, "nsec1abc".into(), false), LoginAction::AskPassword);
    assert_eq!(st, LoginState { step: LoginStep::Password, pending_nsec: Some("nsec1abc".into()) });
    assert_eq!(
        login_submit(&mut st, String::new(), false),
        LoginAction::SaveKey { nsec: "nsec1abc".into(), password: None }
    );
    assert_eq!(st.pending_nsec, None);
    assert_eq!(login_finished(&mut st, Some("bad"), None), LoginResult::Failed("Login failed: bad".into()));
    assert_eq!(st.step, LoginStep::Nsec);
    assert_eq!(login_submit(&mut st, String::new(), true), LoginAction::AskPassword);
    assert_eq!(login_submit(&mut st, "pw".into(), true), LoginAction::LoadStoredKey { password: "pw".into() });
    assert_eq!(login_finished(&mut st, None, None), LoginResult::SignedIn);
    let mut un = LoginState { step: LoginStep::Unlock, pending_nsec: None };
    assert_eq!(login_submit(&mut un, "pw".into(), true), LoginAction::LoadStoredKey { password: "pw".into() });
    assert_eq!(
        login_finished(&mut un, Some("wrong password"), None),
        LoginResult::Failed("Unlock failed: wrong password. Press Esc to clear input and retry.".into())
    );
    assert_eq!(un.step, LoginStep::Unlock);
    assert_eq!(login_finished(&mut un, None, Some("down")), LoginResult::Failed("Failed to connect: down".into()));
    assert_eq!(un.step, LoginStep::Unlock);
}

#[test]
fn editing_input_keys() {
    assert_eq!(handle_editing_key(AppView::Login, Key::Esc), EditingKeyAction::Cancel { leave_editing: false });
    assert_eq!(handle_editing_key(AppView::Home, Key::Esc), EditingKeyAction::Cancel { leave_editing: true });
    assert_eq!(handle_editing_key(AppView::Home, Key::Enter), EditingKeyAction::Submit);
    assert_eq!(handle_editing_key(AppView::Home, Key::Char('x')), EditingKeyAction::InsertChar('x'));
}

#[test]
fn given_keys_parse_or_return_to_the_key_prompt() {
    let hex_key = format!("{}1", "0".repeat(63));
    assert!(given_secret_key(&hex_key).is_ok());
    match given_secret_key("nsec1bogus") {
        Err(AuthResult::ShowLogin(LoginStep::Nsec, Some(m))) => {
            assert_eq!(m, "Invalid nsec provided: invalid secret key");
        }
        _ => panic!("an invalid key must return to the key prompt"),
    }
}
