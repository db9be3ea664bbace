//! Signing in at start-up: where the secret key comes from (command line,
//! environment, stored credentials) and what the login screen shows after
//! each step of authentication.

use vstd::prelude::*;
use vstd::string::*;
use crate::keys::Key;
use crate::text::starts_with;
use crate::view_state::AppView;

verus! {

/// Where the secret key (nsec) comes from.
#[derive(Debug, Clone, PartialEq, Eq)]
pub enum NsecSource {
    /// Given with `--nsec`.
    CliArg(String),
    /// Given in the `TENEX_NSEC` environment variable.
    EnvVar(String),
    /// Read from the stored credentials.
    Stored,
}

/// Picks the key's source: the command-line argument first, then a
/// non-empty environment variable, then the stored credentials.
pub fn nsec_source(cli: Option<String>, env: Option<String>) -> (r: NsecSource)
    ensures
        match cli {
            Some(k) => r == NsecSource::CliArg(k),
            None => match env {
                Some(k) => if k@.len() > 0 {
                    r == NsecSource::EnvVar(k)
                } else {
                    r == NsecSource::Stored
                },
                None => r == NsecSource::Stored,
            },
        },
{
    match cli {
        Some(k) => NsecSource::CliArg(k),
        None => match env {
            Some(k) => if k.as_str().unicode_len() > 0 {
                NsecSource::EnvVar(k)
            } else {
                NsecSource::Stored
            },
            None => NsecSource::Stored,
        },
    }
}

/// The login screen's prompt.
#[derive(Debug, Clone, Copy, PartialEq, Eq, Structural)]
pub enum LoginStep {
    /// Ask for the secret key.
    Nsec,
    /// Ask for the password that protects (or will protect) the key.
    Password,
    /// Ask for the password of the stored credentials.
    Unlock,
}

/// The first thing authentication does.
#[derive(Debug, Clone, Copy, PartialEq, Eq, Structural)]
pub enum AuthPlan {
    /// Parse the given key, then connect with it.
    ParseGivenKey,
    /// Load the unencrypted stored key, then connect with it.
    LoadStoredKey,
    /// Show the login screen at this prompt.
    ShowLogin(LoginStep),
}

/// Plans authentication: a given key is parsed; otherwise stored
/// credentials are loaded when they need no password, the unlock prompt is
/// shown when they do, and the key prompt when there are none.
pub fn auth_plan(source: &NsecSource, has_credentials: bool, needs_password: bool) -> (r: AuthPlan)
    ensures
        r == match source {
            NsecSource::Stored => if !has_credentials {
                AuthPlan::ShowLogin(LoginStep::Nsec)
            } else if needs_password {
                AuthPlan::ShowLogin(LoginStep::Unlock)
            } else {
                AuthPlan::LoadStoredKey
            },
            _ => AuthPlan::ParseGivenKey,
        },
{
    match source {
        NsecSource::Stored => if !has_credentials {
            AuthPlan::ShowLogin(LoginStep::Nsec)
        } else if needs_password {
            AuthPlan::ShowLogin(LoginStep::Unlock)
        } else {
            AuthPlan::LoadStoredKey
        },
        _ => AuthPlan::ParseGivenKey,
    }
}

/// The step of authentication that failed.
#[derive(Debug, Clone, Copy, PartialEq, Eq, Structural)]
pub enum AuthFailure {
    /// The given key did not parse.
    KeyParse,
    /// The stored key could not be loaded.
    KeyLoad,
    /// Connecting with the key failed.
    Connect,
}

/// How authentication ended.
#[derive(Debug, Clone, PartialEq, Eq)]
pub enum AuthResult {
    /// Signed in: go to the home view.
    Success,
    /// Show the login screen at this prompt, with this error.
    ShowLogin(LoginStep, Option<String>),
}

/// The error shown when connecting failed.
pub open spec fn connect_error(error: Seq<char>) -> Seq<char> {
    "Failed to connect: "@ + error
}

/// The error text of a failed connection attempt.
pub fn connect_failed(error: &str) -> (r: String)
    ensures
        r@ == connect_error(error@),
{
    let mut r = String::from_str("Failed to connect: ");
    r.append(error);
    r
}

/// The result of authentication after the step `failure` failed with
/// `error`, or succeeded when there was no failure: the key prompt with
/// the error, or success.
pub fn auth_result(failure: Option<AuthFailure>, error: &str) -> (r: AuthResult)
    ensures
        match failure {
            None => r == AuthResult::Success,
            Some(f) => r matches AuthResult::ShowLogin(step, Some(m)) && step == LoginStep::Nsec
                && m@ == match f {
                AuthFailure::KeyParse => "Invalid nsec provided: "@ + error@,
                AuthFailure::KeyLoad => "Failed to load credentials: "@ + error@,
                AuthFailure::Connect => error@,
            },
        },
{
    match failure {
        None => AuthResult::Success,
        Some(f) => {
            let m = match f {
                AuthFailure::KeyParse => {
                    let mut m = String::from_str("Invalid nsec provided: ");
                    m.append(error);
                    m
                },
                AuthFailure::KeyLoad => {
                    let mut m = String::from_str("Failed to load credentials: ");
                    m.append(error);
                    m
                },
                AuthFailure::Connect => String::from_str(error),
            };
            AuthResult::ShowLogin(LoginStep::Nsec, Some(m))
        },
    }
}

/// nostr's secret key.
#[verifier::external_type_specification]
#[verifier::external_body]
pub struct ExSecretKey(nostr::key::SecretKey);

/// Whether `nostr::key::SecretKey::parse` accepts the text (as a hex or a
/// bech32 secret key).
pub uninterp spec fn secret_key_parses(text: Seq<char>) -> bool;

/// Calls `nostr::key::SecretKey::parse` (hex or bech32) and displays its
/// error. Claimed: it succeeds exactly when `secret_key_parses` holds of
/// the text, which depends on the text alone; on failure the error is the
/// fixed message "invalid secret key" that the parser gives. The key is
/// opaque here: nothing is said of it.
#[verifier::external_body]
fn parse_secret_key(text: &str) -> (r: Result<nostr::key::SecretKey, String>)
    ensures
        r is Ok == secret_key_parses(text@),
        r matches Err(e) ==> e@ == "invalid secret key"@,
{
    match nostr::key::SecretKey::parse(text) {
        Ok(key) => Ok(key),
        Err(e) => Err(format!("{}", e)),
    }
}

/// The secret key given on the command line or in the environment: the
/// parsed key, or the key prompt with the parse error when it does not
/// parse.
pub fn given_secret_key(nsec: &str) -> (r: Result<nostr::key::SecretKey, AuthResult>)
    ensures
        r is Ok <==> secret_key_parses(nsec@),
        r matches Err(a) ==> a matches AuthResult::ShowLogin(step, Some(m)) && step
            == LoginStep::Nsec && m@ == "Invalid nsec provided: invalid secret key"@,
{
    match parse_secret_key(nsec) {
        Ok(key) => Ok(key),
        Err(e) => {
            proof {
                reveal_strlit("invalid secret key");
                reveal_strlit("Invalid nsec provided: ");
                reveal_strlit("Invalid nsec provided: invalid secret key");
                assert("Invalid nsec provided: "@ + e@ =~= "Invalid nsec provided: invalid secret key"@);
            }
            Err(auth_result(Some(AuthFailure::KeyParse), e.as_str()))
        },
    }
}

/// The login screen's state: its prompt and the key typed at the key
/// prompt, kept until the password is entered.
#[derive(Debug, Clone, PartialEq, Eq)]
pub struct LoginState {
    pub step: LoginStep,
    pub pending_nsec: Option<String>,
}

/// What submitting the login input asks of the application.
#[derive(Debug, Clone, PartialEq, Eq)]
pub enum LoginAction {
    /// Show this status; the prompt stays.
    Status(String),
    /// Move on to the password prompt.
    AskPassword,
    /// Load the stored key with this password, then connect.
    LoadStoredKey { password: String },
    /// Store the typed key, protected by the password if one was given,
    /// then connect.
    SaveKey { nsec: String, password: Option<String> },
}

/// Handles Enter on the login screen: at the key prompt an empty input
/// uses the stored credentials (if any) and a key beginning with `nsec` is
/// kept for the password prompt; at the password prompt the kept key is
/// stored, or without one the stored key is loaded; the unlock prompt
/// loads the stored key.
pub fn login_submit(st: &mut LoginState, input: String, has_credentials: bool) -> (r: LoginAction)
    ensures
        match old(st).step {
            LoginStep::Nsec => if input@.len() == 0 && has_credentials {
                &&& r == LoginAction::AskPassword
                &&& *final(st) == (LoginState { step: LoginStep::Password, pending_nsec: None })
            } else if "nsec"@.is_prefix_of(input@) {
                &&& r == LoginAction::AskPassword
                &&& *final(st) == (LoginState { step: LoginStep::Password, pending_nsec: Some(input) })
            } else {
                &&& r matches LoginAction::Status(m) && m@ == "Invalid nsec format"@
                &&& *final(st) == *old(st)
            },
            LoginStep::Password => {
                &&& r == match old(st).pending_nsec {
                    None => LoginAction::LoadStoredKey { password: input },
                    Some(nsec) => LoginAction::SaveKey {
                        nsec,
                        password: if input@.len() == 0 {
                            None
                        } else {
                            Some(input)
                        },
                    },
                }
                &&& *final(st) == (LoginState { step: LoginStep::Password, pending_nsec: None })
            },
            LoginStep::Unlock => {
                &&& r == LoginAction::LoadStoredKey { password: input }
                &&& *final(st) == *old(st)
            },
        },
{
    match st.step {
        LoginStep::Nsec => if input.as_str().unicode_len() == 0 && has_credentials {
            st.step = LoginStep::Password;
            st.pending_nsec = None;
            LoginAction::AskPassword
        } else if starts_with(input.as_str(), "nsec") {
            proof {
                reveal_strlit("nsec");
            }
            st.step = LoginStep::Password;
            st.pending_nsec = Some(input);
            LoginAction::AskPassword
        } else {
            proof {
                reveal_strlit("nsec");
            }
            LoginAction::Status(String::from_str("Invalid nsec format"))
        },
        LoginStep::Password => {
            let pending = st.pending_nsec.take();
            match pending {
                None => LoginAction::LoadStoredKey { password: input },
                Some(nsec) => {
                    let password = if input.as_str().unicode_len() == 0 {
                        None
                    } else {
                        Some(input)
                    };
                    LoginAction::SaveKey { nsec, password }
                },
            }
        },
        LoginStep::Unlock => LoginAction::LoadStoredKey { password: input },
    }
}

/// How logging in from the login screen ended.
#[derive(Debug, Clone, PartialEq, Eq)]
pub enum LoginResult {
    /// Signed in: go to the home view.
    SignedIn,
    /// Show this status at the (possibly changed) prompt.
    Failed(String),
}

/// After the key was loaded or stored (`key_error` when that failed) and,
/// if it was, the connection attempted (`connect_error` when that failed):
/// the outcome and the prompt to show next. A failed connection returns to
/// the key prompt, or stays at the unlock prompt; a failed password
/// returns to the key prompt, or stays at the unlock prompt with a hint.
pub fn login_finished(st: &mut LoginState, key_error: Option<&str>, connect_error: Option<&str>) -> (r:
    LoginResult)
    requires
        old(st).step != LoginStep::Nsec,
    ensures
        final(st).pending_nsec == old(st).pending_nsec,
        match key_error {
            Some(e) => if old(st).step == LoginStep::Unlock {
                &&& r matches LoginResult::Failed(m) && m@ == "Unlock failed: "@ + e@
                    + ". Press Esc to clear input and retry."@
                &&& final(st).step == LoginStep::Unlock
            } else {
                &&& r matches LoginResult::Failed(m) && m@ == "Login failed: "@ + e@
                &&& final(st).step == LoginStep::Nsec
            },
            None => match connect_error {
                Some(e) => {
                    &&& r matches LoginResult::Failed(m) && m@ == "Failed to connect: "@ + e@
                    &&& final(st).step == if old(st).step == LoginStep::Unlock {
                        LoginStep::Unlock
                    } else {
                        LoginStep::Nsec
                    }
                },
                None => r == LoginResult::SignedIn && final(st).step == old(st).step,
            },
        },
{
    match key_error {
        Some(e) => if st.step == LoginStep::Unlock {
            let mut m = String::from_str("Unlock failed: ");
            m.append(e);
            m.append(". Press Esc to clear input and retry.");
            LoginResult::Failed(m)
        } else {
            st.step = LoginStep::Nsec;
            let mut m = String::from_str("Login failed: ");
            m.append(e);
            LoginResult::Failed(m)
        },
        None => match connect_error {
            Some(e) => {
                if st.step != LoginStep::Unlock {
                    st.step = LoginStep::Nsec;
                }
                LoginResult::Failed(connect_failed(e))
            },
            None => LoginResult::SignedIn,
        },
    }
}

/// What a key does in the single-line input of editing mode.
#[derive(Debug, Clone, Copy, PartialEq, Eq, Structural)]
pub enum EditingKeyAction {
    /// Clear the input and stop creating a thread; leave editing mode
    /// unless on the login screen.
    Cancel { leave_editing: bool },
    InsertChar(char),
    DeleteChar,
    CursorLeft,
    CursorRight,
    /// Submit the input (see `login_submit` on the login screen).
    Submit,
    Ignore,
}

/// Handles a key in the single-line input of editing mode; the login
/// screen always stays in editing mode.
pub fn handle_editing_key(view: AppView, key: Key) -> (r: EditingKeyAction)
    ensures
        r == match key {
            Key::Esc => EditingKeyAction::Cancel { leave_editing: view != AppView::Login },
            Key::Char(c) => EditingKeyAction::InsertChar(c),
            Key::Backspace => EditingKeyAction::DeleteChar,
            Key::Left => EditingKeyAction::CursorLeft,
            Key::Right => EditingKeyAction::CursorRight,
            Key::Enter => EditingKeyAction::Submit,
            _ => EditingKeyAction::Ignore,
        },
{
    match key {
        Key::Esc => EditingKeyAction::Cancel { leave_editing: view != AppView::Login },
        Key::Char(c) => EditingKeyAction::InsertChar(c),
        Key::Backspace => EditingKeyAction::DeleteChar,
        Key::Left => EditingKeyAction::CursorLeft,
        Key::Right => EditingKeyAction::CursorRight,
        Key::Enter => EditingKeyAction::Submit,
        _ => EditingKeyAction::Ignore,
    }
}

} // verus!
