//! The session: logged out, or logged in with exactly one account, plus the
//! two text buffers of the login form.

use crate::hasher::{is_lower_hex_digit, lemma_hex_shape, password_hash_of, sha512, to_lower_hex};
use vstd::prelude::*;
use vstd::utf8::encode_utf8;

verus! {

/// A logged-in account: the username as entered and the password's digest.
pub struct Account {
    pub username: String,
    pub password_hash: String,
}

/// What an account holds, as character sequences.
pub struct AccountView {
    pub username: Seq<char>,
    pub password_hash: Seq<char>,
}

impl View for Account {
    type V = AccountView;

    open spec fn view(&self) -> AccountView {
        AccountView { username: self.username@, password_hash: self.password_hash@ }
    }
}

impl Account {
    /// An account for `username` whose password digest is `password_hash`.
    pub fn new(username: String, password_hash: String) -> (r: Account)
        ensures
            r.username == username,
            r.password_hash == password_hash,
    {
        Account { username, password_hash }
    }
}

/// The session state as a mathematical value.
pub struct SessionView {
    /// Present exactly while logged in.
    pub account: Option<AccountView>,
    pub username_input: Seq<char>,
    pub password_input: Seq<char>,
}

impl SessionView {
    /// The state a program starts in: logged out, both buffers empty.
    pub open spec fn initial() -> SessionView {
        SessionView { account: None, username_input: Seq::empty(), password_input: Seq::empty() }
    }

    pub open spec fn logged_in(self) -> bool {
        self.account is Some
    }

    /// The state after logging in as `username` with `password`: the account
    /// is replaced by a new one; the buffers are left as they were.
    pub open spec fn after_login(self, username: Seq<char>, password: Seq<char>) -> SessionView {
        SessionView {
            account: Some(
                AccountView {
                    username,
                    password_hash: password_hash_of(encode_utf8(password)),
                },
            ),
            ..self
        }
    }

    /// The state after logging out: no account; the buffers are left as they were.
    pub open spec fn after_logout(self) -> SessionView {
        SessionView { account: None, ..self }
    }

    /// The state after the login form is submitted: logged in with the
    /// buffers' contents, and both buffers cleared.
    pub open spec fn after_submit(self) -> SessionView {
        SessionView {
            username_input: Seq::empty(),
            password_input: Seq::empty(),
            ..self.after_login(self.username_input, self.password_input)
        }
    }
}

/// After a login, the session holds an account with the given username and
/// the digest of the given password.
pub proof fn lemma_login_holds_account(s: SessionView, username: Seq<char>, password: Seq<char>)
    ensures
        s.after_login(username, password).logged_in(),
        s.after_login(username, password).account->0.username == username,
        s.after_login(username, password).account->0.password_hash == password_hash_of(
            encode_utf8(password),
        ),
{
}

/// A logout right after a login leaves the session logged out, with no account.
pub proof fn lemma_logout_after_login(s: SessionView, username: Seq<char>, password: Seq<char>)
    ensures
        !s.after_login(username, password).after_logout().logged_in(),
        s.after_login(username, password).after_logout().account is None,
{
}

/// A second login replaces the first entirely: two logins in a row leave the
/// same state as the second alone.
pub proof fn lemma_second_login_replaces(
    s: SessionView,
    username1: Seq<char>,
    password1: Seq<char>,
    username2: Seq<char>,
    password2: Seq<char>,
)
    ensures
        s.after_login(username1, password1).after_login(username2, password2) == s.after_login(
            username2,
            password2,
        ),
{
}

/// The session held by a running program.
pub struct Application {
    account: Option<Account>,
    login_window_username: String,
    login_window_password: String,
}

impl View for Application {
    type V = SessionView;

    closed spec fn view(&self) -> SessionView {
        SessionView {
            account: match self.account {
                Some(a) => Some(a@),
                None => None,
            },
            username_input: self.login_window_username@,
            password_input: self.login_window_password@,
        }
    }
}

impl Application {
    /// A logged-out session with empty form buffers.
    pub fn new() -> (r: Application)
        ensures
            r@ == SessionView::initial(),
    {
        let r = Application {
            account: None,
            login_window_username: String::new(),
            login_window_password: String::new(),
        };
        assert(r@ == SessionView::initial());
        r
    }

    /// The password digest: SHA-512 of `buffer`, as 128 lowercase hex digits.
    pub fn hash(buffer: &[u8]) -> (r: String)
        ensures
            r@ == password_hash_of(buffer@),
            r@.len() == 128,
            forall|i: int| 0 <= i < r@.len() ==> is_lower_hex_digit(#[trigger] r@[i]),
    {
        let digest = sha512(buffer);
        proof {
            lemma_hex_shape(digest@);
        }
        to_lower_hex(digest.as_slice())
    }

    /// Logs in as `username`, replacing any account held before. Only the
    /// password's digest is kept.
    pub fn login(&mut self, username: String, password: String)
        ensures
            final(self)@ == old(self)@.after_login(username@, password@),
    {
        let password_hash = Self::hash(password.as_str().as_bytes());
        self.account = Some(Account::new(username, password_hash));
    }

    /// Logs out; does nothing while logged out.
    pub fn logout(&mut self)
        ensures
            final(self)@ == old(self)@.after_logout(),
    {
        self.account = None;
    }

    /// Whether an account is held.
    pub fn is_logged_in(&self) -> (r: bool)
        ensures
            r == self@.logged_in(),
    {
        self.account.is_some()
    }

    /// The account held, if logged in.
    pub fn account(&self) -> (r: Option<&Account>)
        ensures
            r is Some <==> self@.logged_in(),
            r is Some ==> self@.account == Some(r->0@),
    {
        self.account.as_ref()
    }

    /// The account held, if logged in, for changing in place.
    pub fn account_mut(&mut self) -> (r: Option<&mut Account>)
        ensures
            r is Some <==> old(self)@.logged_in(),
            r is None ==> final(self)@ == old(self)@,
            r is Some ==> old(self)@.account == Some((*r->0)@) && final(self)@ == (SessionView {
                account: Some((*final(r->0))@),
                ..old(self)@
            }),
    {
        match &mut self.account {
            Some(account) => Some(account),
            None => None,
        }
    }

    /// The login form's username buffer.
    pub fn username_input(&self) -> (r: &String)
        ensures
            r@ == self@.username_input,
    {
        &self.login_window_username
    }

    /// The login form's password buffer.
    pub fn password_input(&self) -> (r: &String)
        ensures
            r@ == self@.password_input,
    {
        &self.login_window_password
    }

    /// The login form's username buffer, for editing.
    pub fn username_input_mut(&mut self) -> (r: &mut String)
        ensures
            (*r)@ == old(self)@.username_input,
            final(self)@ == (SessionView { username_input: (*final(r))@, ..old(self)@ }),
    {
        &mut self.login_window_username
    }

    /// The login form's password buffer, for editing.
    pub fn password_input_mut(&mut self) -> (r: &mut String)
        ensures
            (*r)@ == old(self)@.password_input,
            final(self)@ == (SessionView { password_input: (*final(r))@, ..old(self)@ }),
    {
        &mut self.login_window_password
    }

    /// Submits the login form: logs in with what the buffers hold, then clears
    /// both. Every submission is accepted.
    pub fn submit_login(&mut self)
        ensures
            final(self)@ == old(self)@.after_submit(),
    {
        let username = self.login_window_username.clone();
        let password = self.login_window_password.clone();
        self.login(username, password);
        self.login_window_username = String::new();
        self.login_window_password = String::new();
    }
}

} // verus!
