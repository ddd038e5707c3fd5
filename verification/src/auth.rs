//! Sign-in against the directory with a user's own name and password, and
//! the profile that a successful sign-in yields.
use crate::ad_client::{lookup_text, texts, ADUser, DirectoryEntry, DirectoryError, UserView};
use crate::text::{after_last, chars_of, final_segment, string_of};
use vstd::prelude::*;
use vstd::string::*;

verus! {

/// The bare login of a user name that may carry a domain in front: what
/// follows the last backslash.
pub open spec fn login_of(username: Seq<char>) -> Seq<char> {
    after_last(username, '\\')
}

/// The directory filter that selects the entry with the login `login`.
pub open spec fn login_filter_text(login: Seq<char>) -> Seq<char> {
    "(sAMAccountName="@ + login + ")"@
}

/// The attributes that the profile lookup asks for.
pub open spec fn requested_profile_attributes() -> Seq<Seq<char>> {
    seq!["cn"@, "mail"@, "title"@, "department"@, "manager"@]
}

/// The bare login of `username`.
pub fn login_handle(username: &str) -> (login: String)
    ensures
        login@ == login_of(username@),
{
    let chars = chars_of(username);
    let tail = final_segment(&chars, '\\');
    string_of(&tail)
}

/// The directory filter that selects the entry with the login `login`.
pub fn login_filter(login: &str) -> (filter: String)
    ensures
        filter@ == login_filter_text(login@),
{
    String::from_str("(sAMAccountName=").concat(login).concat(")")
}

/// The attributes that the profile lookup asks for.
pub fn profile_attributes() -> (attrs: Vec<&'static str>)
    ensures
        texts(attrs@) == requested_profile_attributes(),
{
    let mut attrs: Vec<&'static str> = Vec::new();
    attrs.push("cn");
    attrs.push("mail");
    attrs.push("title");
    attrs.push("department");
    attrs.push("manager");
    proof {
        assert(texts(attrs@) =~= requested_profile_attributes());
    }
    attrs
}

/// The profile that `entry` yields for a user who signed in as `login`.
pub fn profile_from_entry(entry: &DirectoryEntry, login: &str) -> (user: ADUser)
    ensures
        user@ == entry.profile(login@),
{
    ADUser {
        dn: entry.dn.clone(),
        name: lookup_text(&entry.attrs, "cn"),
        email: lookup_text(&entry.attrs, "mail"),
        login: Some(login.to_owned()),
        title: lookup_text(&entry.attrs, "title"),
        department: lookup_text(&entry.attrs, "department"),
        manager_dn: lookup_text(&entry.attrs, "manager"),
        phone: None,
        mobile: None,
        photo_base64: None,
    }
}

/// Where a sign-in stands.
#[derive(Debug, Clone, Copy, PartialEq, Eq, Structural)]
pub enum AuthPhase {
    /// The connection is being opened.
    Connecting,
    /// The user's name and password are with the directory.
    Binding,
    /// The profile is being looked up.
    Searching,
    /// The sign-in is decided.
    Finished,
}

/// What the directory answered.
#[derive(Debug, Clone, PartialEq, Eq)]
pub enum AuthEvent {
    /// The connection is open.
    Connected,
    /// The connection could not be opened; with the directory's words.
    ConnectFailed(String),
    /// The directory answered the sign-in with this result code.
    Bound { rc: u32 },
    /// The sign-in could not be sent or answered.
    BindFailed,
    /// The entries that the profile lookup found.
    Found(Vec<DirectoryEntry>),
    /// The profile lookup failed.
    SearchFailed,
}

/// What to do next.
#[derive(Debug, Clone, PartialEq, Eq)]
pub enum AuthAction {
    /// Sign in with the user's name and password.
    Bind,
    /// Look the profile up below the base, with this filter and these
    /// attributes.
    Search { filter: String, attributes: Vec<&'static str> },
    /// Release the connection; the sign-in is decided.
    Close,
    /// There is no connection to release; the sign-in is decided.
    Stop,
}

/// One sign-in in progress.
pub struct AuthAttempt {
    phase: AuthPhase,
    login: String,
    user: Option<ADUser>,
    failure: Option<DirectoryError>,
}

/// The user of an optional record, as a view.
pub open spec fn user_view_of(user: Option<ADUser>) -> Option<UserView> {
    match user {
        Some(u) => Some(u@),
        None => None,
    }
}

/// The error that says that no connection could be opened.
pub open spec fn connect_failure_text(detail: Seq<char>) -> Seq<char> {
    "Failed to connect: "@ + detail
}

impl AuthAttempt {
    /// Where the sign-in stands.
    pub closed spec fn phase(&self) -> AuthPhase {
        self.phase
    }

    /// The bare login of the user who signs in.
    pub closed spec fn login(&self) -> Seq<char> {
        self.login@
    }

    /// The profile of the user, once the sign-in succeeded and the profile
    /// was found.
    pub closed spec fn user(&self) -> Option<UserView> {
        user_view_of(self.user)
    }

    /// The text of the error, where no connection could be opened.
    pub closed spec fn failure(&self) -> Option<Seq<char>> {
        match self.failure {
            Some(error) => Some(error.text()),
            None => None,
        }
    }

    /// A sign-in of `username` that waits for its connection.
    pub fn new(username: &str) -> (attempt: AuthAttempt)
        ensures
            attempt.phase() == AuthPhase::Connecting,
            attempt.login() == login_of(username@),
            attempt.user() is None,
            attempt.failure() is None,
    {
        AuthAttempt {
            phase: AuthPhase::Connecting,
            login: login_handle(username),
            user: None,
            failure: None,
        }
    }

    /// Where the sign-in stands.
    pub fn current_phase(&self) -> (phase: AuthPhase)
        ensures
            phase == self.phase(),
    {
        self.phase
    }

    /// Takes what the directory answered and says what to do next; `None`,
    /// with the sign-in unchanged, where the answer does not fit the phase.
    ///
    /// Only a result code of zero lets the user in. A refused or failed
    /// sign-in, a failed lookup and a lookup that finds no entry all end the
    /// attempt without a user and without an error; only a connection that
    /// could not be opened is an error.
    pub fn on_event(&mut self, event: AuthEvent) -> (action: Option<AuthAction>)
        ensures
            final(self).login() == old(self).login(),
            match (old(self).phase(), event) {
                (AuthPhase::Connecting, AuthEvent::Connected) => {
                    &&& final(self).phase() == AuthPhase::Binding
                    &&& final(self).user() == old(self).user()
                    &&& final(self).failure() == old(self).failure()
                    &&& action == Some(AuthAction::Bind)
                },
                (AuthPhase::Connecting, AuthEvent::ConnectFailed(detail)) => {
                    &&& final(self).phase() == AuthPhase::Finished
                    &&& final(self).user() == old(self).user()
                    &&& final(self).failure() == Some(connect_failure_text(detail@))
                    &&& action == Some(AuthAction::Stop)
                },
                (AuthPhase::Binding, AuthEvent::Bound { rc }) => {
                    &&& final(self).user() == old(self).user()
                    &&& final(self).failure() == old(self).failure()
                    &&& if rc == 0 {
                        &&& final(self).phase() == AuthPhase::Searching
                        &&& action matches Some(AuthAction::Search { filter, attributes })
                        &&& filter@ == login_filter_text(old(self).login())
                        &&& texts(attributes@) == requested_profile_attributes()
                    } else {
                        &&& final(self).phase() == AuthPhase::Finished
                        &&& action == Some(AuthAction::Close)
                    }
                },
                (AuthPhase::Binding, AuthEvent::BindFailed) => {
                    &&& final(self).phase() == AuthPhase::Finished
                    &&& final(self).user() == old(self).user()
                    &&& final(self).failure() == old(self).failure()
                    &&& action == Some(AuthAction::Close)
                },
                (AuthPhase::Searching, AuthEvent::Found(entries)) => {
                    &&& final(self).phase() == AuthPhase::Finished
                    &&& final(self).user() == if entries@.len() > 0 {
                        Some(entries@[0].profile(old(self).login()))
                    } else {
                        None
                    }
                    &&& final(self).failure() == old(self).failure()
                    &&& action == Some(AuthAction::Close)
                },
                (AuthPhase::Searching, AuthEvent::SearchFailed) => {
                    &&& final(self).phase() == AuthPhase::Finished
                    &&& final(self).user() is None
                    &&& final(self).failure() == old(self).failure()
                    &&& action == Some(AuthAction::Close)
                },
                _ => {
                    &&& *final(self) == *old(self)
                    &&& action is None
                },
            },
    {
        match self.phase {
            AuthPhase::Connecting => match event {
                AuthEvent::Connected => {
                    self.phase = AuthPhase::Binding;
                    Some(AuthAction::Bind)
                },
                AuthEvent::ConnectFailed(detail) => {
                    self.phase = AuthPhase::Finished;
                    self.failure = Some(
                        DirectoryError::Unavailable(
                            String::from_str("Failed to connect: ").concat(detail.as_str()),
                        ),
                    );
                    Some(AuthAction::Stop)
                },
                _ => None,
            },
            AuthPhase::Binding => match event {
                AuthEvent::Bound { rc } => {
                    if rc == 0 {
                        self.phase = AuthPhase::Searching;
                        Some(
                            AuthAction::Search {
                                filter: login_filter(self.login.as_str()),
                                attributes: profile_attributes(),
                            },
                        )
                    } else {
                        self.phase = AuthPhase::Finished;
                        Some(AuthAction::Close)
                    }
                },
                AuthEvent::BindFailed => {
                    self.phase = AuthPhase::Finished;
                    Some(AuthAction::Close)
                },
                _ => None,
            },
            AuthPhase::Searching => match event {
                AuthEvent::Found(entries) => {
                    self.phase = AuthPhase::Finished;
                    if entries.len() > 0 {
                        self.user = Some(profile_from_entry(&entries[0], self.login.as_str()));
                    } else {
                        self.user = None;
                    }
                    Some(AuthAction::Close)
                },
                AuthEvent::SearchFailed => {
                    self.phase = AuthPhase::Finished;
                    self.user = None;
                    Some(AuthAction::Close)
                },
                _ => None,
            },
            AuthPhase::Finished => None,
        }
    }

    /// Ends the sign-in: the error where no connection could be opened,
    /// otherwise the user's profile, or nothing where the directory did not
    /// let the user in or holds no entry for the login.
    pub fn finish(self) -> (outcome: Result<Option<ADUser>, DirectoryError>)
        ensures
            match outcome {
                Ok(user) => self.failure() is None && user_view_of(user) == self.user(),
                Err(error) => self.failure() == Some(error.text()),
            },
    {
        match self.failure {
            Some(error) => Err(error),
            None => Ok(self.user),
        }
    }
}

/// The bare login holds no backslash, ends the user name, and is the whole
/// name or stands right behind a backslash.
pub proof fn lemma_login_is_last_segment(username: Seq<char>)
    ensures
        login_of(username).len() <= username.len(),
        login_of(username) == username.subrange(
            username.len() - login_of(username).len(),
            username.len() as int,
        ),
        !login_of(username).contains('\\'),
        login_of(username).len() < username.len() ==> username[username.len() - login_of(
            username,
        ).len() - 1] == '\\',
{
    crate::text::lemma_after_last_is_final_segment(username, '\\');
}

} // verus!
