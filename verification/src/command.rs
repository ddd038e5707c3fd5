//! Commands from the control plane and the responses to them: a command is
//! decoded once into a closed set of requests, and whatever carrying it out
//! yielded is wrapped into a response that never fails.
use crate::ad_client::{text_of, user_views, ADUser, SyncStats, UserView};
use crate::auth::user_view_of;
use crate::ews_client::{event_views, CalendarEvent, EventView};
use crate::text::{decimal, decimal_string, str_eq};
use vstd::prelude::*;
use vstd::string::*;

verus! {

/// The seconds that a synchronization may take before it counts as timed
/// out.
pub const SYNC_TIMEOUT_SECS: u64 = 300;

/// The lookback, in days, of a calendar request that names none.
pub const DEFAULT_DAYS_BACK: i64 = 7;

/// The lookahead, in days, of a calendar request that names none.
pub const DEFAULT_DAYS_FORWARD: i64 = 30;

/// The value of one parameter, as far as commands read it.
#[derive(Debug, Clone, PartialEq, Eq)]
pub enum ParamValue {
    Bool(bool),
    Int(i64),
    Text(String),
    /// Any value that is neither a truth value, nor an integer that fits
    /// 64 bits with a sign, nor a text.
    Other,
}

/// One parameter of a command.
#[derive(Debug, Clone, PartialEq, Eq)]
pub struct Param {
    pub key: String,
    pub value: ParamValue,
}

/// An inbound request: the command's name, the caller's identifier, which is
/// echoed back as it came, and the parameters. A parameter map lists each
/// key once (`well_formed`); of parameters that list a key twice, the first
/// listing counts.
#[derive(Debug, Clone, PartialEq, Eq)]
pub struct Command {
    pub command: String,
    pub request_id: String,
    pub params: Option<Vec<Param>>,
}

/// What a command asks for.
#[derive(Debug, Clone, PartialEq, Eq)]
pub enum Request {
    Ping,
    SyncUsers { require_department: bool, require_email: bool, include_photo: bool },
    Authenticate { username: String, password: String },
    GetCalendar { email: String, days_back: i32, days_forward: i32 },
    /// A command that this connector does not know.
    Unsupported,
}

/// What a `Request` holds, as sequences of characters.
pub enum RequestView {
    Ping,
    SyncUsers { require_department: bool, require_email: bool, include_photo: bool },
    Authenticate { username: Seq<char>, password: Seq<char> },
    GetCalendar { email: Seq<char>, days_back: i32, days_forward: i32 },
    Unsupported,
}

impl View for Request {
    type V = RequestView;

    open spec fn view(&self) -> RequestView {
        match *self {
            Request::Ping => RequestView::Ping,
            Request::SyncUsers { require_department, require_email, include_photo } =>
                RequestView::SyncUsers { require_department, require_email, include_photo },
            Request::Authenticate { username, password } => RequestView::Authenticate {
                username: username@,
                password: password@,
            },
            Request::GetCalendar { email, days_back, days_forward } => RequestView::GetCalendar {
                email: email@,
                days_back,
                days_forward,
            },
            Request::Unsupported => RequestView::Unsupported,
        }
    }
}

/// The value of the first parameter called `key`.
pub open spec fn param_of(params: Seq<Param>, key: Seq<char>) -> Option<ParamValue>
    decreases params.len(),
{
    if params.len() == 0 {
        None
    } else if params[0].key@ == key {
        Some(params[0].value)
    } else {
        param_of(params.drop_first(), key)
    }
}

/// Whether no two of the parameters have the same key.
pub open spec fn distinct_keys(params: Seq<Param>) -> bool {
    forall|i: int, j: int| 0 <= i < j < params.len() ==> params[i].key@ != params[j].key@
}

/// Where each key is listed once, the value looked up under a key is the
/// value of the parameter with that key, wherever it is listed, and there
/// is none under a key that is not listed.
pub proof fn lemma_param_by_key(params: Seq<Param>, key: Seq<char>)
    requires
        distinct_keys(params),
    ensures
        forall|i: int|
            0 <= i < params.len() && params[i].key@ == key ==> param_of(params, key) == Some(
                (#[trigger] params[i]).value,
            ),
        (forall|i: int| 0 <= i < params.len() ==> (#[trigger] params[i]).key@ != key)
            ==> param_of(params, key) is None,
    decreases params.len(),
{
    if params.len() > 0 {
        let rest = params.drop_first();
        assert forall|i: int, j: int| 0 <= i < j < rest.len() implies rest[i].key@
            != rest[j].key@ by {
            assert(rest[i] == params[i + 1] && rest[j] == params[j + 1]);
        }
        lemma_param_by_key(rest, key);
        assert forall|i: int| 0 <= i < params.len() && params[i].key@ == key implies param_of(
            params,
            key,
        ) == Some((#[trigger] params[i]).value) by {
            if i > 0 {
                assert(rest[i - 1] == params[i]);
            }
        }
        if forall|i: int| 0 <= i < params.len() ==> (#[trigger] params[i]).key@ != key {
            assert forall|i: int| 0 <= i < rest.len() implies (#[trigger] rest[i]).key@
                != key by {
                assert(rest[i] == params[i + 1]);
            }
        }
    }
}

/// The value of the first parameter called `key`.
pub fn find_param<'a>(params: &'a Vec<Param>, key: &str) -> (value: Option<&'a ParamValue>)
    ensures
        match value {
            Some(v) => param_of(params@, key@) == Some(*v),
            None => param_of(params@, key@) is None,
        },
{
    let mut i: usize = 0;
    proof {
        assert(params@.skip(0) =~= params@);
    }
    while i < params.len()
        invariant
            i <= params.len(),
            param_of(params@, key@) == param_of(params@.skip(i as int), key@),
        decreases params.len() - i,
    {
        proof {
            assert(params@.skip(i as int)[0] == params@[i as int]);
            assert(params@.skip(i as int).drop_first() =~= params@.skip(i + 1));
        }
        if str_eq(params[i].key.as_str(), key) {
            return Some(&params[i].value);
        }
        i += 1;
    }
    None
}

impl Command {
    /// Whether the command lists each parameter key once, as a parameter
    /// map does.
    pub open spec fn well_formed(self) -> bool {
        match self.params {
            Some(params) => distinct_keys(params@),
            None => true,
        }
    }

    /// The value of the parameter `key`.
    pub open spec fn param(self, key: Seq<char>) -> Option<ParamValue> {
        match self.params {
            Some(params) => param_of(params@, key),
            None => None,
        }
    }

    /// The truth value of the parameter `key`; `default` where the command
    /// has no such parameter or it is no truth value.
    pub open spec fn flag(self, key: Seq<char>, default: bool) -> bool {
        match self.param(key) {
            Some(ParamValue::Bool(b)) => b,
            _ => default,
        }
    }

    /// The text of the parameter `key`; empty where the command has no such
    /// parameter or it is no text.
    pub open spec fn text(self, key: Seq<char>) -> Seq<char> {
        match self.param(key) {
            Some(ParamValue::Text(s)) => s@,
            _ => Seq::empty(),
        }
    }

    /// The number of days of the parameter `key`, cut to 32 bits; `default`
    /// where the command has no such parameter or it is no integer.
    pub open spec fn days(self, key: Seq<char>, default: i64) -> i32 {
        (match self.param(key) {
            Some(ParamValue::Int(n)) => n,
            _ => default,
        }) as i32
    }

    /// What the command asks for. A synchronization leaves out entries
    /// without a department unless told otherwise, always leaves out entries
    /// without a mail address, and includes photos unless told otherwise.
    pub open spec fn request(self) -> RequestView {
        if self.command@ == "ping"@ {
            RequestView::Ping
        } else if self.command@ == "sync_users"@ {
            RequestView::SyncUsers {
                require_department: self.flag("require_department"@, true),
                require_email: true,
                include_photo: self.flag("include_photo"@, true),
            }
        } else if self.command@ == "authenticate"@ {
            RequestView::Authenticate {
                username: self.text("username"@),
                password: self.text("password"@),
            }
        } else if self.command@ == "get_calendar"@ {
            RequestView::GetCalendar {
                email: self.text("email"@),
                days_back: self.days("days_back"@, DEFAULT_DAYS_BACK),
                days_forward: self.days("days_forward"@, DEFAULT_DAYS_FORWARD),
            }
        } else {
            RequestView::Unsupported
        }
    }

    /// The value of the parameter `key`.
    pub fn lookup(&self, key: &str) -> (value: Option<&ParamValue>)
        ensures
            match value {
                Some(v) => self.param(key@) == Some(*v),
                None => self.param(key@) is None,
            },
    {
        match &self.params {
            Some(params) => find_param(params, key),
            None => None,
        }
    }

    /// The truth value of the parameter `key`, or `default`.
    pub fn flag_or(&self, key: &str, default: bool) -> (value: bool)
        ensures
            value == self.flag(key@, default),
    {
        match self.lookup(key) {
            Some(ParamValue::Bool(b)) => *b,
            _ => default,
        }
    }

    /// The text of the parameter `key`, or the empty text.
    pub fn text_or_empty(&self, key: &str) -> (value: String)
        ensures
            value@ == self.text(key@),
    {
        match self.lookup(key) {
            Some(ParamValue::Text(s)) => s.clone(),
            _ => String::new(),
        }
    }

    /// The number of days of the parameter `key`, cut to 32 bits, or
    /// `default` cut so.
    pub fn days_or(&self, key: &str, default: i64) -> (value: i32)
        ensures
            value == self.days(key@, default),
    {
        let wide: i64 = match self.lookup(key) {
            Some(ParamValue::Int(n)) => *n,
            _ => default,
        };
        #[verifier::truncate]
        (wide as i32)
    }

    /// Decodes the command into what it asks for.
    pub fn decode(&self) -> (request: Request)
        ensures
            request@ == self.request(),
    {
        let name = self.command.as_str();
        if str_eq(name, "ping") {
            Request::Ping
        } else if str_eq(name, "sync_users") {
            Request::SyncUsers {
                require_department: self.flag_or("require_department", true),
                require_email: true,
                include_photo: self.flag_or("include_photo", true),
            }
        } else if str_eq(name, "authenticate") {
            Request::Authenticate {
                username: self.text_or_empty("username"),
                password: self.text_or_empty("password"),
            }
        } else if str_eq(name, "get_calendar") {
            Request::GetCalendar {
                email: self.text_or_empty("email"),
                days_back: self.days_or("days_back", DEFAULT_DAYS_BACK),
                days_forward: self.days_or("days_forward", DEFAULT_DAYS_FORWARD),
            }
        } else {
            Request::Unsupported
        }
    }
}

/// What carrying a request out yielded.
#[derive(Debug, Clone, PartialEq, Eq)]
pub enum Outcome {
    /// Nothing had to be done.
    Pong,
    /// The synchronization pass ended with these users and counts.
    Synced { users: Vec<ADUser>, stats: SyncStats },
    /// The directory could not be used; with the error's text.
    SyncFailed(String),
    /// The synchronization took longer than it may.
    SyncTimedOut,
    /// The directory let the user in and holds this profile.
    Authenticated(ADUser),
    /// The directory did not let the user in, or holds no profile.
    InvalidCredentials,
    /// The directory could not be reached; with the error's text.
    AuthFailed(String),
    /// The calendar service returned these events.
    Events(Vec<CalendarEvent>),
    /// The calendar service could not be used; with the error's text.
    CalendarFailed(String),
    /// The command is not known.
    Unsupported,
}

/// What an `Outcome` holds, as sequences.
pub enum OutcomeView {
    Pong,
    Synced { users: Seq<UserView>, stats: SyncStats },
    SyncFailed(Seq<char>),
    SyncTimedOut,
    Authenticated(UserView),
    InvalidCredentials,
    AuthFailed(Seq<char>),
    Events(Seq<EventView>),
    CalendarFailed(Seq<char>),
    Unsupported,
}

impl View for Outcome {
    type V = OutcomeView;

    open spec fn view(&self) -> OutcomeView {
        match *self {
            Outcome::Pong => OutcomeView::Pong,
            Outcome::Synced { users, stats } => OutcomeView::Synced {
                users: user_views(users@),
                stats,
            },
            Outcome::SyncFailed(error) => OutcomeView::SyncFailed(error@),
            Outcome::SyncTimedOut => OutcomeView::SyncTimedOut,
            Outcome::Authenticated(user) => OutcomeView::Authenticated(user@),
            Outcome::InvalidCredentials => OutcomeView::InvalidCredentials,
            Outcome::AuthFailed(error) => OutcomeView::AuthFailed(error@),
            Outcome::Events(events) => OutcomeView::Events(event_views(events@)),
            Outcome::CalendarFailed(error) => OutcomeView::CalendarFailed(error@),
            Outcome::Unsupported => OutcomeView::Unsupported,
        }
    }
}

/// The payload of a response; its shape depends on the command.
#[derive(Debug, Clone, PartialEq, Eq)]
pub enum CommandResult {
    Pong { pong: bool, timestamp: String },
    Users { users: Vec<ADUser>, total: usize, stats: SyncStats, has_more: bool },
    Auth { authenticated: bool, user: Option<ADUser>, error: Option<String> },
    Events(Vec<CalendarEvent>),
    Error(String),
}

/// What a `CommandResult` holds, as sequences.
pub enum ResultView {
    Pong { pong: bool, timestamp: Seq<char> },
    Users { users: Seq<UserView>, total: usize, stats: SyncStats, has_more: bool },
    Auth { authenticated: bool, user: Option<UserView>, error: Option<Seq<char>> },
    Events(Seq<EventView>),
    Error(Seq<char>),
}

impl View for CommandResult {
    type V = ResultView;

    open spec fn view(&self) -> ResultView {
        match *self {
            CommandResult::Pong { pong, timestamp } => ResultView::Pong {
                pong,
                timestamp: timestamp@,
            },
            CommandResult::Users { users, total, stats, has_more } => ResultView::Users {
                users: user_views(users@),
                total,
                stats,
                has_more,
            },
            CommandResult::Auth { authenticated, user, error } => ResultView::Auth {
                authenticated,
                user: user_view_of(user),
                error: text_of(error),
            },
            CommandResult::Events(events) => ResultView::Events(event_views(events@)),
            CommandResult::Error(error) => ResultView::Error(error@),
        }
    }
}

/// The payload for what carrying the command `name` out yielded at the
/// moment `now`. A synchronization always returns the complete set, so it
/// never announces more; every failure of a backend is carried as an error.
pub open spec fn result_of(name: Seq<char>, outcome: OutcomeView, now: Seq<char>) -> ResultView {
    match outcome {
        OutcomeView::Pong => ResultView::Pong { pong: true, timestamp: now },
        OutcomeView::Synced { users, stats } => ResultView::Users {
            users,
            total: stats.total_in_ad,
            stats,
            has_more: false,
        },
        OutcomeView::SyncFailed(error) => ResultView::Error(error),
        OutcomeView::SyncTimedOut => ResultView::Error("Sync timed out"@),
        OutcomeView::Authenticated(user) => ResultView::Auth {
            authenticated: true,
            user: Some(user),
            error: None,
        },
        OutcomeView::InvalidCredentials => ResultView::Auth {
            authenticated: false,
            user: None,
            error: Some("Invalid credentials"@),
        },
        OutcomeView::AuthFailed(error) => ResultView::Auth {
            authenticated: false,
            user: None,
            error: Some(error),
        },
        OutcomeView::Events(events) => ResultView::Events(events),
        OutcomeView::CalendarFailed(error) => ResultView::Error(error),
        OutcomeView::Unsupported => ResultView::Error("Unknown command: "@ + name),
    }
}

/// The error that a payload carries, if it carries one.
pub open spec fn error_in(result: ResultView) -> Option<Seq<char>> {
    match result {
        ResultView::Auth { error, .. } => error,
        ResultView::Error(error) => Some(error),
        _ => None,
    }
}

/// What the log says of an outcome, where it says anything.
pub open spec fn note_of(cmd: Command, outcome: OutcomeView) -> Option<Seq<char>> {
    match outcome {
        OutcomeView::Synced { users, stats } => Some(
            "Synced "@ + decimal(stats.returned as nat) + " users ("@ + decimal(
                stats.with_department as nat,
            ) + " with dept)"@,
        ),
        OutcomeView::SyncFailed(error) => Some("Sync failed: "@ + error),
        OutcomeView::SyncTimedOut => Some("Sync timed out"@),
        OutcomeView::Authenticated(_) => Some("Auth success: "@ + cmd.text("username"@)),
        OutcomeView::InvalidCredentials => Some("Auth failed: "@ + cmd.text("username"@)),
        OutcomeView::Events(events) => Some(
            "Fetched "@ + decimal(events.len()) + " events for "@ + cmd.text("email"@),
        ),
        OutcomeView::CalendarFailed(error) => Some("Calendar fetch failed: "@ + error),
        _ => None,
    }
}

/// The answer to one command.
#[derive(Debug, Clone, PartialEq, Eq)]
pub struct Response {
    /// The tag of the envelope: always `response`.
    pub kind: String,
    pub request_id: String,
    pub command: String,
    pub success: bool,
    pub error: Option<String>,
    pub result: CommandResult,
    pub timestamp: String,
}

/// What a `Response` holds, as sequences.
pub struct ResponseView {
    pub kind: Seq<char>,
    pub request_id: Seq<char>,
    pub command: Seq<char>,
    pub success: bool,
    pub error: Option<Seq<char>>,
    pub result: ResultView,
    pub timestamp: Seq<char>,
}

impl View for Response {
    type V = ResponseView;

    open spec fn view(&self) -> ResponseView {
        ResponseView {
            kind: self.kind@,
            request_id: self.request_id@,
            command: self.command@,
            success: self.success,
            error: text_of(self.error),
            result: self.result@,
            timestamp: self.timestamp@,
        }
    }
}

/// The response to `cmd` for what carrying it out yielded: the identifier
/// and the name as they came, the payload, the error that the payload
/// carries, and success exactly where it carries none.
pub open spec fn response_of(
    cmd: Command,
    outcome: OutcomeView,
    now: Seq<char>,
    timestamp: Seq<char>,
) -> ResponseView {
    let result = result_of(cmd.command@, outcome, now);
    ResponseView {
        kind: "response"@,
        request_id: cmd.request_id@,
        command: cmd.command@,
        success: error_in(result) is None,
        error: error_in(result),
        result,
        timestamp,
    }
}

/// A response succeeds exactly where it carries no error.
pub proof fn lemma_success_is_absence_of_error(
    cmd: Command,
    outcome: OutcomeView,
    now: Seq<char>,
    timestamp: Seq<char>,
)
    ensures
        response_of(cmd, outcome, now, timestamp).success == (response_of(
            cmd,
            outcome,
            now,
            timestamp,
        ).error is None),
        response_of(cmd, outcome, now, timestamp).request_id == cmd.request_id@,
        response_of(cmd, outcome, now, timestamp).command == cmd.command@,
{
}

/// The payload for what carrying `cmd` out yielded at the moment `now`.
pub fn result_for(cmd: &Command, outcome: Outcome, now: String) -> (result: CommandResult)
    ensures
        result@ == result_of(cmd.command@, outcome@, now@),
{
    match outcome {
        Outcome::Pong => CommandResult::Pong { pong: true, timestamp: now },
        Outcome::Synced { users, stats } => CommandResult::Users {
            users,
            total: stats.total_in_ad,
            stats,
            has_more: false,
        },
        Outcome::SyncFailed(error) => CommandResult::Error(error),
        Outcome::SyncTimedOut => CommandResult::Error(String::from_str("Sync timed out")),
        Outcome::Authenticated(user) => CommandResult::Auth {
            authenticated: true,
            user: Some(user),
            error: None,
        },
        Outcome::InvalidCredentials => CommandResult::Auth {
            authenticated: false,
            user: None,
            error: Some(String::from_str("Invalid credentials")),
        },
        Outcome::AuthFailed(error) => CommandResult::Auth {
            authenticated: false,
            user: None,
            error: Some(error),
        },
        Outcome::Events(events) => CommandResult::Events(events),
        Outcome::CalendarFailed(error) => CommandResult::Error(error),
        Outcome::Unsupported => CommandResult::Error(
            String::from_str("Unknown command: ").concat(cmd.command.as_str()),
        ),
    }
}

/// The error that a payload carries, if it carries one.
pub fn error_of(result: &CommandResult) -> (error: Option<String>)
    ensures
        text_of(error) == error_in(result@),
{
    match result {
        CommandResult::Auth { error, .. } => match error {
            Some(e) => Some(e.clone()),
            None => None,
        },
        CommandResult::Error(error) => Some(error.clone()),
        _ => None,
    }
}

/// What the log says of an outcome, where it says anything.
pub fn note_for(cmd: &Command, outcome: &Outcome) -> (note: Option<String>)
    ensures
        text_of(note) == note_of(*cmd, outcome@),
{
    match outcome {
        Outcome::Synced { users, stats } => {
            let returned = decimal_string(stats.returned as u64);
            let with_department = decimal_string(stats.with_department as u64);
            Some(
                String::from_str("Synced ").concat(returned.as_str()).concat(" users (").concat(
                    with_department.as_str(),
                ).concat(" with dept)"),
            )
        },
        Outcome::SyncFailed(error) => Some(
            String::from_str("Sync failed: ").concat(error.as_str()),
        ),
        Outcome::SyncTimedOut => Some(String::from_str("Sync timed out")),
        Outcome::Authenticated(_) => {
            let username = cmd.text_or_empty("username");
            Some(String::from_str("Auth success: ").concat(username.as_str()))
        },
        Outcome::InvalidCredentials => {
            let username = cmd.text_or_empty("username");
            Some(String::from_str("Auth failed: ").concat(username.as_str()))
        },
        Outcome::Events(events) => {
            let count = decimal_string(events.len() as u64);
            let email = cmd.text_or_empty("email");
            Some(
                String::from_str("Fetched ").concat(count.as_str()).concat(" events for ").concat(
                    email.as_str(),
                ),
            )
        },
        Outcome::CalendarFailed(error) => Some(
            String::from_str("Calendar fetch failed: ").concat(error.as_str()),
        ),
        _ => None,
    }
}

/// The response to `cmd` for what carrying it out yielded. `now` is the
/// moment that a ping reports, `timestamp` the moment of the response.
pub fn respond(cmd: &Command, outcome: Outcome, now: String, timestamp: String) -> (response:
    Response)
    ensures
        response@ == response_of(*cmd, outcome@, now@, timestamp@),
        response.success == (response.error is None),
{
    let result = result_for(cmd, outcome, now);
    let error = error_of(&result);
    Response {
        kind: String::from_str("response"),
        request_id: cmd.request_id.clone(),
        command: cmd.command.clone(),
        success: error.is_none(),
        error,
        result,
        timestamp,
    }
}

} // verus!
