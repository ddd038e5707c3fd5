//! The connector's settings, the check they must pass before a session is
//! made from them, and the status that an observer is shown.
use crate::ad_client::{text_of, ADClient, ClientView};
use crate::connector::{Connector, SessionView, StateView};
use crate::ews_client::{CalendarClientView, EWSClient};
use crate::log::{line_texts, LOG_CAPACITY};
use vstd::prelude::*;
use vstd::string::*;

verus! {

/// The settings of the connector.
#[derive(Debug, Clone, PartialEq, Eq)]
pub struct ConnectorConfig {
    pub backend_url: String,
    pub api_key: String,
    pub ad_server: String,
    pub ad_port: u16,
    pub ad_use_ssl: bool,
    pub ad_bind_user: String,
    pub ad_bind_password: String,
    pub ad_base_dn: String,
    pub ews_url: String,
    pub ews_username: String,
    pub ews_password: String,
}

impl Default for ConnectorConfig {
    /// The settings before anyone changed them: the addresses of the
    /// backend, the directory and the calendar service, and no credentials.
    fn default() -> (config: ConnectorConfig)
        ensures
            config.backend_url@ == "wss://one-on-one-back.up.railway.app/ws/connector"@,
            config.api_key@ == Seq::<char>::empty(),
            config.ad_server@ == "172.20.0.33"@,
            config.ad_port == 389,
            !config.ad_use_ssl,
            config.ad_bind_user@ == Seq::<char>::empty(),
            config.ad_bind_password@ == Seq::<char>::empty(),
            config.ad_base_dn@ == "DC=ekfgroup,DC=ru"@,
            config.ews_url@ == "https://post.ekf.su/EWS/Exchange.asmx"@,
            config.ews_username@ == Seq::<char>::empty(),
            config.ews_password@ == Seq::<char>::empty(),
    {
        ConnectorConfig {
            backend_url: String::from_str("wss://one-on-one-back.up.railway.app/ws/connector"),
            api_key: String::new(),
            ad_server: String::from_str("172.20.0.33"),
            ad_port: 389,
            ad_use_ssl: false,
            ad_bind_user: String::new(),
            ad_bind_password: String::new(),
            ad_base_dn: String::from_str("DC=ekfgroup,DC=ru"),
            ews_url: String::from_str("https://post.ekf.su/EWS/Exchange.asmx"),
            ews_username: String::new(),
            ews_password: String::new(),
        }
    }
}

/// What settings lack.
#[derive(Debug, Clone, Copy, PartialEq, Eq, Structural)]
pub enum ConfigError {
    /// No access token for the backend.
    MissingApiKey,
    /// No name or no password for the directory's service account.
    MissingDirectoryCredentials,
}

impl ConfigError {
    /// The text of the error, as the user is shown it.
    pub open spec fn text(self) -> Seq<char> {
        match self {
            ConfigError::MissingApiKey => "API Key не задан"@,
            ConfigError::MissingDirectoryCredentials => "Учетные данные AD не заданы"@,
        }
    }

    /// The text of the error, as the user is shown it.
    pub fn message(&self) -> (message: String)
        ensures
            message@ == self.text(),
    {
        match self {
            ConfigError::MissingApiKey => String::from_str("API Key не задан"),
            ConfigError::MissingDirectoryCredentials => String::from_str(
                "Учетные данные AD не заданы",
            ),
        }
    }
}

impl ConnectorConfig {
    /// What the settings lack, the access token first; nothing where a
    /// session can be made from them.
    pub open spec fn lacks(self) -> Option<ConfigError> {
        if self.api_key@.len() == 0 {
            Some(ConfigError::MissingApiKey)
        } else if self.ad_bind_user@.len() == 0 || self.ad_bind_password@.len() == 0 {
            Some(ConfigError::MissingDirectoryCredentials)
        } else {
            None
        }
    }

    /// Checks that a session can be made from the settings.
    pub fn validate(&self) -> (outcome: Result<(), ConfigError>)
        ensures
            match outcome {
                Ok(_) => self.lacks() is None,
                Err(error) => self.lacks() == Some(error),
            },
    {
        if self.api_key.as_str().is_empty() {
            Err(ConfigError::MissingApiKey)
        } else if self.ad_bind_user.as_str().is_empty() || self.ad_bind_password.as_str().is_empty() {
            Err(ConfigError::MissingDirectoryCredentials)
        } else {
            Ok(())
        }
    }

    /// The directory client that the settings describe.
    pub open spec fn directory_view(self) -> ClientView {
        ClientView {
            server: self.ad_server@,
            port: self.ad_port,
            use_ssl: self.ad_use_ssl,
            bind_user: self.ad_bind_user@,
            bind_password: self.ad_bind_password@,
            base_dn: self.ad_base_dn@,
            users_ou: "OU=EKF-USERS,"@ + self.ad_base_dn@,
        }
    }

    /// The calendar client that the settings describe.
    pub open spec fn calendar_view(self) -> CalendarClientView {
        CalendarClientView {
            url: self.ews_url@,
            username: self.ews_username@,
            password: self.ews_password@,
        }
    }

    /// The directory client that the settings describe.
    pub fn ad_client(&self) -> (client: ADClient)
        ensures
            client@ == self.directory_view(),
    {
        ADClient::new(
            self.ad_server.as_str(),
            self.ad_port,
            self.ad_use_ssl,
            self.ad_bind_user.as_str(),
            self.ad_bind_password.as_str(),
            self.ad_base_dn.as_str(),
        )
    }

    /// The calendar client that the settings describe.
    pub fn ews_client(&self) -> (client: EWSClient)
        ensures
            client@ == self.calendar_view(),
    {
        EWSClient::new(
            self.ews_url.as_str(),
            self.ews_username.as_str(),
            self.ews_password.as_str(),
        )
    }

    /// A session for the settings, never started; the error where the
    /// settings lack something.
    pub fn connector(&self) -> (outcome: Result<Connector, ConfigError>)
        ensures
            match outcome {
                Ok(connector) => {
                    &&& self.lacks() is None
                    &&& connector@ == SessionView::fresh(
                        self.backend_url@ + "?token="@ + self.api_key@,
                    )
                    &&& connector.directory()@ == self.directory_view()
                    &&& connector.calendar()@ == self.calendar_view()
                },
                Err(error) => self.lacks() == Some(error),
            },
    {
        match self.validate() {
            Ok(_) => Ok(
                Connector::new(
                    self.backend_url.as_str(),
                    self.api_key.as_str(),
                    self.ad_client(),
                    self.ews_client(),
                ),
            ),
            Err(error) => Err(error),
        }
    }
}

/// What an observer is shown: the session's flags, its last error and the
/// newest lines of its log.
#[derive(Debug, Clone, PartialEq, Eq)]
pub struct ConnectorStatus {
    pub running: bool,
    pub connected: bool,
    pub ad_connected: bool,
    pub exchange_connected: bool,
    pub last_error: Option<String>,
    pub logs: Vec<String>,
}

impl ConnectorStatus {
    /// The flags and the error of the status.
    pub open spec fn state(self) -> StateView {
        StateView {
            running: self.running,
            connected: self.connected,
            ad_connected: self.ad_connected,
            exchange_connected: self.exchange_connected,
            last_error: text_of(self.last_error),
        }
    }

    /// Whether the status shows `session`.
    pub open spec fn shows(self, session: SessionView) -> bool {
        &&& self.state() == session.state
        &&& line_texts(self.logs@) == session.log
    }

    /// Whether the status is the one before any session: every flag false,
    /// no error, no lines.
    pub open spec fn blank(self) -> bool {
        &&& !self.running
        &&& !self.connected
        &&& !self.ad_connected
        &&& !self.exchange_connected
        &&& self.last_error is None
        &&& self.logs@.len() == 0
    }
}

impl Default for ConnectorStatus {
    /// The status before any session.
    fn default() -> (status: ConnectorStatus)
        ensures
            status.blank(),
    {
        ConnectorStatus {
            running: false,
            connected: false,
            ad_connected: false,
            exchange_connected: false,
            last_error: None,
            logs: Vec::new(),
        }
    }
}

/// The status of `connector`; the blank status where there is no session.
/// It never shows more lines than the log's capacity.
pub fn get_status(connector: Option<&Connector>) -> (status: ConnectorStatus)
    ensures
        match connector {
            Some(c) => status.shows(c@),
            None => status.blank(),
        },
        status.logs@.len() <= LOG_CAPACITY,
{
    match connector {
        Some(c) => {
            let state = c.get_state();
            ConnectorStatus {
                running: state.running,
                connected: state.connected,
                ad_connected: state.ad_connected,
                exchange_connected: state.exchange_connected,
                last_error: state.last_error,
                logs: c.logs(),
            }
        },
        None => ConnectorStatus::default(),
    }
}

} // verus!
