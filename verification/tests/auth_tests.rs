use ekf_connector::ad_client::{DirectoryEntry, DirectoryError, TextAttribute};
use ekf_connector::auth::{
    login_filter, login_handle, profile_attributes, profile_from_entry, AuthAction, AuthAttempt,
    AuthEvent, AuthPhase,
};
use ekf_connector::command::{respond, Command, CommandResult, Outcome};

fn person() -> DirectoryEntry {
    let attr = |name: &str, value: &str| TextAttribute {
        name: name.to_string(),
        values: vec![value.to_string()],
    };
    DirectoryEntry {
        dn: "CN=John Doe,DC=example,DC=com".to_string(),
        attrs: vec![
            attr("cn", "John Doe"),
            attr("mail", "jdoe@example.com"),
            attr("title", "Analyst"),
            attr("department", "Finance"),
            attr("manager", "CN=Boss,DC=example,DC=com"),
            attr("telephoneNumber", "+1 555 0100"),
            attr("mobile", "+1 555 0199"),
            attr("sAMAccountName", "john.doe"),
        ],
        bin_attrs: vec![],
    }
}

#[test]
fn the_login_follows_the_last_backslash() {
    assert_eq!(login_handle("DOMAIN\\jdoe"), "jdoe");
    assert_eq!(login_handle("jdoe"), "jdoe");
    assert_eq!(login_handle("A\\B\\jdoe"), "jdoe");
    assert_eq!(login_handle("DOMAIN\\"), "");
    assert_eq!(login_handle(""), "");
    assert_eq!(login_handle("jdoe@example.com"), "jdoe@example.com");
}

#[test]
fn the_profile_lookup_is_scoped_to_the_login() {
    assert_eq!(login_filter("jdoe"), "(sAMAccountName=jdoe)");
    assert_eq!(login_filter(""), "(sAMAccountName=)");
    assert_eq!(profile_attributes(), vec!["cn", "mail", "title", "department", "manager"]);
}

#[test]
fn the_profile_is_minimal() {
    let user = profile_from_entry(&person(), "jdoe");
    assert_eq!(user.dn, "CN=John Doe,DC=example,DC=com");
    assert_eq!(user.name.as_deref(), Some("John Doe"));
    assert_eq!(user.email.as_deref(), Some("jdoe@example.com"));
    assert_eq!(user.login.as_deref(), Some("jdoe"));
    assert_eq!(user.title.as_deref(), Some("Analyst"));
    assert_eq!(user.department.as_deref(), Some("Finance"));
    assert_eq!(user.manager_dn.as_deref(), Some("CN=Boss,DC=example,DC=com"));
    assert_eq!(user.phone, None);
    assert_eq!(user.mobile, None);
    assert_eq!(user.photo_base64, None);
}

#[test]
fn a_rejected_bind_is_no_user_and_no_error() {
    let mut attempt = AuthAttempt::new("DOMAIN\\jdoe");
    assert_eq!(attempt.current_phase(), AuthPhase::Connecting);
    assert_eq!(attempt.on_event(AuthEvent::Connected), Some(AuthAction::Bind));
    assert_eq!(attempt.current_phase(), AuthPhase::Binding);
    assert_eq!(attempt.on_event(AuthEvent::Bound { rc: 49 }), Some(AuthAction::Close));
    assert_eq!(attempt.current_phase(), AuthPhase::Finished);
    assert_eq!(attempt.finish(), Ok(None));

    let cmd = Command {
        command: "authenticate".to_string(),
        request_id: "r7".to_string(),
        params: None,
    };
    let response =
        respond(&cmd, Outcome::InvalidCredentials, "n".to_string(), "t".to_string());
    assert_eq!(
        response.result,
        CommandResult::Auth {
            authenticated: false,
            user: None,
            error: Some("Invalid credentials".to_string()),
        }
    );
    assert!(!response.success);
    assert_eq!(response.error.as_deref(), Some("Invalid credentials"));
}

#[test]
fn a_bind_that_could_not_be_sent_is_no_user_and_no_error() {
    let mut attempt = AuthAttempt::new("jdoe");
    attempt.on_event(AuthEvent::Connected);
    assert_eq!(attempt.on_event(AuthEvent::BindFailed), Some(AuthAction::Close));
    assert_eq!(attempt.finish(), Ok(None));
}

#[test]
fn a_successful_bind_fetches_the_profile() {
    let mut attempt = AuthAttempt::new("DOMAIN\\jdoe");
    attempt.on_event(AuthEvent::Connected);
    assert_eq!(
        attempt.on_event(AuthEvent::Bound { rc: 0 }),
        Some(AuthAction::Search {
            filter: "(sAMAccountName=jdoe)".to_string(),
            attributes: vec!["cn", "mail", "title", "department", "manager"],
        })
    );
    assert_eq!(attempt.current_phase(), AuthPhase::Searching);
    let other = DirectoryEntry { dn: "CN=Other".to_string(), attrs: vec![], bin_attrs: vec![] };
    assert_eq!(attempt.on_event(AuthEvent::Found(vec![person(), other])), Some(AuthAction::Close));
    let user = attempt.finish().unwrap().unwrap();
    assert_eq!(user.dn, "CN=John Doe,DC=example,DC=com");
    assert_eq!(user.login.as_deref(), Some("jdoe"));
    assert_eq!(user.phone, None);
}

#[test]
fn a_profile_that_is_not_found_is_no_user() {
    let mut attempt = AuthAttempt::new("jdoe");
    attempt.on_event(AuthEvent::Connected);
    attempt.on_event(AuthEvent::Bound { rc: 0 });
    assert_eq!(attempt.on_event(AuthEvent::Found(vec![])), Some(AuthAction::Close));
    assert_eq!(attempt.finish(), Ok(None));
}

#[test]
fn a_failed_lookup_is_no_user() {
    let mut attempt = AuthAttempt::new("jdoe");
    attempt.on_event(AuthEvent::Connected);
    attempt.on_event(AuthEvent::Bound { rc: 0 });
    assert_eq!(attempt.on_event(AuthEvent::SearchFailed), Some(AuthAction::Close));
    assert_eq!(attempt.finish(), Ok(None));
}

#[test]
fn a_connection_that_cannot_be_opened_is_an_error() {
    let mut attempt = AuthAttempt::new("jdoe");
    assert_eq!(
        attempt.on_event(AuthEvent::ConnectFailed("no route to host".to_string())),
        Some(AuthAction::Stop)
    );
    assert_eq!(attempt.current_phase(), AuthPhase::Finished);
    assert_eq!(
        attempt.finish(),
        Err(DirectoryError::Unavailable("Failed to connect: no route to host".to_string()))
    );
}

#[test]
fn a_sign_in_ignores_answers_out_of_turn() {
    let mut attempt = AuthAttempt::new("jdoe");
    assert_eq!(attempt.on_event(AuthEvent::Bound { rc: 0 }), None);
    assert_eq!(attempt.on_event(AuthEvent::Found(vec![person()])), None);
    assert_eq!(attempt.current_phase(), AuthPhase::Connecting);
    attempt.on_event(AuthEvent::Connected);
    assert_eq!(attempt.on_event(AuthEvent::Connected), None);
    assert_eq!(attempt.on_event(AuthEvent::SearchFailed), None);
    attempt.on_event(AuthEvent::Bound { rc: 1 });
    assert_eq!(attempt.on_event(AuthEvent::Found(vec![person()])), None);
    assert_eq!(attempt.finish(), Ok(None));
}
