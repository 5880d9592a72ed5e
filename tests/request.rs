use mail_notifier::error::NotifierError;
use mail_notifier::request::{check_mail_url, check_mail_url_text, credentials};

#[test]
fn url_text_embeds_credentials_unescaped() {
    assert_eq!(
        check_mail_url_text("alice", "s3cret"),
        "https://api.abv.bg/api/checkMail/json?username=alice&password=s3cret"
    );
}

#[test]
fn url_parses_with_credentials_in_query() {
    let url = check_mail_url("alice", "s3cret").unwrap();
    assert_eq!(url.host_str(), Some("api.abv.bg"));
    assert_eq!(url.path(), "/api/checkMail/json");
    assert_eq!(url.query(), Some("username=alice&password=s3cret"));
}

#[test]
fn missing_username_is_named() {
    match credentials(None, Some("pw".to_string())) {
        Err(NotifierError::Config { variable }) => assert_eq!(variable, "USERNAME"),
        other => panic!("unexpected result {:?}", other),
    }
}

#[test]
fn missing_password_is_named() {
    match credentials(Some("alice".to_string()), None) {
        Err(NotifierError::Config { variable }) => assert_eq!(variable, "PASSWORD"),
        other => panic!("unexpected result {:?}", other),
    }
}

#[test]
fn present_credentials_pass_through() {
    let (user, pass) = credentials(Some("alice".to_string()), Some("pw".to_string())).unwrap();
    assert_eq!(user, "alice");
    assert_eq!(pass, "pw");
}
