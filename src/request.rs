use vstd::prelude::*;
use vstd::string::StringExecFns;

use crate::error::NotifierError;

verus! {

/// The environment variable that holds the account's user name.
pub const USERNAME_VAR: &'static str = "USERNAME";

/// The environment variable that holds the account's password.
pub const PASSWORD_VAR: &'static str = "PASSWORD";

/// The "check mail" endpoint, without its query.
pub const CHECK_MAIL_ENDPOINT: &'static str = "https://api.abv.bg/api/checkMail/json";

/// The separator before the user name in the query.
pub const USERNAME_PARAM: &'static str = "?username=";

/// The separator before the password in the query.
pub const PASSWORD_PARAM: &'static str = "&password=";

#[verifier::external_type_specification]
#[verifier::external_body]
pub struct ExUrl(reqwest::Url);

/// Whether `text` parses as an absolute URL.
pub uninterp spec fn url_parses(text: Seq<char>) -> bool;

/// Relies on `url::Url::parse` (re-exported as `reqwest::Url`): parses an
/// absolute URL, succeeding or not depending on the text alone.
#[verifier::external_body]
fn parse_url(text: &str) -> (r: Option<reqwest::Url>)
    ensures
        r is Some == url_parses(text@),
{
    reqwest::Url::parse(text).ok()
}

/// The request text for the given credentials: both are put into the query
/// as they are, neither checked nor escaped.
pub open spec fn check_mail_text(username: Seq<char>, password: Seq<char>) -> Seq<char> {
    CHECK_MAIL_ENDPOINT@ + USERNAME_PARAM@ + username + PASSWORD_PARAM@ + password
}

/// The credentials of the account, or a `Config` error that names the first
/// variable that is absent.
pub fn credentials(username: Option<String>, password: Option<String>) -> (r: Result<
    (String, String),
    NotifierError,
>)
    ensures
        match (username, password) {
            (Some(u), Some(p)) => r matches Ok((ru, rp)) && ru@ == u@ && rp@ == p@,
            (None, _) => r matches Err(NotifierError::Config { variable }) && variable@
                == USERNAME_VAR@,
            (Some(_), None) => r matches Err(NotifierError::Config { variable }) && variable@
                == PASSWORD_VAR@,
        },
{
    match (username, password) {
        (Some(u), Some(p)) => Ok((u, p)),
        (None, _) => Err(NotifierError::Config { variable: String::from_str(USERNAME_VAR) }),
        (Some(_), None) => Err(NotifierError::Config { variable: String::from_str(PASSWORD_VAR) }),
    }
}

/// The text of the "check mail" request for the given credentials.
pub fn check_mail_url_text(username: &str, password: &str) -> (r: String)
    ensures
        r@ == check_mail_text(username@, password@),
{
    let mut text = String::from_str(CHECK_MAIL_ENDPOINT);
    text.append(USERNAME_PARAM);
    text.append(username);
    text.append(PASSWORD_PARAM);
    text.append(password);
    text
}

/// The "check mail" request URL for the given credentials, or `None` where
/// its text does not parse as a URL.
pub fn check_mail_url(username: &str, password: &str) -> (r: Option<reqwest::Url>)
    ensures
        r is Some == url_parses(check_mail_text(username@, password@)),
{
    let text = check_mail_url_text(username, password);
    parse_url(text.as_str())
}

} // verus!
