//! The controller's error values and their user-facing wording.

use vstd::prelude::*;
use vstd::string::StringExecFns;

use crate::decimal::dec_rep_int;
use crate::decimal::i64_to_string;

verus! {

/// Everything that can go wrong around the controller. Failures of the
/// outside collaborators (store, push transport, socket) arrive as the
/// collaborator's own report, already rendered to text.
#[derive(Debug, Clone)]
pub enum AppError {
    /// The configured database file name does not end in `.db`.
    DbNameInvalid(String),
    /// A required environment entry is absent.
    MissingEnv(String),
    /// The push transport failed.
    Reqwest(String),
    /// The persistent store failed.
    Sqlx(String),
    /// The remote-control socket could not connect.
    TungsteniteConnect(String),
    /// A push URL could not be built.
    Url(String),
    /// The remote-control handshake answered with a bad status.
    WsStatus,
    /// The hourly rate ceiling was already reached; carries the count seen.
    TooManyRequests(i64),
}

/// The wording of each error, as shown to the user.
pub open spec fn spec_message(e: AppError) -> Seq<char> {
    match e {
        AppError::DbNameInvalid(s) => "'"@ + s@ + "' - sql file should end '.db'"@,
        AppError::MissingEnv(s) => "missing env: '"@ + s@ + "'"@,
        AppError::Reqwest(_) => "Reqwest Error"@,
        AppError::Sqlx(s) => "Internal Database Error: "@ + s@,
        AppError::TungsteniteConnect(s) => "WS Connect: "@ + s@,
        AppError::Url(s) => "Url parsing error: "@ + s@,
        AppError::WsStatus => "Invalid WS Status Code"@,
        AppError::TooManyRequests(n) => "Too many requests made in the past hour: "@
            + dec_rep_int(n as int),
    }
}

impl AppError {
    /// Render the error for the user.
    pub fn message(&self) -> (r: String)
        ensures
            r@ == spec_message(*self),
    {
        match self {
            AppError::DbNameInvalid(s) => "'".to_owned().concat(s.as_str()).concat(
                "' - sql file should end '.db'",
            ),
            AppError::MissingEnv(s) => "missing env: '".to_owned().concat(s.as_str()).concat("'"),
            AppError::Reqwest(_) => "Reqwest Error".to_owned(),
            AppError::Sqlx(s) => "Internal Database Error: ".to_owned().concat(s.as_str()),
            AppError::TungsteniteConnect(s) => "WS Connect: ".to_owned().concat(s.as_str()),
            AppError::Url(s) => "Url parsing error: ".to_owned().concat(s.as_str()),
            AppError::WsStatus => "Invalid WS Status Code".to_owned(),
            AppError::TooManyRequests(n) => {
                let digits = i64_to_string(*n);
                "Too many requests made in the past hour: ".to_owned().concat(digits.as_str())
            },
        }
    }
}

} // verus!
