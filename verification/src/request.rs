//! One push attempt: its class, its ceiling, and its payload.

use vstd::prelude::*;

use crate::app_env::AppEnv;
use crate::app_error::AppError;
use crate::db::RequestLog;
use crate::db::spec_count_in_window;

verus! {

/// A single outbound push: an alarm attempt carrying its index in the
/// dispatch sequence (observational only — it never alters the limiter or
/// the payload), or a one-off test push carrying its text.
#[derive(Debug, Clone)]
pub enum PushRequest {
    Alarm(u8),
    Test(String),
}

impl PushRequest {
    /// The rate ceiling of this class: how many attempts the trailing hour
    /// may already hold before a new one is refused.
    pub open spec fn spec_hour_limit(&self) -> i64 {
        match self {
            PushRequest::Alarm(_) => 60,
            PushRequest::Test(_) => 10,
        }
    }

    /// How many requests of this class may be made in the previous hour.
    pub fn hour_limit(&self) -> (r: i64)
        ensures
            r == self.spec_hour_limit(),
    {
        match self {
            PushRequest::Alarm(_) => 60,
            PushRequest::Test(_) => 10,
        }
    }

    /// The transport priority field: high for an alarm, normal for a test.
    pub fn get_priority(&self) -> (r: &'static str)
        ensures
            r@ == self.spec_priority(),
    {
        match self {
            PushRequest::Alarm(_) => "1",
            PushRequest::Test(_) => "0",
        }
    }

    /// The priority field of this class.
    pub open spec fn spec_priority(&self) -> Seq<char> {
        match self {
            PushRequest::Alarm(_) => "1"@,
            PushRequest::Test(_) => "0"@,
        }
    }

    /// The text this push announces: an alarm attempt carries the resolved
    /// alarm message it was handed, a test push carries its own text.
    pub open spec fn spec_message(&self, message: Seq<char>) -> Seq<char> {
        match self {
            PushRequest::Alarm(_) => message,
            PushRequest::Test(text) => text@,
        }
    }

    /// The four fields the push transport is handed, in order: the
    /// application token, the user token, the message text, the priority.
    /// `message` is the resolved alarm message; a test push announces its
    /// own text instead.
    pub fn gen_params(&self, app_envs: &AppEnv, message: &str) -> (r: Vec<(String, String)>)
        ensures
            r@.len() == 4,
            r@[0].0@ == "token"@ && r@[0].1@ == app_envs.token_app@,
            r@[1].0@ == "user"@ && r@[1].1@ == app_envs.token_user@,
            r@[2].0@ == "message"@ && r@[2].1@ == self.spec_message(message@),
            r@[3].0@ == "priority"@ && r@[3].1@ == self.spec_priority(),
    {
        let message = match self {
            PushRequest::Alarm(_) => message.to_owned(),
            PushRequest::Test(text) => text.clone(),
        };
        let mut params: Vec<(String, String)> = Vec::new();
        params.push(("token".to_owned(), app_envs.token_app.clone()));
        params.push(("user".to_owned(), app_envs.token_user.clone()));
        params.push(("message".to_owned(), message));
        params.push(("priority".to_owned(), self.get_priority().to_owned()));
        params
    }

    /// One dispatch attempt against the log: count this class's attempts in
    /// the closed hour window ending at `now`; at or over the ceiling,
    /// refuse with the count seen and leave the log untouched; otherwise
    /// record the attempt and hand back the payload for the transport,
    /// announcing the resolved `message` (a test push its own text).
    pub fn make_request(
        &self,
        app_envs: &AppEnv,
        log: &mut RequestLog,
        now: u64,
        message: &str,
    ) -> (r: Result<Vec<(String, String)>, AppError>)
        requires
            old(log).wf(),
            old(log)@.len() < i64::MAX,
            now <= i64::MAX,
        ensures
            final(log).wf(),
            ({
                let count = spec_count_in_window(old(log)@, self is Alarm, now - 3600, now as int);
                if count >= self.spec_hour_limit() {
                    &&& r matches Err(AppError::TooManyRequests(c)) && c == count
                    &&& final(log)@ == old(log)@
                } else {
                    &&& r matches Ok(params) && params@.len() == 4 && params@[0].0@ == "token"@
                        && params@[0].1@ == app_envs.token_app@ && params@[1].0@ == "user"@
                        && params@[1].1@ == app_envs.token_user@ && params@[2].0@ == "message"@
                        && params@[2].1@ == self.spec_message(message@) && params@[3].0@
                        == "priority"@ && params@[3].1@ == self.spec_priority()
                    &&& final(log)@.len() == old(log)@.len() + 1
                    &&& final(log)@ == old(log)@.push(final(log)@.last())
                    &&& final(log)@.last().request_id == old(log)@.len() + 1
                    &&& final(log)@.last().timestamp == now
                    &&& final(log)@.last().is_alarm == (self is Alarm)
                }
            }),
    {
        let requests_made: i64 = log.count_past_hour(self, now);
        if requests_made >= self.hour_limit() {
            Err(AppError::TooManyRequests(requests_made))
        } else {
            let params = self.gen_params(app_envs, message);
            log.insert(self, now);
            Ok(params)
        }
    }
}

} // verus!
