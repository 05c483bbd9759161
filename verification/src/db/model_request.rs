//! The append-only request log and its windowed counting.

use vstd::prelude::*;

use crate::clock;
use crate::request::PushRequest;

verus! {

/// One logged push attempt: when it was made and whether it belonged to an
/// alarm sequence (as opposed to a test push).
#[derive(Debug, Clone, Copy)]
pub struct ModelRequest {
    pub request_id: i64,
    pub timestamp: u64,
    pub is_alarm: bool,
}

/// A bare count, as the store's counting query returns it.
#[derive(Debug, Clone, PartialEq, Eq, Structural)]
pub struct Count {
    pub count: i64,
}

impl ModelRequest {
    /// The current time in seconds, unix epoch style.
    pub fn now() -> u64 {
        clock::now_unix_secs()
    }

    /// The current time in seconds, unix epoch style, as the store's signed
    /// column holds it; zero if the clock reads out of the column's range.
    pub fn now_i64() -> (r: i64)
        ensures
            r >= 0,
    {
        let now = Self::now();
        if now > i64::MAX as u64 {
            0
        } else {
            now as i64
        }
    }

    /// The store's counting query for a class of push: attempts of that
    /// class with a timestamp inside a closed window.
    pub fn count_query(push_request: &PushRequest) -> (r: &'static str)
        ensures
            r@ == (match push_request {
                PushRequest::Alarm(_) =>
                    "SELECT COUNT(*) AS count FROM request WHERE is_alarm = TRUE AND timestamp BETWEEN $1 AND $2 ORDER BY timestamp"@,
                PushRequest::Test(_) =>
                    "SELECT COUNT(*) AS count FROM request WHERE is_alarm = FALSE AND timestamp BETWEEN $1 AND $2 ORDER BY timestamp"@,
            }),
    {
        match push_request {
            PushRequest::Alarm(_) => {
                "SELECT COUNT(*) AS count FROM request WHERE is_alarm = TRUE AND timestamp BETWEEN $1 AND $2 ORDER BY timestamp"
            },
            PushRequest::Test(_) => {
                "SELECT COUNT(*) AS count FROM request WHERE is_alarm = FALSE AND timestamp BETWEEN $1 AND $2 ORDER BY timestamp"
            },
        }
    }

    /// Is the given push an alarm attempt.
    pub fn is_alarm(push_request: &PushRequest) -> (r: bool)
        ensures
            r == push_request is Alarm,
    {
        match push_request {
            PushRequest::Alarm(_) => true,
            PushRequest::Test(_) => false,
        }
    }
}

/// Does a logged attempt fall inside the window: same class, timestamp in
/// the closed interval `[from, to]`.
pub open spec fn req_in_window(e: ModelRequest, is_alarm: bool, from: int, to: int) -> bool {
    e.is_alarm == is_alarm && from <= e.timestamp <= to
}

/// How many logged attempts of the class fall inside the closed window.
pub open spec fn spec_count_in_window(
    s: Seq<ModelRequest>,
    is_alarm: bool,
    from: int,
    to: int,
) -> nat {
    s.filter(|e: ModelRequest| req_in_window(e, is_alarm, from, to)).len()
}

/// The append-only log of push attempts, ordered as they were made. Mirrors
/// the store's request table: row ids count up from one, and timestamps fit
/// the store's signed column.
#[derive(Debug, Clone)]
pub struct RequestLog {
    entries: Vec<ModelRequest>,
}

impl View for RequestLog {
    type V = Seq<ModelRequest>;

    closed spec fn view(&self) -> Seq<ModelRequest> {
        self.entries@
    }
}

impl RequestLog {
    /// What the store's schema guarantees of the log: ids are the row
    /// positions counted from one, and every timestamp fits the signed
    /// column.
    pub open spec fn wf(self) -> bool {
        &&& self@.len() <= i64::MAX
        &&& forall|i: int|
            0 <= i < self@.len() ==> (#[trigger] self@[i]).request_id == i + 1
        &&& forall|i: int| 0 <= i < self@.len() ==> (#[trigger] self@[i]).timestamp <= i64::MAX
    }

    /// An empty log.
    pub fn new() -> (r: RequestLog)
        ensures
            r@ == Seq::<ModelRequest>::empty(),
            r.wf(),
    {
        RequestLog { entries: Vec::new() }
    }

    /// How many attempts the log holds.
    pub fn len(&self) -> (r: usize)
        ensures
            r == self@.len(),
    {
        self.entries.len()
    }

    /// The attempt at a position.
    pub fn get(&self, i: usize) -> (r: &ModelRequest)
        requires
            i < self@.len(),
        ensures
            *r == self@[i as int],
    {
        &self.entries[i]
    }

    /// Count the attempts of the push's class made in the past hour: those
    /// with a timestamp in the closed window `[now - 3600, now]`.
    pub fn count_past_hour(&self, push_request: &PushRequest, now: u64) -> (r: i64)
        requires
            self.wf(),
            now <= i64::MAX,
        ensures
            r == spec_count_in_window(self@, push_request is Alarm, now - 3600, now as int),
            0 <= r <= self@.len(),
    {
        let is_alarm = ModelRequest::is_alarm(push_request);
        let ghost from = now - 3600;
        let ghost to = now as int;
        let mut count: i64 = 0;
        let mut i: usize = 0;
        proof {
            assert(self@.take(0) =~= Seq::<ModelRequest>::empty());
            assert(spec_count_in_window(self@.take(0), is_alarm, from, to) == 0) by {
                reveal(Seq::filter);
            }
        }
        while i < self.entries.len()
            invariant
                self.wf(),
                is_alarm == push_request is Alarm,
                i <= self@.len(),
                now <= i64::MAX,
                from == now - 3600,
                to == now as int,
                0 <= count <= i,
                count == spec_count_in_window(self@.take(i as int), is_alarm, from, to),
            decreases self@.len() - i,
        {
            let e = &self.entries[i];
            let hit = e.is_alarm == is_alarm && e.timestamp + 3600 >= now && e.timestamp <= now;
            proof {
                let s0 = self@.take(i as int);
                let s1 = self@.take(i + 1);
                assert(s1.drop_last() =~= s0);
                assert(s1.last() == self@[i as int]);
                assert(hit == req_in_window(self@[i as int], is_alarm, from, to));
                assert(spec_count_in_window(s1, is_alarm, from, to) == (if hit {
                    spec_count_in_window(s0, is_alarm, from, to) + 1
                } else {
                    spec_count_in_window(s0, is_alarm, from, to) + 0
                })) by {
                    reveal(Seq::filter);
                }
            }
            if hit {
                count = count + 1;
            }
            i = i + 1;
        }
        proof {
            assert(self@.take(self@.len() as int) =~= self@);
        }
        count
    }

    /// Append a fresh attempt of the push's class, stamped `now`, under the
    /// next row id; the row is returned as the store would return it.
    pub fn insert(&mut self, push_request: &PushRequest, now: u64) -> (r: ModelRequest)
        requires
            old(self).wf(),
            old(self)@.len() < i64::MAX,
            now <= i64::MAX,
        ensures
            final(self).wf(),
            final(self)@ == old(self)@.push(r),
            r.request_id == old(self)@.len() + 1,
            r.timestamp == now,
            r.is_alarm == (push_request is Alarm),
    {
        let is_alarm = ModelRequest::is_alarm(push_request);
        let request_id: i64 = self.entries.len() as i64 + 1;
        let row = ModelRequest { request_id, timestamp: now, is_alarm };
        self.entries.push(row);
        row
    }
}

} // verus!
