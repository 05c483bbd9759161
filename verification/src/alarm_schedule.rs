//! The alarm actor: the one owner of the configured alarm, the timezone,
//! the live ticker and the live dispatch sequence.
//!
//! The actor consumes its control messages strictly in arrival order; each
//! handler here is one such step. The surrounding runtime only loads rows,
//! sleeps and sends — every decision stands here, verified: which snapshot
//! the ticker binds, when the ticker fires, how the announced message is
//! resolved, and how far a dispatch sequence has come.

use vstd::prelude::*;

use crate::app_error::AppError;
use crate::clock::TimeOfDay;
use crate::db::ModelAlarm;
use crate::db::ModelTimezone;

verus! {

/// A ticker polls once a second.
pub const ONE_SEC: u64 = 1000;

/// Milliseconds between two attempts of a dispatch sequence.
pub const TWENTY_FIVE_SEC: u64 = 25000;

/// How many attempts one alarm fire dispatches.
pub const DISPATCH_ATTEMPTS: u8 = 40;

/// The control messages the actor consumes, in arrival order.
#[derive(Debug, Clone, PartialEq)]
pub enum CronMessage {
    /// The alarm or timezone configuration changed: reload and restart the
    /// ticker.
    Reset,
    /// The ticker matched the alarm time: start dispatching, announcing the
    /// carried message when there is one.
    AlarmStart(Option<String>),
    /// Stop the running dispatch sequence, if any.
    AlarmDismiss,
}

/// The live ticker: the alarm and zone snapshot it was started with.
#[derive(Debug)]
pub struct TickerTask {
    pub alarm: ModelAlarm,
    pub time_zone: ModelTimezone,
}

/// The live dispatch sequence: its resolved message and how many attempts
/// have already begun.
#[derive(Debug)]
pub struct DispatchSequence {
    pub message: String,
    pub sent: u8,
}

impl DispatchSequence {
    /// No more attempts begin than the sequence holds.
    pub open spec fn wf(self) -> bool {
        self.sent <= DISPATCH_ATTEMPTS
    }

    /// Begin the next attempt: its indices run from one to the sequence
    /// length, and past the end nothing more is begun.
    pub fn next_attempt(&mut self) -> (r: Option<u8>)
        requires
            old(self).wf(),
        ensures
            final(self).wf(),
            final(self).message == old(self).message,
            old(self).sent < DISPATCH_ATTEMPTS ==> r == Some((old(self).sent + 1) as u8)
                && final(self).sent == old(self).sent + 1,
            old(self).sent == DISPATCH_ATTEMPTS ==> r is None && *final(self) == *old(self),
    {
        if self.sent < DISPATCH_ATTEMPTS {
            self.sent = self.sent + 1;
            Some(self.sent)
        } else {
            None
        }
    }
}

/// Does the ticker fire at this local time: the alarm's own minute, at
/// second zero — so at exactly one second-of-day per day.
pub open spec fn spec_fires(alarm: ModelAlarm, now: TimeOfDay) -> bool {
    &&& alarm.hour == now.hour as int
    &&& alarm.minute == now.minute as int
    &&& now.second == 0
}

/// The message a fire announces: the supplied one when it says something,
/// else the phrase drawn from the pool, else a fixed fallback.
pub open spec fn spec_resolved_message(msg: Option<String>, pool: Option<String>) -> Seq<char> {
    match msg {
        Some(m) => if m@.len() > 0 {
            m@
        } else {
            spec_pool_message(pool)
        },
        None => spec_pool_message(pool),
    }
}

/// What the phrase pool yields: its draw, or the fallback when the pool is
/// unavailable.
pub open spec fn spec_pool_message(pool: Option<String>) -> Seq<char> {
    match pool {
        Some(p) => p@,
        None => "fix me"@,
    }
}

/// Dismissing clears the dispatch sequence and touches nothing else.
pub open spec fn spec_dismiss(s: AlarmSchedule) -> AlarmSchedule {
    AlarmSchedule { loop_alarm: None, ..s }
}

/// Resetting replaces the timezone by the reloaded one (keeping the old on
/// a failed load), leaves the dispatch sequence alone, and starts a fresh
/// ticker exactly when the reload yielded an alarm.
pub open spec fn spec_reset(
    s: AlarmSchedule,
    tz_reload: Option<ModelTimezone>,
    alarm_reload: Result<Option<ModelAlarm>, AppError>,
) -> AlarmSchedule {
    let tz = match tz_reload {
        Some(tz) => tz,
        None => s.time_zone,
    };
    let ticker = match alarm_reload {
        Ok(Some(a)) => Some(TickerTask { alarm: a, time_zone: tz }),
        _ => None,
    };
    AlarmSchedule { time_zone: tz, loop_msg: ticker, loop_alarm: s.loop_alarm }
}

/// The actor's state: the zone it reads the clock in, the running dispatch
/// sequence and the running ticker — at most one of each, by construction.
#[derive(Debug)]
pub struct AlarmSchedule {
    pub time_zone: ModelTimezone,
    pub loop_alarm: Option<DispatchSequence>,
    pub loop_msg: Option<TickerTask>,
}

impl AlarmSchedule {
    /// Every ticker binds a row the store's schema admits, and every
    /// sequence stays within its length.
    pub open spec fn wf(self) -> bool {
        &&& self.loop_msg matches Some(t) ==> t.alarm.valid()
        &&& self.loop_alarm matches Some(d) ==> d.wf()
    }

    /// Boot the actor from what the store held: the zone (UTC when the
    /// store had none), no dispatch sequence, and a ticker exactly when an
    /// alarm is configured.
    pub fn init(alarm: Option<ModelAlarm>, time_zone: Option<ModelTimezone>) -> (s: AlarmSchedule)
        requires
            alarm matches Some(a) ==> a.valid(),
        ensures
            s.wf(),
            s.loop_alarm is None,
            match time_zone {
                Some(tz) => s.time_zone == tz,
                None => s.time_zone.timezone_id == 1 && s.time_zone.zone_name@ == "UTC"@,
            },
            match alarm {
                Some(a) => s.loop_msg == Some(TickerTask { alarm: a, time_zone: s.time_zone }),
                None => s.loop_msg is None,
            },
    {
        let time_zone = match time_zone {
            Some(tz) => tz,
            None => ModelTimezone::default(),
        };
        let loop_msg = match alarm {
            Some(a) => Some(TickerTask { alarm: a, time_zone: time_zone.clone() }),
            None => None,
        };
        AlarmSchedule { time_zone, loop_alarm: None, loop_msg }
    }

    /// One `Reset` step, fed with what the store reloaded. The running
    /// dispatch sequence is untouched: only a dismiss or a fresh fire
    /// replaces it. On a failed alarm reload the previous zone stands and
    /// no ticker runs; replacing the zone by an equal snapshot is the same
    /// state, so the reloaded zone is stored whenever there is one.
    pub fn handle_reset(
        &mut self,
        tz_reload: Option<ModelTimezone>,
        alarm_reload: Result<Option<ModelAlarm>, AppError>,
    )
        requires
            old(self).wf(),
            alarm_reload matches Ok(Some(a)) ==> a.valid(),
        ensures
            final(self).wf(),
            *final(self) == spec_reset(*old(self), tz_reload, alarm_reload),
    {
        if let Some(tz) = tz_reload {
            self.time_zone = tz;
        }
        self.loop_msg = match alarm_reload {
            Ok(Some(a)) => Some(TickerTask { alarm: a, time_zone: self.time_zone.clone() }),
            _ => None,
        };
    }

    /// One `AlarmFire` step: the running sequence (if any) is replaced by a
    /// fresh one announcing the resolved message; ticker and zone stand.
    pub fn handle_alarm_start(&mut self, msg: Option<String>, pool_phrase: Option<String>)
        requires
            old(self).wf(),
        ensures
            final(self).wf(),
            final(self).time_zone == old(self).time_zone,
            final(self).loop_msg == old(self).loop_msg,
            final(self).loop_alarm matches Some(d) && d.sent == 0 && d.message@
                == spec_resolved_message(msg, pool_phrase),
    {
        let message = Self::get_message(msg, pool_phrase);
        self.loop_alarm = Some(DispatchSequence { message, sent: 0 });
    }

    /// One `AlarmDismiss` step: clears the running sequence; a no-op when
    /// none runs. Attempts already begun are unaffected — nothing here
    /// reaches back into the request log.
    pub fn handle_alarm_dismiss(&mut self)
        requires
            old(self).wf(),
        ensures
            final(self).wf(),
            *final(self) == spec_dismiss(*old(self)),
    {
        self.loop_alarm = None;
    }

    /// Resolve what a fire announces: the supplied message when it says
    /// something, else the phrase the pool drew, else a fixed fallback.
    pub fn get_message(msg: Option<String>, pool_phrase: Option<String>) -> (r: String)
        ensures
            r@ == spec_resolved_message(msg, pool_phrase),
    {
        match msg {
            Some(m) => if !m.as_str().is_empty() {
                m
            } else {
                Self::pool_message(pool_phrase)
            },
            None => Self::pool_message(pool_phrase),
        }
    }

    /// The pool's draw, or the fallback when the pool is unavailable.
    fn pool_message(pool_phrase: Option<String>) -> (r: String)
        ensures
            r@ == spec_pool_message(pool_phrase),
    {
        match pool_phrase {
            Some(p) => p,
            None => "fix me".to_owned(),
        }
    }

    /// One ticker poll: the fire signal to send when the local time
    /// matches the bound alarm, carrying the alarm's own message.
    pub fn tick(alarm: &ModelAlarm, current_time: TimeOfDay) -> (r: Option<CronMessage>)
        ensures
            r is Some <==> spec_fires(*alarm, current_time),
            r matches Some(m) ==> m == CronMessage::AlarmStart(alarm.message),
    {
        if alarm.hour as i64 == current_time.hour as i64 && alarm.minute as i64
            == current_time.minute as i64 && current_time.second == 0 {
            let message = match &alarm.message {
                Some(m) => Some(m.clone()),
                None => None,
            };
            Some(CronMessage::AlarmStart(message))
        } else {
            None
        }
    }

    /// How long the ticker sleeps after a poll that took `elapsed_ms`: the
    /// remainder of its one-second cadence, floored at zero to self-correct
    /// drift.
    pub fn sleep_millis(elapsed_ms: u128) -> (r: u64)
        ensures
            r == (if elapsed_ms >= ONE_SEC {
                0
            } else {
                ONE_SEC - elapsed_ms
            }),
    {
        if elapsed_ms >= ONE_SEC as u128 {
            0
        } else {
            ONE_SEC - elapsed_ms as u64
        }
    }
}

/// Law: for a valid alarm, one and only one time of day fires the ticker —
/// second zero of the alarm's own minute. The ticker therefore fires once
/// per day whose local time reaches that minute, never twice for it.
pub proof fn lemma_ticker_fires_once_per_day(alarm: ModelAlarm, t1: TimeOfDay, t2: TimeOfDay)
    requires
        alarm.valid(),
        t1.valid(),
        t2.valid(),
        spec_fires(alarm, t1),
        spec_fires(alarm, t2),
    ensures
        t1 == t2,
        t1 == (TimeOfDay { hour: alarm.hour as u8, minute: alarm.minute as u8, second: 0 }),
{
}

/// Law: dismissing when no dispatch sequence runs changes nothing at all.
pub proof fn lemma_dismiss_without_sequence_is_noop(s: AlarmSchedule)
    requires
        s.loop_alarm is None,
    ensures
        spec_dismiss(s) == s,
{
}

/// Law: dismissing mid-sequence halts further attempts and nothing else —
/// the ticker and the zone stand, and the request log is not reached.
pub proof fn lemma_dismiss_only_clears_sequence(s: AlarmSchedule)
    ensures
        spec_dismiss(s).loop_alarm is None,
        spec_dismiss(s).loop_msg == s.loop_msg,
        spec_dismiss(s).time_zone == s.time_zone,
{
}

/// Law: a reset never cancels the running dispatch sequence — only a
/// dismiss or a fresh fire does — while the ticker restarts independently,
/// exactly when the reload yielded an alarm.
pub proof fn lemma_reset_keeps_dispatch(
    s: AlarmSchedule,
    tz_reload: Option<ModelTimezone>,
    alarm_reload: Result<Option<ModelAlarm>, AppError>,
)
    ensures
        spec_reset(s, tz_reload, alarm_reload).loop_alarm == s.loop_alarm,
        spec_reset(s, tz_reload, alarm_reload).loop_msg is Some <==> alarm_reload matches Ok(
            Some(_),
        ),
{
}

} // verus!
