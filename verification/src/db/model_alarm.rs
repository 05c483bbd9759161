//! The single configured alarm.

use vstd::prelude::*;

verus! {

/// The configured wake time, as the store's alarm row holds it. The store
/// keeps at most one row; its schema constrains the hour to `0..=23`, the
/// minute to `0..=59`, and folds an empty message to none.
#[derive(Debug)]
pub struct ModelAlarm {
    pub alarm_id: i64,
    pub hour: i8,
    pub minute: i8,
    pub message: Option<String>,
}

impl Clone for ModelAlarm {
    fn clone(&self) -> (r: ModelAlarm)
        ensures
            r == *self,
    {
        ModelAlarm {
            alarm_id: self.alarm_id,
            hour: self.hour,
            minute: self.minute,
            message: match &self.message {
                Some(m) => Some(m.clone()),
                None => None,
            },
        }
    }
}

impl ModelAlarm {
    /// What the store's schema guarantees of every alarm row.
    pub open spec fn valid(self) -> bool {
        &&& 0 <= self.hour <= 23
        &&& 0 <= self.minute <= 59
        &&& (self.message matches Some(m) ==> m@.len() > 0)
    }

    /// Build an alarm under the store's rules: the hour and minute must be
    /// in range, and an empty message is folded to none.
    pub fn new(alarm_id: i64, hour: i8, minute: i8, message: Option<String>) -> (r: Result<
        ModelAlarm,
        (),
    >)
        ensures
            r is Ok <==> (0 <= hour <= 23 && 0 <= minute <= 59),
            r matches Ok(a) ==> {
                &&& a.alarm_id == alarm_id
                &&& a.hour == hour
                &&& a.minute == minute
                &&& a.valid()
                &&& a.message == (match message {
                    Some(m) => if m@.len() > 0 {
                        Some(m)
                    } else {
                        None::<String>
                    },
                    None => None::<String>,
                })
            },
    {
        if !(0 <= hour && hour <= 23 && 0 <= minute && minute <= 59) {
            return Err(());
        }
        let message = match message {
            Some(m) => if m.as_str().is_empty() {
                None
            } else {
                Some(m)
            },
            None => None,
        };
        Ok(ModelAlarm { alarm_id, hour, minute, message })
    }
}

} // verus!
