use alarms::clock::TimeOfDay;
use alarms::db::ModelAlarm;
use alarms::ws::ws_sender::WsAction;
use alarms::ws::ws_sender::plan_message;
use alarms::ws::ws_sender::valid_change;
use alarms::ws_messages::HourMinute;
use alarms::ws_messages::ParsedMessage;
use alarms::ws_messages::TestRequest;
use alarms::ws_messages::TimeZone;

#[test]
fn test_ws_sender_valid_change() {
    let test = |alarm: (u8, u8), current_time: (u8, u8), is_ok: bool| {
        let result = valid_change(
            TimeOfDay::new(current_time.0, current_time.1, 0),
            alarm.0,
            alarm.1,
        );
        if is_ok {
            assert!(result.is_ok());
        } else {
            assert!(result.is_err());
        }
    };

    // 5:15 am alarm
    let alarm = (5, 15);
    test(alarm, (23, 59), true);
    test(alarm, (0, 10), true);
    test(alarm, (0, 15), false);
    test(alarm, (1, 59), false);
    test(alarm, (5, 0), false);
    test(alarm, (5, 14), false);
    test(alarm, (5, 15), false);
    test(alarm, (5, 16), true);

    // 06:15 alarm
    let alarm = (6, 15);
    test(alarm, (23, 59), true);
    test(alarm, (0, 0), true);
    test(alarm, (0, 15), true);
    test(alarm, (1, 14), true);
    test(alarm, (1, 15), false);
    test(alarm, (3, 59), false);
    test(alarm, (6, 14), false);
    test(alarm, (6, 15), false);
    test(alarm, (6, 16), true);

    // 12:15 alarm
    let alarm = (12, 15);
    test(alarm, (6, 59), true);
    test(alarm, (7, 0), true);
    test(alarm, (12, 14), false);
    test(alarm, (12, 15), false);
    test(alarm, (12, 16), true);
    test(alarm, (14, 0), true);

    // 18:15 alarm
    let alarm = (18, 15);
    test(alarm, (1, 15), true);
    test(alarm, (12, 59), true);
    test(alarm, (13, 14), true);
    test(alarm, (13, 15), false);
    test(alarm, (18, 14), false);
    test(alarm, (18, 15), false);
    test(alarm, (18, 16), true);
    test(alarm, (23, 15), true);

    // 00:15 alarm
    let alarm = (0, 15);
    test(alarm, (16, 14), true);
    test(alarm, (19, 14), true);
    test(alarm, (19, 15), false);
    test(alarm, (23, 14), false);
    test(alarm, (0, 14), false);
    test(alarm, (0, 15), false);
    test(alarm, (0, 16), true);
}

#[test]
fn plan_message_edit_window_gating() {
    let alarm = ModelAlarm::new(1, 18, 15, None).unwrap();
    let noon = TimeOfDay::new(12, 0, 0);
    let close = TimeOfDay::new(17, 0, 0);

    // delete and update pass outside the window, are refused inside it
    let r = plan_message(ParsedMessage::AlarmDelete, Some(&alarm), noon);
    assert_eq!(r, WsAction::DeleteAlarm);
    let r = plan_message(ParsedMessage::AlarmDelete, Some(&alarm), close);
    assert_eq!(r, WsAction::RejectEdit);
    let hm = HourMinute { hour: 7, minute: 30 };
    let r = plan_message(ParsedMessage::AlarmUpdate(hm), Some(&alarm), noon);
    assert_eq!(r, WsAction::UpdateAlarm(7, 30));
    let r = plan_message(ParsedMessage::AlarmUpdate(hm), Some(&alarm), close);
    assert_eq!(r, WsAction::RejectEdit);

    // nothing configured: nothing to delete or update
    let r = plan_message(ParsedMessage::AlarmDelete, None, close);
    assert_eq!(r, WsAction::Ignore);
    let r = plan_message(ParsedMessage::AlarmUpdate(hm), None, close);
    assert_eq!(r, WsAction::Ignore);

    // adding skips the window
    let r = plan_message(ParsedMessage::AlarmAdd(hm), Some(&alarm), close);
    assert_eq!(r, WsAction::AddAlarm(7, 30));
}

#[test]
fn plan_message_other_commands() {
    let now = TimeOfDay::new(12, 0, 0);

    let r = plan_message(ParsedMessage::AlarmDismiss, None, now);
    assert_eq!(r, WsAction::Dismiss);
    let r = plan_message(ParsedMessage::Restart, None, now);
    assert_eq!(r, WsAction::Restart);
    let r = plan_message(ParsedMessage::Status, None, now);
    assert_eq!(r, WsAction::SendStatus);
    let r = plan_message(
        ParsedMessage::TestRequest(TestRequest { message: "ping".to_owned() }),
        None,
        now,
    );
    assert_eq!(r, WsAction::SendTest("ping".to_owned()));
    let r = plan_message(
        ParsedMessage::TimeZone(TimeZone { zone: "Europe/Berlin".to_owned() }),
        None,
        now,
    );
    assert_eq!(r, WsAction::ChangeZone("Europe/Berlin".to_owned()));
    let r = plan_message(
        ParsedMessage::TimeZone(TimeZone { zone: "europe/berlin".to_owned() }),
        None,
        now,
    );
    assert_eq!(r, WsAction::RejectZone);
}
