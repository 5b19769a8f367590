use lease_core::address::Addr;
use lease_core::alarms::{as_seconds, bytes_less, AlarmError, AlarmsMut, TimeSeconds};
use lease_core::batch::Msg;
use lease_core::timealarms::{AlarmsStatusResponse, ContractError, TimeAlarms};
use lease_core::timestamp::Timestamp;

fn query_alarms(alarms: &AlarmsMut, t_sec: TimeSeconds) -> Vec<(Addr, TimeSeconds)> {
    alarms
        .as_alarms()
        .alarms_selection(Timestamp::from_seconds(t_sec))
}

#[test]
fn test_add() {
    let mut alarms = AlarmsMut::new();

    let t1 = Timestamp::from_seconds(1);
    let t2 = Timestamp::from_seconds(3);
    let addr1 = Addr::unchecked("addr1");
    let addr2 = Addr::unchecked("addr2");

    alarms.add(addr1.clone(), t1).unwrap();

    assert_eq!(
        query_alarms(&alarms, 10),
        vec![(addr1.clone(), as_seconds(t1))]
    );

    // single alarm per addr
    alarms.add(addr1.clone(), t2).unwrap();

    assert_eq!(
        query_alarms(&alarms, 10),
        vec![(addr1.clone(), as_seconds(t2))]
    );

    alarms.add(addr2.clone(), t2).unwrap();

    assert_eq!(
        query_alarms(&alarms, 10),
        vec![(addr1, as_seconds(t2)), (addr2, as_seconds(t2))]
    );
}

#[test]
fn test_remove() {
    let mut alarms = AlarmsMut::new();

    let t1 = Timestamp::from_seconds(10);
    let t2 = Timestamp::from_seconds(20);
    let addr1 = Addr::unchecked("addr1");
    let addr2 = Addr::unchecked("addr2");

    alarms.add(addr1.clone(), t1).unwrap();
    alarms.add(addr2.clone(), t2).unwrap();

    assert_eq!(
        query_alarms(&alarms, 30),
        vec![
            (addr1.clone(), as_seconds(t1)),
            (addr2.clone(), as_seconds(t2))
        ]
    );

    alarms.remove(addr1).unwrap();
    assert_eq!(query_alarms(&alarms, 30), vec![(addr2, as_seconds(t2))]);
}

#[test]
fn test_selection() {
    let mut alarms = AlarmsMut::new();
    let t1 = Timestamp::from_seconds(1);
    let t2 = Timestamp::from_seconds(2);
    let t3_sec = 3;
    let t4 = Timestamp::from_seconds(4);
    let addr1 = Addr::unchecked("addr1");
    let addr2 = Addr::unchecked("addr2");
    let addr3 = Addr::unchecked("addr3");
    let addr4 = Addr::unchecked("addr4");

    // same timestamp
    alarms.add(addr1.clone(), t1).unwrap();
    alarms.add(addr2.clone(), t1).unwrap();
    // different timestamp
    alarms.add(addr3.clone(), t2).unwrap();
    // rest
    alarms.add(addr4, t4).unwrap();

    assert_eq!(
        query_alarms(&alarms, t3_sec),
        vec![
            (addr1, as_seconds(t1)),
            (addr2, as_seconds(t1)),
            (addr3, as_seconds(t2))
        ]
    );
}

#[test]
fn selection_is_ordered_by_time_then_address_whatever_the_order_of_adding() {
    let mut alarms = AlarmsMut::new();
    alarms
        .add(Addr::unchecked("b"), Timestamp::from_seconds(5))
        .unwrap();
    alarms
        .add(Addr::unchecked("ab"), Timestamp::from_seconds(5))
        .unwrap();
    alarms
        .add(Addr::unchecked("a"), Timestamp::from_seconds(5))
        .unwrap();
    alarms
        .add(Addr::unchecked("z"), Timestamp::from_seconds(1))
        .unwrap();
    assert_eq!(
        vec![
            (Addr::unchecked("z"), 1),
            (Addr::unchecked("a"), 5),
            (Addr::unchecked("ab"), 5),
            (Addr::unchecked("b"), 5),
        ],
        query_alarms(&alarms, 6)
    );
}

#[test]
fn alarm_for_the_current_second_is_not_due_yet() {
    let mut alarms = AlarmsMut::new();
    alarms
        .add(Addr::unchecked("addr1"), Timestamp::from_nanos(3_999_999_999))
        .unwrap();
    assert!(query_alarms(&alarms, 3).is_empty());
    assert_eq!(vec![(Addr::unchecked("addr1"), 3)], query_alarms(&alarms, 4));
}

#[test]
fn delivery_queue_takes_alarms_out_and_puts_failed_ones_back() {
    let mut alarms = AlarmsMut::new();
    let addr1 = Addr::unchecked("addr1");
    let addr2 = Addr::unchecked("addr2");
    alarms.add(addr1.clone(), Timestamp::from_seconds(1)).unwrap();
    alarms.add(addr2.clone(), Timestamp::from_seconds(2)).unwrap();

    alarms.out_for_delivery(addr1.clone()).unwrap();
    alarms.out_for_delivery(addr2.clone()).unwrap();
    assert!(alarms.alarms.is_empty());
    assert_eq!(vec![addr1.clone(), addr2.clone()], alarms.in_delivery);

    alarms.last_delivered().unwrap();
    assert_eq!(vec![addr2.clone()], alarms.in_delivery);
    assert!(alarms.alarms.is_empty());

    alarms.last_failed(Timestamp::from_seconds(10)).unwrap();
    assert!(alarms.in_delivery.is_empty());
    assert_eq!(vec![(addr2.clone(), 9)], alarms.alarms);
    assert_eq!(vec![(addr2, 9)], query_alarms(&alarms, 10));

    assert_eq!(
        Err(AlarmError::ReplyOnEmptyAlarmQueue),
        alarms.last_failed(Timestamp::from_seconds(10))
    );
    assert_eq!(Ok(()), alarms.last_delivered());
}

#[test]
fn removing_an_unknown_subscriber_changes_nothing() {
    let mut alarms = AlarmsMut::new();
    alarms
        .add(Addr::unchecked("addr1"), Timestamp::from_seconds(1))
        .unwrap();
    alarms.remove(Addr::unchecked("addr2")).unwrap();
    assert_eq!(vec![(Addr::unchecked("addr1"), 1)], alarms.alarms);
}

#[test]
fn bytes_are_ordered_like_words_in_a_dictionary() {
    assert!(bytes_less(b"", b"a"));
    assert!(bytes_less(b"a", b"ab"));
    assert!(bytes_less(b"ab", b"b"));
    assert!(!bytes_less(b"b", b"ab"));
    assert!(!bytes_less(b"a", b"a"));
    assert!(!bytes_less(b"a", b""));
}

#[test]
fn try_add_invalid_contract_address() {
    let now = Timestamp::from_seconds(0);
    let msg_sender = Addr::unchecked("some address");
    assert!(TimeAlarms::new()
        .try_add(now, msg_sender.clone(), false, Timestamp::from_nanos(8))
        .is_err());

    let result = TimeAlarms::new()
        .try_add(now, msg_sender, false, Timestamp::from_nanos(8))
        .unwrap_err();

    assert_eq!(ContractError::InvalidContractAddress, result);
}

#[test]
fn try_add_valid_contract_address() {
    let now = Timestamp::from_seconds(0);
    let msg_sender = Addr::unchecked("some address");
    assert!(TimeAlarms::new()
        .try_add(now, msg_sender, true, Timestamp::from_nanos(4))
        .is_ok());
}

#[test]
fn try_add_alarm_in_the_past() {
    let now = Timestamp::from_seconds(100);
    let msg_sender = Addr::unchecked("some address");
    let error = TimeAlarms::new()
        .try_add(now, msg_sender, true, Timestamp::from_nanos(4))
        .unwrap_err();
    assert_eq!(ContractError::InvalidAlarm(Timestamp::from_nanos(4)), error);
}

#[test]
fn notify_tells_the_due_subscribers_up_to_the_limit() {
    let mut service = TimeAlarms::new();
    let now = Timestamp::from_seconds(0);
    for (name, at) in [("addr3", 3), ("addr1", 1), ("addr2", 2), ("addr9", 9)] {
        service
            .try_add(now, Addr::unchecked(name), true, Timestamp::from_seconds(at))
            .unwrap();
    }
    let dispatch = |name: &str| Msg::DispatchTimeAlarm {
        subscriber: Addr::unchecked(name),
        reply_id: 0,
    };

    let (sent, batch) = service.try_notify(Timestamp::from_seconds(5), 10).unwrap();
    assert_eq!(3, sent);
    assert_eq!(
        vec![dispatch("addr1"), dispatch("addr2"), dispatch("addr3")],
        batch.msgs
    );

    let (sent, batch) = service.try_notify(Timestamp::from_seconds(5), 2).unwrap();
    assert_eq!(2, sent);
    assert_eq!(vec![dispatch("addr1"), dispatch("addr2")], batch.msgs);

    let (sent, batch) = service.try_notify(Timestamp::from_seconds(1), 2).unwrap();
    assert_eq!(0, sent);
    assert!(batch.is_empty());

    assert_eq!(
        Ok(AlarmsStatusResponse {
            remaining_alarms: true
        }),
        service.try_any_alarm(Timestamp::from_seconds(2))
    );
    assert_eq!(
        Ok(AlarmsStatusResponse {
            remaining_alarms: false
        }),
        service.try_any_alarm(Timestamp::from_seconds(1))
    );

    service.remove(Addr::unchecked("addr1")).unwrap();
    assert_eq!(
        Ok(AlarmsStatusResponse {
            remaining_alarms: false
        }),
        service.try_any_alarm(Timestamp::from_seconds(2))
    );
}
