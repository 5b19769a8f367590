use cosmwasm_std::testing::MockStorage;
use cosmwasm_std::{Addr as CwAddr, Order, Storage, Timestamp as CwTimestamp};
use cw_storage_plus::{Bound, Deque, Index, IndexList, IndexedMap, MultiIndex};

use lease_core::address::Addr;
use lease_core::alarms::AlarmsMut;
use lease_core::timestamp::Timestamp;

type TimeSeconds = u64;

struct AlarmIndexes<'a> {
    alarms: MultiIndex<'a, TimeSeconds, TimeSeconds, CwAddr>,
}

impl<'a> IndexList<TimeSeconds> for AlarmIndexes<'a> {
    fn get_indexes(&self) -> Box<dyn Iterator<Item = &'_ dyn Index<TimeSeconds>> + '_> {
        let v: Vec<&dyn Index<TimeSeconds>> = vec![&self.alarms];

        Box::new(v.into_iter())
    }
}

/// The alarms kept in the storage of a contract.
struct Stored<'a> {
    storage: MockStorage,
    alarms: IndexedMap<'a, CwAddr, TimeSeconds, AlarmIndexes<'a>>,
    in_delivery: Deque<'a, CwAddr>,
}

impl<'a> Stored<'a> {
    fn new() -> Self {
        let indexes = AlarmIndexes {
            alarms: MultiIndex::new(|_, d| *d, "alarms", "alarms_idx"),
        };
        Self {
            storage: MockStorage::new(),
            alarms: IndexedMap::new("alarms", indexes),
            in_delivery: Deque::new("in_delivery"),
        }
    }

    fn add(&mut self, subscriber: &str, time: CwTimestamp) {
        self.alarms
            .save(&mut self.storage, CwAddr::unchecked(subscriber), &time.seconds())
            .unwrap();
    }

    fn remove(&mut self, subscriber: &str) {
        self.alarms
            .remove(&mut self.storage, CwAddr::unchecked(subscriber))
            .unwrap();
    }

    fn out_for_delivery(&mut self, subscriber: &str) {
        self.remove(subscriber);
        self.in_delivery
            .push_back(&mut self.storage, &CwAddr::unchecked(subscriber))
            .unwrap();
    }

    fn last_delivered(&mut self) {
        self.in_delivery.pop_front(&mut self.storage).unwrap();
    }

    fn last_failed(&mut self, now: CwTimestamp) -> bool {
        match self.in_delivery.pop_front(&mut self.storage).unwrap() {
            None => false,
            Some(subscriber) => {
                self.alarms
                    .save(&mut self.storage, subscriber, &(now.seconds() - 1))
                    .unwrap();
                true
            }
        }
    }

    fn selection(&self, ctime: CwTimestamp) -> Vec<(String, TimeSeconds)> {
        let storage: &dyn Storage = &self.storage;
        self.alarms
            .idx
            .alarms
            .range(
                storage,
                None,
                Some(Bound::inclusive((ctime.seconds(), CwAddr::unchecked("")))),
                Order::Ascending,
            )
            .map(|alarm| alarm.map(|(subscriber, time)| (subscriber.into_string(), time)))
            .collect::<Result<_, _>>()
            .unwrap()
    }

    fn queue(&self) -> Vec<String> {
        self.in_delivery
            .iter(&self.storage)
            .unwrap()
            .map(|subscriber| subscriber.unwrap().into_string())
            .collect()
    }
}

struct Numbers(u64);

impl Numbers {
    fn below(&mut self, bound: u64) -> u64 {
        self.0 = self
            .0
            .wrapping_mul(6364136223846793005)
            .wrapping_add(1442695040888963407);
        (self.0 >> 33) % bound
    }
}

const SUBSCRIBERS: [&str; 8] = ["a", "ab", "b", "ba", "addr1", "addr10", "addr2", "z"];

fn selection(alarms: &AlarmsMut, ctime: Timestamp) -> Vec<(String, TimeSeconds)> {
    alarms
        .as_alarms()
        .alarms_selection(ctime)
        .into_iter()
        .map(|(subscriber, time)| (String::from(subscriber.as_str()), time))
        .collect()
}

#[test]
fn alarms_behave_as_the_stored_ones() {
    let mut numbers = Numbers(3);
    for _ in 0..40 {
        let mut stored = Stored::new();
        let mut ours = AlarmsMut::new();
        for _ in 0..60 {
            let subscriber = SUBSCRIBERS[numbers.below(8) as usize];
            let nanos = 1_000_000_000 + numbers.below(12_000_000_000);
            match numbers.below(8) {
                0..=3 => {
                    stored.add(subscriber, CwTimestamp::from_nanos(nanos));
                    ours.add(Addr::unchecked(subscriber), Timestamp::from_nanos(nanos))
                        .unwrap();
                }
                4 => {
                    stored.remove(subscriber);
                    ours.remove(Addr::unchecked(subscriber)).unwrap();
                }
                5 => {
                    stored.out_for_delivery(subscriber);
                    ours.out_for_delivery(Addr::unchecked(subscriber)).unwrap();
                }
                6 => {
                    stored.last_delivered();
                    ours.last_delivered().unwrap();
                }
                _ => {
                    let done = stored.last_failed(CwTimestamp::from_nanos(nanos));
                    assert_eq!(
                        done,
                        ours.last_failed(Timestamp::from_nanos(nanos)).is_ok()
                    );
                }
            }
            for second in [0, 1, 5, 9, 13, 20] {
                assert_eq!(
                    stored.selection(CwTimestamp::from_seconds(second)),
                    selection(&ours, Timestamp::from_seconds(second))
                );
            }
            assert_eq!(
                stored.queue(),
                ours.in_delivery
                    .iter()
                    .map(|subscriber| String::from(subscriber.as_str()))
                    .collect::<Vec<_>>()
            );
        }
    }
}

#[test]
fn alarm_of_the_very_second_is_not_among_the_stored_due_ones() {
    let mut stored = Stored::new();
    stored.add("addr1", CwTimestamp::from_seconds(3));
    assert!(stored.selection(CwTimestamp::from_seconds(3)).is_empty());
    assert_eq!(
        vec![(String::from("addr1"), 3)],
        stored.selection(CwTimestamp::from_seconds(4))
    );
}
