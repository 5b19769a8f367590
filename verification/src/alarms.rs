//! The alarms of the alarm service: at most one per subscriber, kept in the
//! order they fall due, and the queue of the subscribers whose alarms are
//! out for delivery.
use vstd::prelude::*;
use crate::address::Addr;
use crate::msg_data::bytes_eq;
use crate::timestamp::Timestamp;

verus! {

/// The integer the time of an alarm is counted in: whole seconds.
pub type TimeSeconds = u64;

/// Why the alarm service fails a request.
#[derive(Clone, Copy, PartialEq, Eq, Structural, Debug)]
pub enum AlarmError {
    /// A delivery was reported though none is out.
    ReplyOnEmptyAlarmQueue,
}

/// Whether `left` comes before `right` when bytes are compared one by one
/// and a run of bytes comes after each of its beginnings.
pub open spec fn bytes_lt(left: Seq<u8>, right: Seq<u8>) -> bool
    decreases left.len(),
{
    if right.len() == 0 {
        false
    } else if left.len() == 0 {
        true
    } else if left[0] != right[0] {
        left[0] < right[0]
    } else {
        bytes_lt(left.skip(1), right.skip(1))
    }
}

/// What comes before something that comes before a third comes before the
/// third.
pub proof fn lemma_bytes_lt_transitive(first: Seq<u8>, second: Seq<u8>, third: Seq<u8>)
    requires
        bytes_lt(first, second),
        bytes_lt(second, third),
    ensures
        bytes_lt(first, third),
    decreases first.len(),
{
    if first.len() > 0 && first[0] == second[0] && second[0] == third[0] {
        lemma_bytes_lt_transitive(first.skip(1), second.skip(1), third.skip(1));
    }
}

/// Of two different runs of bytes one comes before the other.
pub proof fn lemma_bytes_lt_total(left: Seq<u8>, right: Seq<u8>)
    ensures
        bytes_lt(left, right) || bytes_lt(right, left) || left == right,
    decreases left.len(),
{
    if left.len() > 0 && right.len() > 0 && left[0] == right[0] {
        lemma_bytes_lt_total(left.skip(1), right.skip(1));
        if left.skip(1) == right.skip(1) {
            assert(left =~= seq![left[0]] + left.skip(1));
            assert(right =~= seq![right[0]] + right.skip(1));
        }
    } else if left.len() == 0 && right.len() == 0 {
        assert(left =~= right);
    }
}

/// Whether `left` comes before `right`.
pub fn bytes_less(left: &[u8], right: &[u8]) -> (res: bool)
    ensures
        res == bytes_lt(left@, right@),
{
    let mut index: usize = 0;
    assert(left@.skip(0) =~= left@);
    assert(right@.skip(0) =~= right@);
    while index < left.len() && index < right.len()
        invariant
            index <= left@.len(),
            index <= right@.len(),
            bytes_lt(left@, right@) == bytes_lt(left@.skip(index as int), right@.skip(index as int)),
        decreases left@.len() - index,
    {
        proof {
            assert(left@.skip(index as int)[0] == left@[index as int]);
            assert(right@.skip(index as int)[0] == right@[index as int]);
            assert(left@.skip(index as int).skip(1) =~= left@.skip(index as int + 1));
            assert(right@.skip(index as int).skip(1) =~= right@.skip(index as int + 1));
        }
        if left[index] != right[index] {
            return left[index] < right[index];
        }
        index = index + 1;
    }
    index < right.len()
}

/// Whether the alarm `left` falls due before the alarm `right`: by time,
/// and at the same time by the subscriber's address.
pub open spec fn alarm_lt(left: (Addr, TimeSeconds), right: (Addr, TimeSeconds)) -> bool {
    left.1 < right.1 || (left.1 == right.1 && bytes_lt(left.0.spec_bytes(), right.0.spec_bytes()))
}

/// Whether `alarms` are in the order they fall due, none at the place of
/// another.
pub open spec fn spec_sorted(alarms: Seq<(Addr, TimeSeconds)>) -> bool {
    forall|i: int, j: int|
        0 <= i < j < alarms.len() ==> alarm_lt(#[trigger] alarms[i], #[trigger] alarms[j])
}

/// Whether no subscriber has two of `alarms`.
pub open spec fn spec_unique(alarms: Seq<(Addr, TimeSeconds)>) -> bool {
    forall|i: int, j: int|
        0 <= i < j < alarms.len() ==> (#[trigger] alarms[i]).0.spec_bytes() != (
        #[trigger] alarms[j]).0.spec_bytes()
}

/// Whether the subscriber written `subscriber` has an alarm at `time` among
/// `alarms`.
pub open spec fn spec_has(alarms: Seq<(Addr, TimeSeconds)>, subscriber: Seq<u8>, time: TimeSeconds)
    -> bool {
    exists|i: int|
        0 <= i < alarms.len() && (#[trigger] alarms[i]).0.spec_bytes() == subscriber && alarms[i].1
            == time
}

/// Whether the subscriber written `subscriber` has an alarm among `alarms`.
pub open spec fn spec_subscribed(alarms: Seq<(Addr, TimeSeconds)>, subscriber: Seq<u8>) -> bool {
    exists|i: int| 0 <= i < alarms.len() && (#[trigger] alarms[i]).0.spec_bytes() == subscriber
}

/// Whether the subscriber written `subscriber` is among `in_delivery`.
pub open spec fn spec_queued(in_delivery: Seq<Addr>, subscriber: Seq<u8>) -> bool {
    exists|i: int| 0 <= i < in_delivery.len() && (#[trigger] in_delivery[i]).spec_bytes() == subscriber
}

/// Whether no subscriber of `alarms` is among `in_delivery`.
pub open spec fn spec_disjoint(alarms: Seq<(Addr, TimeSeconds)>, in_delivery: Seq<Addr>) -> bool {
    forall|i: int|
        0 <= i < alarms.len() ==> !spec_queued(in_delivery, (#[trigger] alarms[i]).0.spec_bytes())
}

/// Alarms share no subscriber with the queue after a change if they shared
/// none before it, if every alarm after the change is the alarm of `added`
/// or was there before, if whoever joined the queue has no alarm after the
/// change, and if `added` has no alarm after the change or is not in the
/// queue.
pub proof fn lemma_disjoint_kept(
    before: Seq<(Addr, TimeSeconds)>,
    after: Seq<(Addr, TimeSeconds)>,
    queue_before: Seq<Addr>,
    queue_after: Seq<Addr>,
    added: Seq<u8>,
)
    requires
        spec_disjoint(before, queue_before),
        forall|other: Seq<u8>, at: TimeSeconds| #[trigger]
            spec_has(after, other, at) ==> other == added || spec_has(before, other, at),
        forall|other: Seq<u8>| #[trigger]
            spec_queued(queue_after, other) ==> spec_queued(queue_before, other)
                || !spec_subscribed(after, other),
        spec_subscribed(after, added) ==> !spec_queued(queue_after, added),
    ensures
        spec_disjoint(after, queue_after),
{
    assert forall|i: int| 0 <= i < after.len() implies !spec_queued(
        queue_after,
        (#[trigger] after[i]).0.spec_bytes(),
    ) by {
        let key = after[i].0.spec_bytes();
        assert(spec_has(after, key, after[i].1));
        assert(spec_subscribed(after, key));
        if key != added && spec_queued(queue_after, key) {
            let j = choose|j: int|
                0 <= j < before.len() && (#[trigger] before[j]).0.spec_bytes() == key
                    && before[j].1 == after[i].1;
            assert(!spec_queued(queue_before, before[j].0.spec_bytes()));
        }
    }
}

/// Whether an alarm is due at `ctime`, counted in seconds: its time has
/// passed. An alarm set for the very second of `ctime` is not due yet.
pub open spec fn spec_due(alarm: (Addr, TimeSeconds), ctime: TimeSeconds) -> bool {
    alarm.1 < ctime || (alarm.1 == ctime && alarm.0.spec_bytes().len() == 0)
}

/// The time in whole seconds.
pub fn as_seconds(from: Timestamp) -> (res: TimeSeconds)
    ensures
        res == from.nanos / 1_000_000_000,
{
    from.seconds()
}

/// The alarms that are set and the subscribers whose alarms are out for
/// delivery, the one that went out first in front.
#[derive(PartialEq, Eq, Debug)]
pub struct AlarmsMut {
    pub alarms: Vec<(Addr, TimeSeconds)>,
    pub in_delivery: Vec<Addr>,
}

/// A look at the alarms that are set.
pub struct Alarms<'r> {
    pub alarms: &'r Vec<(Addr, TimeSeconds)>,
}

impl<'r> Alarms<'r> {
    /// The alarms that are due at `ctime`, in the order they fall due.
    pub fn alarms_selection(&self, ctime: Timestamp) -> (res: Vec<(Addr, TimeSeconds)>)
        requires
            spec_sorted(self.alarms@),
        ensures
            res@ == self.alarms@.take(res@.len() as int),
            res@.len() <= self.alarms@.len(),
            forall|i: int|
                0 <= i < self.alarms@.len() ==> (spec_due(
                    #[trigger] self.alarms@[i],
                    (ctime.nanos / 1_000_000_000) as u64,
                ) <==> i < res@.len()),
    {
        let bound: TimeSeconds = as_seconds(ctime);
        let mut selection: Vec<(Addr, TimeSeconds)> = Vec::new();
        let mut index: usize = 0;
        assert(self.alarms@.take(0) =~= Seq::<(Addr, TimeSeconds)>::empty());
        while index < self.alarms.len()
            invariant
                index <= self.alarms@.len(),
                spec_sorted(self.alarms@),
                bound == (ctime.nanos / 1_000_000_000) as u64,
                selection@ == self.alarms@.take(index as int),
                forall|i: int| 0 <= i < index ==> spec_due(#[trigger] self.alarms@[i], bound),
            decreases self.alarms@.len() - index,
        {
            let time: TimeSeconds = self.alarms[index].1;
            let due: bool = time < bound || (time == bound && self.alarms[index].0.as_bytes().len()
                == 0);
            if !due {
                proof {
                    assert forall|i: int| index <= i < self.alarms@.len() implies !spec_due(
                        #[trigger] self.alarms@[i],
                        bound,
                    ) by {
                        if i > index {
                            assert(alarm_lt(self.alarms@[index as int], self.alarms@[i]));
                        }
                    }
                }
                return selection;
            }
            selection.push((self.alarms[index].0.clone(), time));
            assert(selection@ =~= self.alarms@.take(index as int + 1));
            index = index + 1;
        }
        selection
    }
}

impl AlarmsMut {
    /// The alarms are in the order they fall due and no subscriber has two.
    pub open spec fn wf(&self) -> bool {
        &&& spec_sorted(self.alarms@)
        &&& spec_unique(self.alarms@)
    }

    /// No alarm is set and none is out for delivery.
    pub fn new() -> (res: Self)
        ensures
            res.alarms@ == Seq::<(Addr, TimeSeconds)>::empty(),
            res.in_delivery@ == Seq::<Addr>::empty(),
            res.wf(),
    {
        AlarmsMut { alarms: Vec::new(), in_delivery: Vec::new() }
    }

    /// A look at the alarms that are set.
    pub fn as_alarms<'r>(&'r self) -> (res: Alarms<'r>)
        ensures
            res.alarms == &self.alarms,
    {
        Alarms { alarms: &self.alarms }
    }

    /// Sets the alarm of `subscriber` to the second of `time`; an alarm the
    /// subscriber had is replaced.
    pub fn add(&mut self, subscriber: Addr, time: Timestamp) -> (res: Result<(), AlarmError>)
        requires
            old(self).wf(),
        ensures
            res.is_ok(),
            final(self).wf(),
            final(self).in_delivery == old(self).in_delivery,
            spec_disjoint(old(self).alarms@, old(self).in_delivery@) && !spec_queued(
                old(self).in_delivery@,
                subscriber.spec_bytes(),
            ) ==> spec_disjoint(final(self).alarms@, final(self).in_delivery@),
            forall|other: Seq<u8>, at: TimeSeconds|
                #[trigger] spec_has(final(self).alarms@, other, at) <==> (other
                    == subscriber.spec_bytes() && at == time.nanos / 1_000_000_000) || (other
                    != subscriber.spec_bytes() && spec_has(old(self).alarms@, other, at)),
    {
        let ghost key = subscriber.spec_bytes();
        self.add_internal(subscriber, as_seconds(time));
        proof {
            if spec_disjoint(old(self).alarms@, old(self).in_delivery@) && !spec_queued(
                old(self).in_delivery@,
                key,
            ) {
                assert(!spec_queued(self.in_delivery@, key));
                lemma_disjoint_kept(
                    old(self).alarms@,
                    self.alarms@,
                    old(self).in_delivery@,
                    self.in_delivery@,
                    key,
                );
            }
        }
        Ok(())
    }

    /// Removes the alarm of `subscriber`, if it has one.
    pub fn remove(&mut self, subscriber: Addr) -> (res: Result<(), AlarmError>)
        requires
            old(self).wf(),
        ensures
            res.is_ok(),
            final(self).wf(),
            final(self).in_delivery == old(self).in_delivery,
            spec_disjoint(old(self).alarms@, old(self).in_delivery@) ==> spec_disjoint(
                final(self).alarms@,
                final(self).in_delivery@,
            ),
            forall|other: Seq<u8>, at: TimeSeconds|
                #[trigger] spec_has(final(self).alarms@, other, at) <==> (other
                    != subscriber.spec_bytes() && spec_has(old(self).alarms@, other, at)),
    {
        self.remove_internal(&subscriber);
        proof {
            if spec_disjoint(old(self).alarms@, old(self).in_delivery@) {
                lemma_disjoint_kept(
                    old(self).alarms@,
                    self.alarms@,
                    old(self).in_delivery@,
                    self.in_delivery@,
                    subscriber.spec_bytes(),
                );
            }
        }
        Ok(())
    }

    /// Takes the alarm of `subscriber` out for delivery: it is no longer
    /// set, and the subscriber joins the queue at its end.
    pub fn out_for_delivery(&mut self, subscriber: Addr) -> (res: Result<(), AlarmError>)
        requires
            old(self).wf(),
        ensures
            res.is_ok(),
            final(self).wf(),
            final(self).in_delivery@ == old(self).in_delivery@.push(subscriber),
            !spec_subscribed(final(self).alarms@, subscriber.spec_bytes()),
            spec_disjoint(old(self).alarms@, old(self).in_delivery@) ==> spec_disjoint(
                final(self).alarms@,
                final(self).in_delivery@,
            ),
            forall|other: Seq<u8>, at: TimeSeconds|
                #[trigger] spec_has(final(self).alarms@, other, at) <==> (other
                    != subscriber.spec_bytes() && spec_has(old(self).alarms@, other, at)),
    {
        self.remove_internal(&subscriber);
        self.in_delivery.push(subscriber);
        proof {
            if spec_disjoint(old(self).alarms@, old(self).in_delivery@) {
                assert forall|other: Seq<u8>| #[trigger]
                    spec_queued(self.in_delivery@, other) implies spec_queued(
                    old(self).in_delivery@,
                    other,
                ) || !spec_subscribed(self.alarms@, other) by {
                    let i = choose|i: int|
                        0 <= i < self.in_delivery@.len() && (
                        #[trigger] self.in_delivery@[i]).spec_bytes() == other;
                    if i < old(self).in_delivery@.len() {
                        assert(old(self).in_delivery@[i].spec_bytes() == other);
                    }
                }
                lemma_disjoint_kept(
                    old(self).alarms@,
                    self.alarms@,
                    old(self).in_delivery@,
                    self.in_delivery@,
                    subscriber.spec_bytes(),
                );
            }
        }
        Ok(())
    }

    /// Takes note that the delivery at the front of the queue was made: the
    /// subscriber leaves the queue. With nothing out for delivery nothing
    /// changes.
    pub fn last_delivered(&mut self) -> (res: Result<(), AlarmError>)
        ensures
            res.is_ok(),
            final(self).alarms == old(self).alarms,
            old(self).in_delivery@.len() > 0 ==> final(self).in_delivery@ == old(
                self,
            ).in_delivery@.skip(1),
            old(self).in_delivery@.len() == 0 ==> final(self).in_delivery == old(self).in_delivery,
            spec_disjoint(old(self).alarms@, old(self).in_delivery@) ==> spec_disjoint(
                final(self).alarms@,
                final(self).in_delivery@,
            ),
    {
        if self.in_delivery.len() > 0 {
            let _delivered: Addr = self.in_delivery.remove(0);
            assert(old(self).in_delivery@.remove(0) =~= old(self).in_delivery@.skip(1));
            proof {
                assert forall|other: Seq<u8>| #[trigger]
                    spec_queued(self.in_delivery@, other) implies spec_queued(
                    old(self).in_delivery@,
                    other,
                ) by {
                    let i = choose|i: int|
                        0 <= i < self.in_delivery@.len() && (
                        #[trigger] self.in_delivery@[i]).spec_bytes() == other;
                    assert(old(self).in_delivery@[i + 1].spec_bytes() == other);
                }
                if spec_disjoint(old(self).alarms@, old(self).in_delivery@) {
                    assert forall|i: int| 0 <= i < self.alarms@.len() implies !spec_queued(
                        self.in_delivery@,
                        (#[trigger] self.alarms@[i]).0.spec_bytes(),
                    ) by {
                        assert(!spec_queued(
                            old(self).in_delivery@,
                            old(self).alarms@[i].0.spec_bytes(),
                        ));
                    }
                }
            }
        }
        Ok(())
    }

    /// Takes note that the delivery at the front of the queue failed: the
    /// subscriber leaves the queue and its alarm is set again, for the
    /// second before `now`, so that it is due at once. Fails if nothing is
    /// out for delivery.
    pub fn last_failed(&mut self, now: Timestamp) -> (res: Result<(), AlarmError>)
        requires
            old(self).wf(),
            now.nanos >= 1_000_000_000,
        ensures
            final(self).wf(),
            old(self).in_delivery@.len() == 0 ==> res == Err::<(), AlarmError>(
                AlarmError::ReplyOnEmptyAlarmQueue,
            ) && *final(self) == *old(self),
            old(self).in_delivery@.len() > 0 ==> res.is_ok() && final(self).in_delivery@ == old(
                self,
            ).in_delivery@.skip(1) && (forall|other: Seq<u8>, at: TimeSeconds|
                #[trigger] spec_has(final(self).alarms@, other, at) <==> (other == old(
                    self,
                ).in_delivery@[0].spec_bytes() && at == now.nanos / 1_000_000_000 - 1) || (other
                    != old(self).in_delivery@[0].spec_bytes() && spec_has(
                    old(self).alarms@,
                    other,
                    at,
                ))),
            spec_disjoint(old(self).alarms@, old(self).in_delivery@) && old(self).in_delivery@.len()
                > 0 && !spec_queued(
                old(self).in_delivery@.skip(1),
                old(self).in_delivery@[0].spec_bytes(),
            ) ==> spec_disjoint(final(self).alarms@, final(self).in_delivery@),
    {
        if self.in_delivery.len() == 0 {
            return Err(AlarmError::ReplyOnEmptyAlarmQueue);
        }
        let subscriber: Addr = self.in_delivery.remove(0);
        assert(old(self).in_delivery@.remove(0) =~= old(self).in_delivery@.skip(1));
        let ghost key = subscriber.spec_bytes();
        self.add_internal(subscriber, as_seconds(now) - 1);
        proof {
            if spec_disjoint(old(self).alarms@, old(self).in_delivery@) && !spec_queued(
                old(self).in_delivery@.skip(1),
                key,
            ) {
                assert forall|other: Seq<u8>| #[trigger]
                    spec_queued(self.in_delivery@, other) implies spec_queued(
                    old(self).in_delivery@,
                    other,
                ) by {
                    let i = choose|i: int|
                        0 <= i < self.in_delivery@.len() && (
                        #[trigger] self.in_delivery@[i]).spec_bytes() == other;
                    assert(old(self).in_delivery@[i + 1].spec_bytes() == other);
                }
                lemma_disjoint_kept(
                    old(self).alarms@,
                    self.alarms@,
                    old(self).in_delivery@,
                    self.in_delivery@,
                    key,
                );
            }
        }
        Ok(())
    }

    fn remove_internal(&mut self, subscriber: &Addr)
        requires
            old(self).wf(),
        ensures
            final(self).wf(),
            final(self).in_delivery == old(self).in_delivery,
            !spec_subscribed(final(self).alarms@, subscriber.spec_bytes()),
            forall|other: Seq<u8>, at: TimeSeconds|
                #[trigger] spec_has(final(self).alarms@, other, at) <==> (other
                    != subscriber.spec_bytes() && spec_has(old(self).alarms@, other, at)),
    {
        let mut index: usize = 0;
        while index < self.alarms.len()
            invariant
                *self == *old(self),
                self.wf(),
                index <= self.alarms@.len(),
                forall|i: int|
                    0 <= i < index ==> (#[trigger] self.alarms@[i]).0.spec_bytes()
                        != subscriber.spec_bytes(),
            decreases self.alarms@.len() - index,
        {
            if bytes_eq(self.alarms[index].0.as_bytes(), subscriber.as_bytes()) {
                let ghost before = self.alarms@;
                let _removed: (Addr, TimeSeconds) = self.alarms.remove(index);
                proof {
                    let after = self.alarms@;
                    let at_index = index as int;
                    assert forall|i: int| 0 <= i < after.len() implies #[trigger] after[i] == before[if i
                        < at_index {
                        i
                    } else {
                        i + 1
                    }] by {}
                    assert forall|i: int, j: int| 0 <= i < j < after.len() implies alarm_lt(
                        #[trigger] after[i],
                        #[trigger] after[j],
                    ) by {
                        let from = if i < at_index { i } else { i + 1 };
                        let to = if j < at_index { j } else { j + 1 };
                        assert(alarm_lt(before[from], before[to]));
                    }
                    assert forall|i: int, j: int| 0 <= i < j < after.len() implies (
                    #[trigger] after[i]).0.spec_bytes() != (#[trigger] after[j]).0.spec_bytes() by {
                        let from = if i < at_index { i } else { i + 1 };
                        let to = if j < at_index { j } else { j + 1 };
                        assert(before[from].0.spec_bytes() != before[to].0.spec_bytes());
                    }
                    assert forall|i: int| 0 <= i < after.len() implies (
                    #[trigger] after[i]).0.spec_bytes() != subscriber.spec_bytes() by {
                        let from = if i < at_index { i } else { i + 1 };
                        if from < at_index {
                            assert(before[from].0.spec_bytes() != before[at_index].0.spec_bytes());
                        } else {
                            assert(before[at_index].0.spec_bytes() != before[from].0.spec_bytes());
                        }
                    }
                    assert forall|other: Seq<u8>, at: TimeSeconds| #[trigger] spec_has(
                        after,
                        other,
                        at,
                    ) <==> (other != subscriber.spec_bytes() && spec_has(before, other, at)) by {
                        if spec_has(after, other, at) {
                            let i = choose|i: int|
                                0 <= i < after.len() && (#[trigger] after[i]).0.spec_bytes()
                                    == other && after[i].1 == at;
                            let from = if i < at_index { i } else { i + 1 };
                            assert(before[from].0.spec_bytes() == other && before[from].1 == at);
                        }
                        if other != subscriber.spec_bytes() && spec_has(before, other, at) {
                            let from = choose|i: int|
                                0 <= i < before.len() && (#[trigger] before[i]).0.spec_bytes()
                                    == other && before[i].1 == at;
                            let i = if from < at_index { from } else { from - 1 };
                            assert(after[i].0.spec_bytes() == other && after[i].1 == at);
                        }
                    }
                }
                return ;
            }
            index = index + 1;
        }
    }

    fn add_internal(&mut self, subscriber: Addr, time: TimeSeconds)
        requires
            old(self).wf(),
        ensures
            final(self).wf(),
            final(self).in_delivery == old(self).in_delivery,
            forall|other: Seq<u8>, at: TimeSeconds|
                #[trigger] spec_has(final(self).alarms@, other, at) <==> (other
                    == subscriber.spec_bytes() && at == time) || (other != subscriber.spec_bytes()
                    && spec_has(old(self).alarms@, other, at)),
    {
        self.remove_internal(&subscriber);
        let ghost before = self.alarms@;
        let ghost alarm = (subscriber, time);
        let mut index: usize = 0;
        let mut found: bool = false;
        while index < self.alarms.len() && !found
            invariant
                self.alarms@ == before,
                self.in_delivery == old(self).in_delivery,
                self.wf(),
                alarm == (subscriber, time),
                index <= self.alarms@.len(),
                !spec_subscribed(before, subscriber.spec_bytes()),
                found ==> index < before.len() && alarm_lt(alarm, before[index as int]),
                forall|i: int| 0 <= i < index ==> alarm_lt(#[trigger] before[i], alarm),
            decreases self.alarms@.len() - index + (if found { 0int } else { 1int }),
        {
            let at: TimeSeconds = self.alarms[index].1;
            let before_it: bool = time < at || (time == at && bytes_less(
                subscriber.as_bytes(),
                self.alarms[index].0.as_bytes(),
            ));
            if before_it {
                found = true;
            } else {
                proof {
                    lemma_bytes_lt_total(
                        subscriber.spec_bytes(),
                        before[index as int].0.spec_bytes(),
                    );
                    assert(before[index as int].0.spec_bytes() != subscriber.spec_bytes());
                }
                index = index + 1;
            }
        }
        self.alarms.insert(index, (subscriber, time));
        proof {
            let after = self.alarms@;
            let at_index = index as int;
            assert(after[at_index] == alarm);
            assert forall|i: int| 0 <= i < after.len() && i != at_index implies #[trigger] after[i]
                == before[if i < at_index {
                i
            } else {
                i - 1
            }] by {}
            assert forall|i: int| at_index <= i < before.len() implies alarm_lt(
                alarm,
                #[trigger] before[i],
            ) by {
                assert(found);
                assert(alarm_lt(alarm, before[at_index]));
                if i > at_index {
                    assert(alarm_lt(before[at_index], before[i]));
                    if alarm.1 == before[at_index].1 && before[at_index].1 == before[i].1 {
                        lemma_bytes_lt_transitive(
                            alarm.0.spec_bytes(),
                            before[at_index].0.spec_bytes(),
                            before[i].0.spec_bytes(),
                        );
                    }
                }
            }
            assert forall|i: int, j: int| 0 <= i < j < after.len() implies alarm_lt(
                #[trigger] after[i],
                #[trigger] after[j],
            ) by {
                if i == at_index {
                    assert(alarm_lt(alarm, before[j - 1]));
                } else if j == at_index {
                    assert(alarm_lt(before[i], alarm));
                } else {
                    let from = if i < at_index { i } else { i - 1 };
                    let to = if j < at_index { j } else { j - 1 };
                    assert(alarm_lt(before[from], before[to]));
                }
            }
            assert forall|i: int, j: int| 0 <= i < j < after.len() implies (
            #[trigger] after[i]).0.spec_bytes() != (#[trigger] after[j]).0.spec_bytes() by {
                assert(!spec_subscribed(before, subscriber.spec_bytes()));
                if i == at_index {
                    assert(before[j - 1].0.spec_bytes() != subscriber.spec_bytes());
                } else if j == at_index {
                    assert(before[i].0.spec_bytes() != subscriber.spec_bytes());
                } else {
                    let from = if i < at_index { i } else { i - 1 };
                    let to = if j < at_index { j } else { j - 1 };
                    assert(before[from].0.spec_bytes() != before[to].0.spec_bytes());
                }
            }
            assert forall|other: Seq<u8>, at: TimeSeconds| #[trigger] spec_has(after, other, at) <==> (
            other == subscriber.spec_bytes() && at == time) || (other != subscriber.spec_bytes()
                && spec_has(before, other, at)) by {
                if spec_has(after, other, at) {
                    let i = choose|i: int|
                        0 <= i < after.len() && (#[trigger] after[i]).0.spec_bytes() == other
                            && after[i].1 == at;
                    if i != at_index {
                        let from = if i < at_index { i } else { i - 1 };
                        assert(before[from].0.spec_bytes() == other && before[from].1 == at);
                        assert(!spec_subscribed(before, subscriber.spec_bytes()));
                    }
                }
                if other == subscriber.spec_bytes() && at == time {
                    assert(after[at_index].0.spec_bytes() == other && after[at_index].1 == at);
                }
                if other != subscriber.spec_bytes() && spec_has(before, other, at) {
                    let from = choose|i: int|
                        0 <= i < before.len() && (#[trigger] before[i]).0.spec_bytes() == other
                            && before[i].1 == at;
                    let i = if from < at_index { from } else { from + 1 };
                    assert(after[i].0.spec_bytes() == other && after[i].1 == at);
                }
            }
        }
    }
}

} // verus!
