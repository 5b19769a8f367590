//! The alarm service: subscribers ask to be told when a point in time has
//! come, and the service tells those whose time has come.
use vstd::prelude::*;
use crate::address::Addr;
use crate::alarms::{spec_due, spec_has, AlarmError, AlarmsMut, TimeSeconds};
use crate::batch::{Batch, Msg};
use crate::timestamp::Timestamp;

verus! {

/// The integer alarms are counted in.
pub type AlarmsCount = u32;

/// The number by which the runtime's report on a dispatched alarm is known.
pub const REPLY_ID: u64 = 0;

/// Why the service refuses a request.
#[derive(Clone, Copy, PartialEq, Eq, Structural, Debug)]
pub enum ContractError {
    /// The alarm is asked for a time that has passed.
    InvalidAlarm(Timestamp),
    /// The subscriber is not a contract.
    InvalidContractAddress,
    /// The alarms could not be updated.
    Alarms(AlarmError),
}

/// The outcome of a request to the service.
pub type ContractResult<T> = Result<T, ContractError>;

/// Whether alarms are due.
#[derive(Clone, Copy, PartialEq, Eq, Structural, Debug)]
pub struct AlarmsStatusResponse {
    pub remaining_alarms: bool,
}

/// The alarm service.
#[derive(PartialEq, Eq, Debug)]
pub struct TimeAlarms {
    pub time_alarms: AlarmsMut,
}

/// The dispatches that tell the subscribers of `alarms`, in order.
pub open spec fn spec_dispatches(alarms: Seq<(Addr, TimeSeconds)>) -> Seq<Msg> {
    Seq::new(
        alarms.len(),
        |i: int| Msg::DispatchTimeAlarm { subscriber: alarms[i].0, reply_id: REPLY_ID },
    )
}

/// The number of alarms of `alarms` that are due at `ctime`: alarms are in
/// the order they fall due, so those that are due come first.
pub open spec fn spec_due_count(alarms: Seq<(Addr, TimeSeconds)>, ctime: TimeSeconds) -> nat
    decreases alarms.len(),
{
    if alarms.len() == 0 || !spec_due(alarms[0], ctime) {
        0
    } else {
        1 + spec_due_count(alarms.skip(1), ctime)
    }
}

/// If the alarms before the `count`-th are due and the `count`-th, if there
/// is one, is not, then `count` alarms are due.
pub proof fn lemma_due_count(alarms: Seq<(Addr, TimeSeconds)>, ctime: TimeSeconds, count: int)
    requires
        0 <= count <= alarms.len(),
        forall|i: int| 0 <= i < count ==> spec_due(#[trigger] alarms[i], ctime),
        count < alarms.len() ==> !spec_due(alarms[count], ctime),
    ensures
        spec_due_count(alarms, ctime) == count,
    decreases alarms.len(),
{
    if count > 0 {
        assert(spec_due(alarms[0], ctime));
        assert forall|i: int| 0 <= i < count - 1 implies spec_due(
            #[trigger] alarms.skip(1)[i],
            ctime,
        ) by {
            assert(alarms.skip(1)[i] == alarms[i + 1]);
        }
        lemma_due_count(alarms.skip(1), ctime, count - 1);
    }
}

impl TimeAlarms {
    /// The alarms of the service are well-formed.
    pub open spec fn wf(&self) -> bool {
        self.time_alarms.wf()
    }

    /// A service without alarms.
    pub fn new() -> (res: Self)
        ensures
            res.wf(),
            res.time_alarms.alarms@ == Seq::<(Addr, TimeSeconds)>::empty(),
    {
        TimeAlarms { time_alarms: AlarmsMut::new() }
    }

    /// Removes the alarm of `addr`, if it has one.
    pub fn remove(&mut self, addr: Addr) -> (res: Result<(), ContractError>)
        requires
            old(self).wf(),
        ensures
            res.is_ok(),
            final(self).wf(),
            forall|other: Seq<u8>, at: TimeSeconds|
                #[trigger] spec_has(final(self).time_alarms.alarms@, other, at) <==> (other
                    != addr.spec_bytes() && spec_has(old(self).time_alarms.alarms@, other, at)),
    {
        match self.time_alarms.remove(addr) {
            Ok(()) => Ok(()),
            Err(error) => Err(ContractError::Alarms(error)),
        }
    }

    /// Sets the alarm of the subscriber at `address` to `time`. An alarm
    /// for a time before `now` is refused, and so is a subscriber that is
    /// not a contract; a refused request changes nothing.
    pub fn try_add(&mut self, now: Timestamp, address: Addr, is_contract: bool, time: Timestamp)
        -> (res: ContractResult<()>)
        requires
            old(self).wf(),
        ensures
            final(self).wf(),
            time.nanos < now.nanos ==> res == Err::<(), ContractError>(
                ContractError::InvalidAlarm(time),
            ) && *final(self) == *old(self),
            time.nanos >= now.nanos && !is_contract ==> res == Err::<(), ContractError>(
                ContractError::InvalidContractAddress,
            ) && *final(self) == *old(self),
            time.nanos >= now.nanos && is_contract ==> res.is_ok() && (forall|
                other: Seq<u8>,
                at: TimeSeconds,
            |
                #[trigger] spec_has(final(self).time_alarms.alarms@, other, at) <==> (other
                    == address.spec_bytes() && at == time.nanos / 1_000_000_000) || (other
                    != address.spec_bytes() && spec_has(old(self).time_alarms.alarms@, other, at))),
    {
        if time.nanos < now.nanos {
            return Err(ContractError::InvalidAlarm(time));
        }
        if !is_contract {
            return Err(ContractError::InvalidContractAddress);
        }
        match self.time_alarms.add(address, time) {
            Ok(()) => Ok(()),
            Err(error) => Err(ContractError::Alarms(error)),
        }
    }

    /// Tells the subscribers whose alarms are due at `ctime`, the first
    /// `max_count` of them in the order their alarms fall due. Returns the
    /// number of subscribers told and the instructions that tell them.
    pub fn try_notify(&self, ctime: Timestamp, max_count: AlarmsCount) -> (res: ContractResult<
        (AlarmsCount, Batch),
    >)
        requires
            self.wf(),
        ensures
            res.is_ok(),
            res.unwrap().0 == (if spec_due_count(
                self.time_alarms.alarms@,
                (ctime.nanos / 1_000_000_000) as u64,
            ) < max_count {
                spec_due_count(self.time_alarms.alarms@, (ctime.nanos / 1_000_000_000) as u64)
            } else {
                max_count as nat
            }),
            res.unwrap().1@ == spec_dispatches(
                self.time_alarms.alarms@.take(res.unwrap().0 as int),
            ),
    {
        let due: Vec<(Addr, TimeSeconds)> = self.time_alarms.as_alarms().alarms_selection(ctime);
        proof {
            assert forall|i: int| 0 <= i < due@.len() implies spec_due(
                #[trigger] self.time_alarms.alarms@[i],
                (ctime.nanos / 1_000_000_000) as u64,
            ) by {}
            lemma_due_count(
                self.time_alarms.alarms@,
                (ctime.nanos / 1_000_000_000) as u64,
                due@.len() as int,
            );
        }
        let mut batch: Batch = Batch::default();
        let mut sent: AlarmsCount = 0;
        assert(spec_dispatches(self.time_alarms.alarms@.take(0)) =~= Seq::<Msg>::empty());
        while (sent as usize) < due.len() && sent < max_count
            invariant
                sent <= due@.len(),
                sent <= max_count,
                due@ == self.time_alarms.alarms@.take(due@.len() as int),
                due@.len() <= self.time_alarms.alarms@.len(),
                batch@ == spec_dispatches(self.time_alarms.alarms@.take(sent as int)),
            decreases due@.len() - sent,
        {
            batch.schedule_execute_no_reply(
                Msg::DispatchTimeAlarm {
                    subscriber: due[sent as usize].0.clone(),
                    reply_id: REPLY_ID,
                },
            );
            proof {
                assert(due@[sent as int] == self.time_alarms.alarms@[sent as int]);
                assert(spec_dispatches(self.time_alarms.alarms@.take(sent as int + 1)) =~= spec_dispatches(
                    self.time_alarms.alarms@.take(sent as int),
                ).push(
                    Msg::DispatchTimeAlarm {
                        subscriber: self.time_alarms.alarms@[sent as int].0,
                        reply_id: REPLY_ID,
                    },
                ));
            }
            sent = sent + 1;
        }
        Ok((sent, batch))
    }

    /// Whether any alarm is due at `ctime`.
    pub fn try_any_alarm(&self, ctime: Timestamp) -> (res: Result<
        AlarmsStatusResponse,
        ContractError,
    >)
        requires
            self.wf(),
        ensures
            res == Ok::<AlarmsStatusResponse, ContractError>(
                (AlarmsStatusResponse {
                    remaining_alarms: spec_due_count(
                        self.time_alarms.alarms@,
                        (ctime.nanos / 1_000_000_000) as u64,
                    ) > 0,
                }),
            ),
    {
        let due: Vec<(Addr, TimeSeconds)> = self.time_alarms.as_alarms().alarms_selection(ctime);
        proof {
            assert forall|i: int| 0 <= i < due@.len() implies spec_due(
                #[trigger] self.time_alarms.alarms@[i],
                (ctime.nanos / 1_000_000_000) as u64,
            ) by {}
            lemma_due_count(
                self.time_alarms.alarms@,
                (ctime.nanos / 1_000_000_000) as u64,
                due@.len() as int,
            );
        }
        Ok(AlarmsStatusResponse { remaining_alarms: due.len() > 0 })
    }
}

} // verus!
