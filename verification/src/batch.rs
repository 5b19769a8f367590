//! Instructions for the host runtime. A transition returns them in a batch;
//! the runtime carries them out in the order they were added.
use vstd::prelude::*;
use crate::address::Addr;
use crate::coin::CoinDTO;
use crate::event::Emitter;
use crate::timestamp::Timestamp;
use crate::trx::RemoteMsg;

verus! {

/// What the relayer is paid for carrying a remote transaction.
#[derive(Clone, Copy, PartialEq, Eq, Structural, Debug)]
pub struct IbcFee {
    pub ack_fee: CoinDTO,
    pub timeout_fee: CoinDTO,
}

/// One instruction for the host runtime.
#[derive(Clone, PartialEq, Eq, Debug)]
pub enum Msg {
    /// Ask the alarm service at `time_alarms` for a wake-up at `time`.
    AddTimeAlarm { time_alarms: Addr, time: Timestamp },
    /// Pay `amount` into the loan the pool at `lpp` holds.
    RepayLoan { lpp: Addr, amount: CoinDTO },
    /// Send `amount` from the contract's own account to `to`.
    BankSend { to: Addr, amount: CoinDTO },
    /// Open an interchain account over a connection.
    RegisterInterchainAccount { connection_id: String, interchain_account_id: &'static str },
    /// Submit a transaction for execution by an interchain account.
    SubmitTx {
        connection_id: String,
        interchain_account_id: &'static str,
        msgs: Vec<RemoteMsg>,
        memo: &'static str,
        /// Seconds after which the remote side gives up.
        timeout: u64,
        fee: IbcFee,
    },
    /// Call `contract` with the message that makes it hand a pending
    /// response to its inner state. The runtime replies with `reply_id` if,
    /// and only if, the call fails.
    ForwardToInner { contract: Addr, reply_on_error_id: u64 },
    /// Move `contract` to the code stored under `new_code_id`.
    MigrateWasm { contract: Addr, new_code_id: u64 },
    /// Tell `subscriber` that the time of its alarm has come. The runtime
    /// replies with `reply_id` whatever the outcome.
    DispatchTimeAlarm { subscriber: Addr, reply_id: u64 },
}

/// An ordered batch of instructions.
#[derive(Clone, PartialEq, Eq, Debug)]
pub struct Batch {
    pub msgs: Vec<Msg>,
}

impl View for Batch {
    type V = Seq<Msg>;

    open spec fn view(&self) -> Seq<Msg> {
        self.msgs@
    }
}

impl Batch {
    /// The empty batch.
    pub fn default() -> (res: Self)
        ensures
            res@ == Seq::<Msg>::empty(),
    {
        Batch { msgs: Vec::new() }
    }

    /// Adds `msg` after the instructions the batch holds. No reply is asked
    /// for.
    pub fn schedule_execute_no_reply(&mut self, msg: Msg)
        ensures
            final(self)@ == old(self)@.push(msg),
    {
        self.msgs.push(msg);
    }

    /// The number of instructions.
    pub fn len(&self) -> (res: usize)
        ensures
            res == self@.len(),
    {
        self.msgs.len()
    }

    /// Whether the batch holds no instruction.
    pub fn is_empty(&self) -> (res: bool)
        ensures
            res == (self@.len() == 0),
    {
        self.msgs.len() == 0
    }

    /// The instructions of `self` followed by those of `other`.
    pub fn merge(self, other: Batch) -> (res: Batch)
        ensures
            res@ == self@ + other@,
    {
        let mut msgs: Vec<Msg> = self.msgs;
        let mut rest: Vec<Msg> = other.msgs;
        msgs.append(&mut rest);
        Batch { msgs }
    }
}

/// What a transition hands to the runtime: instructions and events.
#[derive(Clone, PartialEq, Eq, Debug)]
pub struct Response {
    pub messages: Batch,
    pub events: Vec<Emitter>,
}

impl Response {
    /// Neither instructions nor events.
    pub fn default() -> (res: Self)
        ensures
            res.messages@ == Seq::<Msg>::empty(),
            res.events@ == Seq::<Emitter>::empty(),
    {
        Response { messages: Batch::default(), events: Vec::new() }
    }

    /// The instructions of `messages` and no event.
    pub fn messages_only(messages: Batch) -> (res: Self)
        ensures
            res.messages == messages,
            res.events@ == Seq::<Emitter>::empty(),
    {
        Response { messages, events: Vec::new() }
    }

    /// The instructions of `messages` and the one event `emitter`.
    pub fn messages_with_events(messages: Batch, emitter: Emitter) -> (res: Self)
        ensures
            res.messages == messages,
            res.events@ == seq![emitter],
    {
        let mut events: Vec<Emitter> = Vec::new();
        events.push(emitter);
        Response { messages, events }
    }

    /// What `self` holds followed by what `other` holds.
    pub fn merge_with(self, other: Response) -> (res: Response)
        ensures
            res.messages@ == self.messages@ + other.messages@,
            res.events@ == self.events@ + other.events@,
    {
        let mut events: Vec<Emitter> = self.events;
        let mut rest: Vec<Emitter> = other.events;
        events.append(&mut rest);
        Response { messages: self.messages.merge(other.messages), events }
    }
}

} // verus!
