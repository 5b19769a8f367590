//! The results of the messages of a remote transaction, as the remote
//! network reports them in its acknowledgment.
use vstd::prelude::*;
use vstd::string::StringSliceAdditionalSpecFns;
use crate::decimal::{read_number, spec_number};
use crate::wire::{
    field_views, read_fields, spec_fields, Field, FieldView, WIRE_LEN,
};

verus! {

/// The type of the request that swaps an exact amount in.
pub const SWAP_REQUEST_TYPE_URL: &'static str = "/osmosis.gamm.v1beta1.MsgSwapExactAmountIn";

/// Why an acknowledgment could not be understood.
#[derive(Clone, Copy, PartialEq, Eq, Structural, Debug)]
pub enum DecodeError {
    /// The bytes are not well-formed.
    Malformed,
    /// There are fewer results than requests.
    MissingResponse,
    /// A result belongs to another type of request.
    UnexpectedType,
    /// The amount is not an unsigned decimal number of at most 128 bits.
    InvalidAmount,
}

/// The result of one message: the type of the message and the bytes of the
/// result.
pub struct MsgDataView {
    pub msg_type: Seq<u8>,
    pub data: Seq<u8>,
}

/// The result of one message as it was read.
#[derive(Clone, PartialEq, Eq, Debug)]
pub struct MsgData {
    pub msg_type: Vec<u8>,
    pub data: Vec<u8>,
}

impl View for MsgData {
    type V = MsgDataView;

    open spec fn view(&self) -> MsgDataView {
        MsgDataView { msg_type: self.msg_type@, data: self.data@ }
    }
}

/// The views of `results`, in order.
pub open spec fn msg_data_views(results: Seq<MsgData>) -> Seq<MsgDataView> {
    Seq::new(results.len(), |i: int| results[i]@)
}

/// The bytes of the last field numbered `number`, which are none if there
/// is no such field; nothing if a field of that number is not a
/// length-prefixed one.
pub open spec fn spec_last_payload(fields: Seq<FieldView>, number: int) -> Option<Seq<u8>>
    decreases fields.len(),
{
    if fields.len() == 0 {
        Some(Seq::empty())
    } else {
        match spec_last_payload(fields.drop_last(), number) {
            None => None,
            Some(before) => if fields.last().number == number {
                if fields.last().wire_type == WIRE_LEN {
                    Some(fields.last().payload)
                } else {
                    None
                }
            } else {
                Some(before)
            },
        }
    }
}

/// The result of one message: field 1 holds the type, field 2 the bytes;
/// other fields are passed over.
pub open spec fn spec_msg_data(bytes: Seq<u8>) -> Option<MsgDataView> {
    match spec_fields(bytes) {
        None => None,
        Some(fields) => match (spec_last_payload(fields, 1), spec_last_payload(fields, 2)) {
            (Some(msg_type), Some(data)) => Some(MsgDataView { msg_type, data }),
            _ => None,
        },
    }
}

/// The results that the fields numbered 1 hold, in order.
pub open spec fn spec_collect_results(fields: Seq<FieldView>) -> Option<Seq<MsgDataView>>
    decreases fields.len(),
{
    if fields.len() == 0 {
        Some(Seq::empty())
    } else {
        match spec_collect_results(fields.drop_last()) {
            None => None,
            Some(before) => if fields.last().number == 1 {
                if fields.last().wire_type == WIRE_LEN {
                    match spec_msg_data(fields.last().payload) {
                        None => None,
                        Some(result) => Some(before.push(result)),
                    }
                } else {
                    None
                }
            } else {
                Some(before)
            },
        }
    }
}

/// The results of the messages of a transaction, in the order of the
/// messages: each field numbered 1 of the acknowledgment holds one.
pub open spec fn spec_msg_responses(bytes: Seq<u8>) -> Option<Seq<MsgDataView>> {
    match spec_fields(bytes) {
        None => None,
        Some(fields) => spec_collect_results(fields),
    }
}

/// The amount that `text` writes: digits, with or without a plus sign in
/// front, of a value of at most 128 bits.
pub open spec fn spec_amount_text(text: Seq<u8>) -> Option<u128> {
    let start: int = if text.len() > 0 && text[0] == 43 {
        1
    } else {
        0
    };
    match spec_number(text, start, u128::MAX as int) {
        Some((value, end)) => if end == text.len() {
            Some(value as u128)
        } else {
            None
        },
        None => None,
    }
}

/// The amount a swap gave, as its result reports it: the result has to
/// belong to a swap request, and field 1 of its bytes writes the amount.
pub open spec fn spec_swap_amount_out(result: MsgDataView) -> Result<u128, DecodeError> {
    if result.msg_type != SWAP_REQUEST_TYPE_URL.spec_bytes() {
        Err(DecodeError::UnexpectedType)
    } else {
        match spec_fields(result.data) {
            None => Err(DecodeError::Malformed),
            Some(fields) => match spec_last_payload(fields, 1) {
                None => Err(DecodeError::Malformed),
                Some(text) => match spec_amount_text(text) {
                    None => Err(DecodeError::InvalidAmount),
                    Some(amount) => Ok(amount),
                },
            },
        }
    }
}

fn copy_bytes(bytes: &Vec<u8>) -> (res: Vec<u8>)
    ensures
        res@ == bytes@,
{
    let mut copy: Vec<u8> = Vec::new();
    let mut index: usize = 0;
    while index < bytes.len()
        invariant
            index <= bytes@.len(),
            copy@ == bytes@.take(index as int),
        decreases bytes@.len() - index,
    {
        copy.push(bytes[index]);
        assert(copy@ == bytes@.take(index as int + 1));
        index = index + 1;
    }
    assert(bytes@.take(bytes@.len() as int) == bytes@);
    copy
}

/// Whether two runs of bytes are the same.
pub fn bytes_eq(left: &[u8], right: &[u8]) -> (res: bool)
    ensures
        res == (left@ == right@),
{
    if left.len() != right.len() {
        return false;
    }
    let mut index: usize = 0;
    while index < left.len()
        invariant
            left@.len() == right@.len(),
            index <= left@.len(),
            forall|i: int| 0 <= i < index ==> left@[i] == right@[i],
        decreases left@.len() - index,
    {
        if left[index] != right[index] {
            return false;
        }
        index = index + 1;
    }
    assert(left@ =~= right@);
    true
}

fn last_payload(fields: &Vec<Field>, number: u32) -> (res: Option<Vec<u8>>)
    ensures
        match spec_last_payload(field_views(fields@), number as int) {
            Some(payload) => res.is_some() && res.unwrap()@ == payload,
            None => res.is_none(),
        },
{
    let ghost views = field_views(fields@);
    let mut payload: Vec<u8> = Vec::new();
    let mut index: usize = 0;
    assert(views.take(0) == Seq::<FieldView>::empty());
    while index < fields.len()
        invariant
            views == field_views(fields@),
            index <= fields@.len(),
            spec_last_payload(views.take(index as int), number as int) == Some(payload@),
        decreases fields@.len() - index,
    {
        proof {
            let next = views.take(index as int + 1);
            assert(next.drop_last() == views.take(index as int));
            assert(next.last() == fields@[index as int]@);
        }
        if fields[index].number == number {
            if fields[index].wire_type == WIRE_LEN {
                payload = copy_bytes(&fields[index].payload);
            } else {
                proof {
                    lemma_last_payload_stays_none(views, index as int + 1, number as int);
                }
                return None;
            }
        }
        index = index + 1;
    }
    assert(views.take(fields@.len() as int) == views);
    Some(payload)
}

/// Once a field of the number looked for has another wire type, no later
/// field brings its bytes back.
pub proof fn lemma_last_payload_stays_none(fields: Seq<FieldView>, count: int, number: int)
    requires
        0 <= count <= fields.len(),
        spec_last_payload(fields.take(count), number).is_none(),
    ensures
        spec_last_payload(fields, number).is_none(),
    decreases fields.len() - count,
{
    if count < fields.len() {
        assert(fields.take(count + 1).drop_last() == fields.take(count));
        lemma_last_payload_stays_none(fields, count + 1, number);
    } else {
        assert(fields.take(count) == fields);
    }
}

/// Once one result is malformed, no later field makes the list of results
/// well-formed.
pub proof fn lemma_collect_stays_none(fields: Seq<FieldView>, count: int)
    requires
        0 <= count <= fields.len(),
        spec_collect_results(fields.take(count)).is_none(),
    ensures
        spec_collect_results(fields).is_none(),
    decreases fields.len() - count,
{
    if count < fields.len() {
        assert(fields.take(count + 1).drop_last() == fields.take(count));
        lemma_collect_stays_none(fields, count + 1);
    } else {
        assert(fields.take(count) == fields);
    }
}

/// Reads the result of one message, or nothing if the bytes are malformed.
pub fn decode_msg_data(bytes: &Vec<u8>) -> (res: Option<MsgData>)
    ensures
        match spec_msg_data(bytes@) {
            Some(result) => res.is_some() && res.unwrap()@ == result,
            None => res.is_none(),
        },
{
    let fields: Vec<Field> = match read_fields(bytes) {
        None => { return None; },
        Some(fields) => fields,
    };
    let msg_type: Vec<u8> = match last_payload(&fields, 1) {
        None => { return None; },
        Some(payload) => payload,
    };
    match last_payload(&fields, 2) {
        None => None,
        Some(data) => Some(MsgData { msg_type, data }),
    }
}

/// Reads the results of the messages of a transaction from the
/// acknowledgment of the transaction. Fails with `Malformed` if the bytes do
/// not hold a list of results.
pub fn decode_msg_responses(bytes: &Vec<u8>) -> (res: Result<Vec<MsgData>, DecodeError>)
    ensures
        match spec_msg_responses(bytes@) {
            Some(results) => res.is_ok() && msg_data_views(res.unwrap()@) == results,
            None => res == Err::<Vec<MsgData>, DecodeError>(DecodeError::Malformed),
        },
{
    let fields: Vec<Field> = match read_fields(bytes) {
        None => { return Err(DecodeError::Malformed); },
        Some(fields) => fields,
    };
    let ghost views = field_views(fields@);
    let mut results: Vec<MsgData> = Vec::new();
    let mut index: usize = 0;
    assert(views.take(0) == Seq::<FieldView>::empty());
    assert(msg_data_views(results@) == Seq::<MsgDataView>::empty());
    while index < fields.len()
        invariant
            views == field_views(fields@),
            spec_fields(bytes@) == Some(views),
            index <= fields@.len(),
            spec_collect_results(views.take(index as int)) == Some(msg_data_views(results@)),
        decreases fields@.len() - index,
    {
        proof {
            let next = views.take(index as int + 1);
            assert(next.drop_last() == views.take(index as int));
            assert(next.last() == fields@[index as int]@);
        }
        if fields[index].number == 1 {
            if fields[index].wire_type != WIRE_LEN {
                proof {
                    lemma_collect_stays_none(views, index as int + 1);
                }
                return Err(DecodeError::Malformed);
            }
            match decode_msg_data(&fields[index].payload) {
                None => {
                    proof {
                        lemma_collect_stays_none(views, index as int + 1);
                    }
                    return Err(DecodeError::Malformed);
                },
                Some(result) => {
                    proof {
                        assert(msg_data_views(results@.push(result)) == msg_data_views(
                            results@,
                        ).push(result@));
                    }
                    results.push(result);
                },
            }
        }
        index = index + 1;
    }
    assert(views.take(fields@.len() as int) == views);
    Ok(results)
}

/// Reads the amount that `text` writes, or nothing if it writes none.
pub fn parse_amount(text: &Vec<u8>) -> (res: Option<u128>)
    ensures
        res == spec_amount_text(text@),
{
    let start: usize = if text.len() > 0 && text[0] == 43 {
        1
    } else {
        0
    };
    match read_number(text.as_slice(), start, u128::MAX) {
        Some((value, end)) => if end == text.len() {
            Some(value)
        } else {
            None
        },
        None => None,
    }
}

/// Reads the amount a swap gave from the result of the swap message.
pub fn exact_amount_in_resp(result: &MsgData) -> (res: Result<u128, DecodeError>)
    ensures
        res == spec_swap_amount_out(result@),
{
    if !bytes_eq(result.msg_type.as_slice(), SWAP_REQUEST_TYPE_URL.as_bytes()) {
        return Err(DecodeError::UnexpectedType);
    }
    let fields: Vec<Field> = match read_fields(&result.data) {
        None => { return Err(DecodeError::Malformed); },
        Some(fields) => fields,
    };
    let text: Vec<u8> = match last_payload(&fields, 1) {
        None => { return Err(DecodeError::Malformed); },
        Some(text) => text,
    };
    match parse_amount(&text) {
        None => Err(DecodeError::InvalidAmount),
        Some(amount) => Ok(amount),
    }
}

} // verus!
