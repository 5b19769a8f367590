//! The wire format of the replies the remote network sends: tagged fields,
//! each a variable-length integer, a fixed-width value or a length-prefixed
//! run of bytes.
use vstd::prelude::*;

verus! {

/// The wire type of a variable-length integer.
pub const WIRE_VARINT: u8 = 0;

/// The wire type of a 64-bit fixed-width value.
pub const WIRE_FIXED64: u8 = 1;

/// The wire type of a length-prefixed run of bytes.
pub const WIRE_LEN: u8 = 2;

/// The wire type of a 32-bit fixed-width value.
pub const WIRE_FIXED32: u8 = 5;

/// The values that the bytes of a variable-length integer from the
/// `index`-th on can add up to lie below this limit.
pub open spec fn varint_limit(index: nat) -> int {
    if index == 0 {
        0x1_0000_0000_0000_0000
    } else if index == 1 {
        0x200_0000_0000_0000
    } else if index == 2 {
        0x4_0000_0000_0000
    } else if index == 3 {
        0x800_0000_0000
    } else if index == 4 {
        0x10_0000_0000
    } else if index == 5 {
        0x2000_0000
    } else if index == 6 {
        0x40_0000
    } else if index == 7 {
        0x8000
    } else if index == 8 {
        0x100
    } else {
        2
    }
}

/// The variable-length integer whose `index`-th byte stands at `pos`: seven
/// bits per byte, the low bits first, the high bit of a byte set on all but
/// the last. It has at most ten bytes and fits 64 bits. Yields the value of
/// the bytes from `pos` on and the position after the last.
pub open spec fn spec_varint_from(bytes: Seq<u8>, pos: int, index: nat) -> Option<(int, int)>
    decreases 10 - index,
{
    if index >= 10 || pos < 0 || pos >= bytes.len() {
        None
    } else if bytes[pos] < 128 {
        if index == 9 && bytes[pos] > 1 {
            None
        } else {
            Some((bytes[pos] as int, pos + 1))
        }
    } else {
        match spec_varint_from(bytes, pos + 1, index + 1) {
            None => None,
            Some((rest, next)) => Some(((bytes[pos] - 128) + 128 * rest, next)),
        }
    }
}

/// The variable-length integer that starts at `pos`.
pub open spec fn spec_varint(bytes: Seq<u8>, pos: int) -> Option<(int, int)> {
    spec_varint_from(bytes, pos, 0)
}

/// A variable-length integer is non-negative and below the limit of its
/// position, and it ends after where it starts, within the bytes.
pub proof fn lemma_varint_bounds(bytes: Seq<u8>, pos: int, index: nat)
    requires
        spec_varint_from(bytes, pos, index).is_some(),
    ensures
        0 <= spec_varint_from(bytes, pos, index).unwrap().0 < varint_limit(index),
        pos < spec_varint_from(bytes, pos, index).unwrap().1 <= bytes.len(),
    decreases 10 - index,
{
    if bytes[pos] >= 128 {
        lemma_varint_bounds(bytes, pos + 1, index + 1);
    }
}

fn read_varint_from(bytes: &Vec<u8>, pos: usize, index: u8) -> (res: Option<(u64, usize)>)
    ensures
        match spec_varint_from(bytes@, pos as int, index as nat) {
            Some((value, next)) => res == Some((value as u64, next as usize)),
            None => res.is_none(),
        },
    decreases 10 - index,
{
    if index >= 10 || pos >= bytes.len() {
        return None;
    }
    let byte: u8 = bytes[pos];
    if byte < 128 {
        if index == 9 && byte > 1 {
            None
        } else {
            Some((byte as u64, pos + 1))
        }
    } else {
        match read_varint_from(bytes, pos + 1, index + 1) {
            None => None,
            Some((rest, next)) => {
                proof {
                    lemma_varint_bounds(bytes@, pos as int + 1, index as nat + 1);
                }
                Some((((byte - 128) as u64) + 128 * rest, next))
            },
        }
    }
}

/// Reads the variable-length integer that starts at `pos`. Returns its value
/// and the position after it, or nothing if the bytes end within it or it
/// does not fit 64 bits.
pub fn read_varint(bytes: &Vec<u8>, pos: usize) -> (res: Option<(u64, usize)>)
    ensures
        match spec_varint(bytes@, pos as int) {
            Some((value, next)) => res == Some((value as u64, next as usize)) && 0 <= value
                <= u64::MAX && pos < next <= bytes@.len(),
            None => res.is_none(),
        },
{
    proof {
        if spec_varint(bytes@, pos as int).is_some() {
            lemma_varint_bounds(bytes@, pos as int, 0);
        }
    }
    read_varint_from(bytes, pos, 0)
}

/// One field of a message: its number, its wire type and, for a
/// length-prefixed field, its bytes.
pub struct FieldView {
    pub number: int,
    pub wire_type: int,
    pub payload: Seq<u8>,
}

/// One field of a message as it was read.
#[derive(Clone, PartialEq, Eq, Debug)]
pub struct Field {
    pub number: u32,
    pub wire_type: u8,
    pub payload: Vec<u8>,
}

impl View for Field {
    type V = FieldView;

    open spec fn view(&self) -> FieldView {
        FieldView {
            number: self.number as int,
            wire_type: self.wire_type as int,
            payload: self.payload@,
        }
    }
}

/// The field that starts at `pos` and the position after it. The key is a
/// variable-length integer that fits 32 bits: the field's number, which is
/// not zero, times eight, plus the wire type. Groups are not accepted.
pub open spec fn spec_field(bytes: Seq<u8>, pos: int) -> Option<(FieldView, int)> {
    match spec_varint(bytes, pos) {
        None => None,
        Some((key, after_key)) => {
            let number = key / 8;
            let wire_type = key % 8;
            if key > u32::MAX || number == 0 {
                None
            } else if wire_type == WIRE_VARINT {
                match spec_varint(bytes, after_key) {
                    None => None,
                    Some((_, next)) => Some(
                        (FieldView { number, wire_type, payload: Seq::empty() }, next),
                    ),
                }
            } else if wire_type == WIRE_FIXED64 {
                if after_key + 8 <= bytes.len() {
                    Some((FieldView { number, wire_type, payload: Seq::empty() }, after_key + 8))
                } else {
                    None
                }
            } else if wire_type == WIRE_FIXED32 {
                if after_key + 4 <= bytes.len() {
                    Some((FieldView { number, wire_type, payload: Seq::empty() }, after_key + 4))
                } else {
                    None
                }
            } else if wire_type == WIRE_LEN {
                match spec_varint(bytes, after_key) {
                    None => None,
                    Some((length, start)) => if start + length <= bytes.len() {
                        Some(
                            (
                                FieldView {
                                    number,
                                    wire_type,
                                    payload: bytes.subrange(start, start + length),
                                },
                                start + length,
                            ),
                        )
                    } else {
                        None
                    },
                }
            } else {
                None
            }
        },
    }
}

/// A field ends after where it starts, within the bytes.
pub proof fn lemma_field_advances(bytes: Seq<u8>, pos: int)
    requires
        spec_field(bytes, pos).is_some(),
    ensures
        pos < spec_field(bytes, pos).unwrap().1 <= bytes.len(),
{
    lemma_varint_bounds(bytes, pos, 0);
    let (key, after_key) = spec_varint(bytes, pos).unwrap();
    let wire_type = key % 8;
    if wire_type == WIRE_VARINT || wire_type == WIRE_LEN {
        lemma_varint_bounds(bytes, after_key, 0);
    }
}

/// The fields from `pos` to the end of the bytes, in order; nothing if any
/// of them is malformed.
pub open spec fn spec_fields_from(bytes: Seq<u8>, pos: int) -> Option<Seq<FieldView>>
    decreases bytes.len() - pos,
{
    if pos >= bytes.len() {
        Some(Seq::empty())
    } else {
        match spec_field(bytes, pos) {
            None => None,
            Some((field, next)) => if next <= pos || next > bytes.len() {
                None
            } else {
                match spec_fields_from(bytes, next) {
                    None => None,
                    Some(rest) => Some(seq![field] + rest),
                }
            },
        }
    }
}

/// The fields of a message, in order; nothing if the message is malformed.
pub open spec fn spec_fields(bytes: Seq<u8>) -> Option<Seq<FieldView>> {
    spec_fields_from(bytes, 0)
}

/// The views of the fields of `fields`, in order.
pub open spec fn field_views(fields: Seq<Field>) -> Seq<FieldView> {
    Seq::new(fields.len(), |i: int| fields[i]@)
}

/// The bytes of `bytes` from `start` up to `end`.
fn copy_range(bytes: &Vec<u8>, start: usize, end: usize) -> (res: Vec<u8>)
    requires
        start <= end <= bytes@.len(),
    ensures
        res@ == bytes@.subrange(start as int, end as int),
{
    let mut copy: Vec<u8> = Vec::new();
    let mut index: usize = start;
    while index < end
        invariant
            start <= index <= end <= bytes@.len(),
            copy@ == bytes@.subrange(start as int, index as int),
        decreases end - index,
    {
        copy.push(bytes[index]);
        assert(copy@ == bytes@.subrange(start as int, index as int + 1));
        index = index + 1;
    }
    copy
}

/// Reads the field that starts at `pos`. Returns it and the position after
/// it, or nothing if it is malformed.
pub fn read_field(bytes: &Vec<u8>, pos: usize) -> (res: Option<(Field, usize)>)
    ensures
        match spec_field(bytes@, pos as int) {
            Some((field, next)) => res.is_some() && res.unwrap().0@ == field && res.unwrap().1
                == next && pos < next <= bytes@.len(),
            None => res.is_none(),
        },
{
    proof {
        if spec_field(bytes@, pos as int).is_some() {
            lemma_field_advances(bytes@, pos as int);
        }
    }
    let total: usize = bytes.len();
    let (key, after_key): (u64, usize) = match read_varint(bytes, pos) {
        None => { return None; },
        Some(read) => read,
    };
    if key > u32::MAX as u64 || key / 8 == 0 {
        return None;
    }
    let number: u32 = (key / 8) as u32;
    let wire_type: u8 = (key % 8) as u8;
    if wire_type == WIRE_VARINT {
        match read_varint(bytes, after_key) {
            None => None,
            Some((_, next)) => Some((Field { number, wire_type, payload: Vec::new() }, next)),
        }
    } else if wire_type == WIRE_FIXED64 {
        if total - after_key >= 8 {
            Some((Field { number, wire_type, payload: Vec::new() }, after_key + 8))
        } else {
            None
        }
    } else if wire_type == WIRE_FIXED32 {
        if total - after_key >= 4 {
            Some((Field { number, wire_type, payload: Vec::new() }, after_key + 4))
        } else {
            None
        }
    } else if wire_type == WIRE_LEN {
        match read_varint(bytes, after_key) {
            None => None,
            Some((length, start)) => {
                if length > (total - start) as u64 {
                    None
                } else {
                    let end: usize = start + length as usize;
                    Some((Field { number, wire_type, payload: copy_range(bytes, start, end) }, end))
                }
            },
        }
    } else {
        None
    }
}

/// Reads the fields of a message, in order, or nothing if the message is
/// malformed.
pub fn read_fields(bytes: &Vec<u8>) -> (res: Option<Vec<Field>>)
    ensures
        match spec_fields(bytes@) {
            Some(fields) => res.is_some() && field_views(res.unwrap()@) == fields,
            None => res.is_none(),
        },
{
    let mut fields: Vec<Field> = Vec::new();
    let mut pos: usize = 0;
    assert(field_views(fields@) == Seq::<FieldView>::empty());
    while pos < bytes.len()
        invariant
            pos <= bytes@.len(),
            spec_fields(bytes@) == (match spec_fields_from(bytes@, pos as int) {
                Some(rest) => Some(field_views(fields@) + rest),
                None => None,
            }),
        decreases bytes@.len() - pos,
    {
        match read_field(bytes, pos) {
            None => {
                return None;
            },
            Some((field, next)) => {
                proof {
                    let before = field_views(fields@);
                    let view = field@;
                    assert(field_views(fields@.push(field)) == before + seq![view]);
                    match spec_fields_from(bytes@, next as int) {
                        Some(rest) => {
                            assert((before + seq![view]) + rest == before + (seq![view] + rest));
                        },
                        None => {},
                    }
                }
                fields.push(field);
                pos = next;
            },
        }
    }
    proof {
        assert(field_views(fields@) + Seq::<FieldView>::empty() == field_views(fields@));
    }
    Some(fields)
}

} // verus!
