//! The Ethereum-style account record of Injective chains: a protobuf
//! message that wraps the base account in its field 1 and carries a code
//! hash in its field 2.
//!
//! The record is read by walking the message's fields. A message is a run
//! of fields; each field starts with a key, a varint that holds the field's
//! number and its wire type, and goes on with a varint, eight bytes, four
//! bytes, or a length and that many bytes.

use crate::account::{BaseAccount, BaseAccountView};
use crate::wire::{base_account_decoding, decode_base_account};
use vstd::prelude::*;
use vstd::slice::slice_subrange;

verus! {

/// The wire type of a varint.
pub const WIRE_VARINT: u64 = 0;

/// The wire type of eight bytes.
pub const WIRE_FIXED64: u64 = 1;

/// The wire type of a length and that many bytes.
pub const WIRE_LEN: u64 = 2;

/// The wire type of four bytes.
pub const WIRE_FIXED32: u64 = 5;

/// The varint that starts at `at`, and where it ends, `taken` bytes of it
/// having been read before. A varint has at most ten bytes, each but the
/// last with its top bit set, the lowest seven bits first, and fits 64 bits.
pub open spec fn varint(bytes: Seq<u8>, at: int, taken: nat) -> Option<(int, int)>
    decreases 10 - taken,
{
    if taken >= 10 || at < 0 || at >= bytes.len() {
        None
    } else if bytes[at] < 0x80 {
        Some((bytes[at] as int, at + 1))
    } else {
        match varint(bytes, at + 1, taken + 1) {
            Some((rest, next)) => if (bytes[at] - 0x80) + 128 * rest <= u64::MAX {
                Some(((bytes[at] - 0x80) + 128 * rest, next))
            } else {
                None
            },
            None => None,
        }
    }
}

/// One field of a message: its number, its wire type, where its payload
/// starts and ends, and where the next field starts.
pub struct FieldView {
    pub number: int,
    pub wire_type: int,
    pub start: int,
    pub end: int,
    pub next: int,
}

/// The field that starts at `at`, or `None` where the bytes there are no
/// field.
pub open spec fn field_at(bytes: Seq<u8>, at: int) -> Option<FieldView> {
    match varint(bytes, at, 0) {
        None => None,
        Some((key, after_key)) => {
            let number = key / 8;
            let wire_type = key % 8;
            if number == 0 {
                None
            } else if wire_type == WIRE_VARINT {
                match varint(bytes, after_key, 0) {
                    Some((_, next)) => Some(
                        FieldView { number, wire_type, start: after_key, end: next, next },
                    ),
                    None => None,
                }
            } else if wire_type == WIRE_FIXED64 {
                if after_key + 8 <= bytes.len() {
                    Some(
                        FieldView {
                            number,
                            wire_type,
                            start: after_key,
                            end: after_key + 8,
                            next: after_key + 8,
                        },
                    )
                } else {
                    None
                }
            } else if wire_type == WIRE_FIXED32 {
                if after_key + 4 <= bytes.len() {
                    Some(
                        FieldView {
                            number,
                            wire_type,
                            start: after_key,
                            end: after_key + 4,
                            next: after_key + 4,
                        },
                    )
                } else {
                    None
                }
            } else if wire_type == WIRE_LEN {
                match varint(bytes, after_key, 0) {
                    Some((len, start)) => if start + len <= bytes.len() {
                        Some(
                            FieldView {
                                number,
                                wire_type,
                                start,
                                end: start + len,
                                next: start + len,
                            },
                        )
                    } else {
                        None
                    },
                    None => None,
                }
            } else {
                None
            }
        },
    }
}

/// Where the base account lies in an Ethereum-style account record, read
/// from `at` on, `found` being what was found before: `None` where the
/// bytes are no such record, `Some(None)` where the record wraps no base
/// account. Fields 1 and 2 must be length-delimited; of several fields 1 the
/// last counts; other fields are passed over.
pub open spec fn embedded_account(bytes: Seq<u8>, at: int, found: Option<(int, int)>) -> Option<
    Option<(int, int)>,
>
    decreases bytes.len() - at,
{
    if at >= bytes.len() {
        Some(found)
    } else {
        match field_at(bytes, at) {
            None => None,
            Some(field) => if field.next <= at || field.next > bytes.len() || ((field.number == 1
                || field.number == 2)
                && field.wire_type != WIRE_LEN) {
                None
            } else {
                embedded_account(
                    bytes,
                    field.next,
                    if field.number == 1 {
                        Some((field.start, field.end))
                    } else {
                        found
                    },
                )
            },
        }
    }
}

/// The base account inside the Ethereum-style account record that the
/// bytes encode: `None` where they encode no such record or what it wraps
/// is no base account, `Some(None)` where the record wraps nothing.
pub open spec fn eth_account_decoding(bytes: Seq<u8>) -> Option<Option<BaseAccountView>> {
    match embedded_account(bytes, 0, None) {
        None => None,
        Some(None) => Some(None),
        Some(Some((start, end))) => match base_account_decoding(bytes.subrange(start, end)) {
            Some(account) => Some(Some(account)),
            None => None,
        },
    }
}

/// Reads the varint that starts at `at`.
pub fn read_varint(bytes: &[u8], at: usize, taken: u8) -> (read: Option<(u64, usize)>)
    ensures
        match read {
            Some((value, next)) => varint(bytes@, at as int, taken as nat) == Some(
                (value as int, next as int),
            ) && at < next <= bytes@.len(),
            None => varint(bytes@, at as int, taken as nat) is None,
        },
    decreases 10 - taken,
{
    if taken >= 10 || at >= bytes.len() {
        return None;
    }
    let b = bytes[at];
    if b < 0x80 {
        return Some((b as u64, at + 1));
    }
    match read_varint(bytes, at + 1, taken + 1) {
        Some((rest, next)) => {
            let low: u64 = (b - 0x80) as u64;
            match rest.checked_mul(128) {
                Some(high) => match high.checked_add(low) {
                    Some(value) => Some((value, next)),
                    None => None,
                },
                None => None,
            }
        },
        None => None,
    }
}

/// One field of a message, as read.
#[derive(Clone, Copy, Debug, PartialEq, Eq)]
pub struct Field {
    pub number: u64,
    pub wire_type: u64,
    pub start: usize,
    pub end: usize,
    pub next: usize,
}

impl View for Field {
    type V = FieldView;

    open spec fn view(&self) -> FieldView {
        FieldView {
            number: self.number as int,
            wire_type: self.wire_type as int,
            start: self.start as int,
            end: self.end as int,
            next: self.next as int,
        }
    }
}

/// Reads the field that starts at `at`.
pub fn read_field(bytes: &[u8], at: usize) -> (read: Option<Field>)
    ensures
        match read {
            Some(field) => field_at(bytes@, at as int) == Some(field@) && at < field.start
                <= field.end <= field.next <= bytes@.len(),
            None => field_at(bytes@, at as int) is None,
        },
{
    let (key, after_key) = match read_varint(bytes, at, 0) {
        Some(read) => read,
        None => {
            return None;
        },
    };
    let number = key / 8;
    let wire_type = key % 8;
    if number == 0 {
        None
    } else if wire_type == WIRE_VARINT {
        match read_varint(bytes, after_key, 0) {
            Some((_, next)) => Some(
                Field { number, wire_type, start: after_key, end: next, next },
            ),
            None => None,
        }
    } else if wire_type == WIRE_FIXED64 {
        if bytes.len() - after_key >= 8 {
            Some(
                Field {
                    number,
                    wire_type,
                    start: after_key,
                    end: after_key + 8,
                    next: after_key + 8,
                },
            )
        } else {
            None
        }
    } else if wire_type == WIRE_FIXED32 {
        if bytes.len() - after_key >= 4 {
            Some(
                Field {
                    number,
                    wire_type,
                    start: after_key,
                    end: after_key + 4,
                    next: after_key + 4,
                },
            )
        } else {
            None
        }
    } else if wire_type == WIRE_LEN {
        match read_varint(bytes, after_key, 0) {
            Some((len, start)) => {
                if len <= (bytes.len() - start) as u64 {
                    let end = start + len as usize;
                    Some(Field { number, wire_type, start, end, next: end })
                } else {
                    None
                }
            },
            None => None,
        }
    } else {
        None
    }
}

/// Finds where the base account lies in an Ethereum-style account record.
pub fn find_embedded_account(bytes: &[u8]) -> (found: Option<Option<(usize, usize)>>)
    ensures
        match found {
            None => embedded_account(bytes@, 0, None) is None,
            Some(None) => embedded_account(bytes@, 0, None) == Some(None::<(int, int)>),
            Some(Some((start, end))) => embedded_account(bytes@, 0, None) == Some(
                Some((start as int, end as int)),
            ) && start <= end <= bytes@.len(),
        },
{
    let mut at: usize = 0;
    let mut found: Option<(usize, usize)> = None;
    let ghost mut found_view: Option<(int, int)> = None;
    while at < bytes.len()
        invariant
            at <= bytes@.len(),
            found_view == match found {
                Some((s, e)) => Some((s as int, e as int)),
                None => None,
            },
            found matches Some((s, e)) ==> s <= e <= bytes@.len(),
            embedded_account(bytes@, 0, None) == embedded_account(bytes@, at as int, found_view),
        decreases bytes@.len() - at,
    {
        match read_field(bytes, at) {
            None => {
                return None;
            },
            Some(field) => {
                if field.number == 1 {
                    if field.wire_type == WIRE_LEN {
                        found = Some((field.start, field.end));
                        proof {
                            found_view = Some((field.start as int, field.end as int));
                        }
                    } else {
                        return None;
                    }
                } else if field.number == 2 {
                    if field.wire_type != WIRE_LEN {
                        return None;
                    }
                }
                at = field.next;
            },
        }
    }
    Some(found)
}

/// Reads an Ethereum-style account record and decodes the base account
/// that it wraps.
pub fn decode_eth_account(bytes: &[u8]) -> (account: Option<Option<BaseAccount>>)
    ensures
        match account {
            None => eth_account_decoding(bytes@) is None,
            Some(None) => eth_account_decoding(bytes@) == Some(None::<BaseAccountView>),
            Some(Some(a)) => eth_account_decoding(bytes@) == Some(Some(a@)),
        },
{
    match find_embedded_account(bytes) {
        None => None,
        Some(None) => Some(None),
        Some(Some((start, end))) => match decode_base_account(slice_subrange(bytes, start, end)) {
            Ok(account) => Some(Some(account)),
            Err(_) => None,
        },
    }
}

} // verus!
