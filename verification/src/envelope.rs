//! The manufacturer data of an advertisement as the Bluetooth stack delivers it,
//! and the way from there to the bytes of the payload.
//!
//! BlueZ reports manufacturer data as a dictionary from a company key to a
//! variant that wraps an array of bytes. Read as a sequence, a dictionary with
//! one entry is the key followed by the value, and a variant is the one value
//! that it wraps.

use crate::error::DecodeError;
use vstd::prelude::*;

verus! {

/// One D-Bus argument, reduced to what can be read from it: the integer that it
/// stands for, if it stands for one, and the arguments that iterating over it
/// yields, if it can be iterated over. A variant that wraps an integer has both.
#[derive(Debug, PartialEq, Eq)]
pub struct Argument {
    pub integer: Option<i64>,
    pub items: Option<Vec<Argument>>,
}

/// The properties that a change notification of a device carries, reduced to the
/// one that is read here.
#[derive(Debug, PartialEq, Eq)]
pub struct ChangedProperties {
    /// The value of the property `ManufacturerData`, if the notification has it.
    pub manufacturer_data: Option<Argument>,
}

/// The low eight bits of an integer.
pub open spec fn low_byte(value: i64) -> u8 {
    value as u8
}

/// The arguments that stand for the bytes of the payload, where manufacturer
/// data has the expected shape: it yields exactly two arguments, the second of
/// them yields exactly one, and that one can be iterated over.
pub open spec fn payload_items(data: Argument) -> Option<Seq<Argument>> {
    if data.items is Some && data.items->0@.len() == 2 {
        let wrapper = data.items->0@[1];
        if wrapper.items is Some && wrapper.items->0@.len() == 1 {
            let list = wrapper.items->0@[0];
            if list.items is Some {
                Some(list.items->0@)
            } else {
                None
            }
        } else {
            None
        }
    } else {
        None
    }
}

/// Every one of the arguments stands for an integer.
pub open spec fn all_integers(items: Seq<Argument>) -> bool {
    forall|i: int| 0 <= i < items.len() ==> (#[trigger] items[i]).integer is Some
}

/// The low bytes of the integers that the arguments stand for.
pub open spec fn bytes_of(items: Seq<Argument>) -> Seq<u8> {
    Seq::new(items.len(), |i: int| low_byte(items[i].integer->0))
}

/// The payload that manufacturer data carries: `None` unless the data has the
/// expected shape and every item of its list stands for an integer.
pub open spec fn payload_of(data: Argument) -> Option<Seq<u8>> {
    match payload_items(data) {
        Some(items) => if all_integers(items) {
            Some(bytes_of(items))
        } else {
            None
        },
        None => None,
    }
}

/// The low byte of an integer that is a byte is that byte.
pub proof fn lemma_low_byte_of_byte(byte: u8)
    ensures
        low_byte(byte as i64) == byte,
{
    assert((byte as i64) as u8 == byte) by (bit_vector);
}

impl Argument {
    /// An argument that stands for an integer and cannot be iterated over, as a
    /// byte or a company key.
    pub fn integer(value: i64) -> (argument: Argument)
        ensures
            argument.integer == Some(value),
            argument.items is None,
    {
        Argument { integer: Some(value), items: None }
    }

    /// An argument that yields the given items and stands for no integer, as an
    /// array or a dictionary.
    pub fn list(items: Vec<Argument>) -> (argument: Argument)
        ensures
            argument.integer is None,
            argument.items == Some(items),
    {
        Argument { integer: None, items: Some(items) }
    }

    /// A variant that wraps `inner`: it yields `inner` alone and stands for the
    /// integer that `inner` stands for.
    pub fn variant(inner: Argument) -> (argument: Argument)
        ensures
            argument.integer == inner.integer,
            argument.items is Some,
            argument.items->0@ == seq![inner],
    {
        let integer = inner.integer;
        let mut items: Vec<Argument> = Vec::new();
        items.push(inner);
        Argument { integer, items: Some(items) }
    }

    /// Manufacturer data as BlueZ reports it for one company: the company key,
    /// followed by a variant that wraps the array of the payload's bytes.
    pub fn manufacturer_data(company: u16, payload: &[u8]) -> (data: Argument)
        ensures
            payload_of(data) == Some(payload@),
    {
        let mut bytes: Vec<Argument> = Vec::new();
        let mut i: usize = 0;
        while i < payload.len()
            invariant
                i <= payload.len(),
                bytes@.len() == i,
                forall|j: int|
                    0 <= j < i ==> (#[trigger] bytes@[j]).integer == Some(payload@[j] as i64),
            decreases payload.len() - i,
        {
            bytes.push(Argument::integer(payload[i] as i64));
            i += 1;
        }
        let ghost items = bytes@;
        let wrapper = Argument::variant(Argument::list(bytes));
        let mut entries: Vec<Argument> = Vec::new();
        entries.push(Argument::integer(company as i64));
        entries.push(wrapper);
        let data = Argument::list(entries);
        proof {
            assert forall|j: int| 0 <= j < items.len() implies low_byte(
                (#[trigger] items[j]).integer->0,
            ) == payload@[j] by {
                lemma_low_byte_of_byte(payload@[j]);
            }
        }
        data
    }
}

/// Takes the payload out of manufacturer data.
///
/// The company key is not examined. Data of any other shape is malformed.
pub fn manufacturer_payload(data: &Argument) -> (result: Result<Vec<u8>, DecodeError>)
    ensures
        match result {
            Ok(bytes) => payload_of(*data) == Some(bytes@),
            Err(error) => error == DecodeError::MalformedEnvelope && payload_of(*data) is None,
        },
{
    let entries = match &data.items {
        Some(entries) => entries,
        None => return Err(DecodeError::MalformedEnvelope),
    };
    if entries.len() != 2 {
        return Err(DecodeError::MalformedEnvelope);
    }
    let wrapped = match &entries[1].items {
        Some(wrapped) => wrapped,
        None => return Err(DecodeError::MalformedEnvelope),
    };
    if wrapped.len() != 1 {
        return Err(DecodeError::MalformedEnvelope);
    }
    let list = match &wrapped[0].items {
        Some(list) => list,
        None => return Err(DecodeError::MalformedEnvelope),
    };
    let mut bytes: Vec<u8> = Vec::new();
    let mut i: usize = 0;
    while i < list.len()
        invariant
            payload_items(*data) == Some(list@),
            i <= list.len(),
            bytes@.len() == i,
            forall|j: int| 0 <= j < i ==> (#[trigger] list@[j]).integer is Some,
            forall|j: int| 0 <= j < i ==> bytes@[j] == low_byte(list@[j].integer->0),
        decreases list.len() - i,
    {
        match list[i].integer {
            Some(value) => bytes.push(#[verifier::truncate] (value as u8)),
            None => {
                return Err(DecodeError::MalformedEnvelope);
            },
        }
        i += 1;
    }
    Ok(bytes)
}

} // verus!
