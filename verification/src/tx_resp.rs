//! What the node reports of an included transaction, and what is read out
//! of its events.

use crate::error::DaemonError;
use crate::text::{decimal_value, is_decimal, parse_decimal, same_text};
use vstd::prelude::*;
use vstd::string::StringSliceAdditionalSpecFns;
use vstd::utf8::encode_utf8;

verus! {

/// One key and value of an event.
#[derive(Clone, Debug, PartialEq, Eq)]
pub struct Attribute {
    pub key: String,
    pub value: String,
}

/// The mathematical value of an [`Attribute`].
pub struct AttributeView {
    pub key: Seq<char>,
    pub value: Seq<char>,
}

impl View for Attribute {
    type V = AttributeView;

    open spec fn view(&self) -> AttributeView {
        AttributeView { key: self.key@, value: self.value@ }
    }
}

/// An event that a transaction emitted.
#[derive(Clone, Debug, PartialEq, Eq)]
pub struct Event {
    pub kind: String,
    pub attributes: Vec<Attribute>,
}

/// The mathematical value of an [`Event`].
pub struct EventView {
    pub kind: Seq<char>,
    pub attributes: Seq<AttributeView>,
}

impl View for Event {
    type V = EventView;

    open spec fn view(&self) -> EventView {
        EventView {
            kind: self.kind@,
            attributes: self.attributes@.map_values(|a: Attribute| a@),
        }
    }
}

/// The record of an included transaction. Code 0 means that it ran through;
/// any other code is a failure on the chain, explained by the raw log.
#[derive(Clone, Debug, PartialEq, Eq)]
pub struct CosmTxResponse {
    pub height: u64,
    pub txhash: String,
    pub code: u32,
    pub raw_log: String,
    pub gas_wanted: u64,
    pub gas_used: u64,
    pub events: Vec<Event>,
}

/// The mathematical value of a [`CosmTxResponse`].
pub struct CosmTxResponseView {
    pub height: u64,
    pub txhash: Seq<char>,
    pub code: u32,
    pub raw_log: Seq<char>,
    pub gas_wanted: u64,
    pub gas_used: u64,
    pub events: Seq<EventView>,
}

impl View for CosmTxResponse {
    type V = CosmTxResponseView;

    open spec fn view(&self) -> CosmTxResponseView {
        CosmTxResponseView {
            height: self.height,
            txhash: self.txhash@,
            code: self.code,
            raw_log: self.raw_log@,
            gas_wanted: self.gas_wanted,
            gas_used: self.gas_used,
            events: self.events@.map_values(|e: Event| e@),
        }
    }
}

/// The value of the first attribute, at or after `from`, with the given key.
pub open spec fn attribute_value(attributes: Seq<AttributeView>, key: Seq<char>, from: int) -> Option<
    Seq<char>,
>
    decreases attributes.len() - from,
{
    if from < 0 || from >= attributes.len() {
        None
    } else if attributes[from].key == key {
        Some(attributes[from].value)
    } else {
        attribute_value(attributes, key, from + 1)
    }
}

/// The value that the events, at or after `from`, give for the key: that of
/// the first event of the given kind that has an attribute with the key, and
/// in it that of the first such attribute.
pub open spec fn event_attribute_value(
    events: Seq<EventView>,
    kind: Seq<char>,
    key: Seq<char>,
    from: int,
) -> Option<Seq<char>>
    decreases events.len() - from,
{
    if from < 0 || from >= events.len() {
        None
    } else if events[from].kind == kind && attribute_value(events[from].attributes, key, 0)
        is Some {
        attribute_value(events[from].attributes, key, 0)
    } else {
        event_attribute_value(events, kind, key, from + 1)
    }
}

/// The code id that the events of a stored contract name, if any.
pub open spec fn uploaded_code_id_of(events: Seq<EventView>) -> Option<Seq<char>> {
    event_attribute_value(events, "store_code"@, "code_id"@, 0)
}

/// The address that the events of an instantiated contract name, if any.
pub open spec fn instantiated_address_of(events: Seq<EventView>) -> Option<Seq<char>> {
    event_attribute_value(events, "instantiate"@, "_contract_address"@, 0)
}

/// Finds the first attribute with the given key.
pub fn find_attribute<'a>(attributes: &'a Vec<Attribute>, key: &str) -> (value: Option<&'a String>)
    ensures
        match value {
            Some(v) => attribute_value(attributes@.map_values(|a: Attribute| a@), key@, 0) == Some(
                v@,
            ),
            None => attribute_value(attributes@.map_values(|a: Attribute| a@), key@, 0) is None,
        },
{
    let ghost views = attributes@.map_values(|a: Attribute| a@);
    let mut i: usize = 0;
    while i < attributes.len()
        invariant
            i <= attributes@.len(),
            views == attributes@.map_values(|a: Attribute| a@),
            attribute_value(views, key@, 0) == attribute_value(views, key@, i as int),
        decreases attributes@.len() - i,
    {
        assert(views[i as int] == attributes@[i as int]@);
        if same_text(attributes[i].key.as_str(), key) {
            return Some(&attributes[i].value);
        }
        i += 1;
    }
    None
}

impl CosmTxResponse {
    /// Whether the transaction ran through on the chain.
    pub fn is_success(&self) -> (ok: bool)
        ensures
            ok == (self.code == 0),
    {
        self.code == 0
    }

    /// The value that the events give for an attribute of an event kind.
    pub fn event_attr_value(&self, kind: &str, key: &str) -> (value: Result<String, DaemonError>)
        ensures
            match value {
                Ok(v) => event_attribute_value(self@.events, kind@, key@, 0) == Some(v@),
                Err(e) => e == DaemonError::MissingAttribute && event_attribute_value(
                    self@.events,
                    kind@,
                    key@,
                    0,
                ) is None,
            },
    {
        let ghost views = self@.events;
        let mut i: usize = 0;
        while i < self.events.len()
            invariant
                i <= self.events@.len(),
                views == self.events@.map_values(|e: Event| e@),
                event_attribute_value(views, kind@, key@, 0) == event_attribute_value(
                    views,
                    kind@,
                    key@,
                    i as int,
                ),
            decreases self.events@.len() - i,
        {
            assert(views[i as int] == self.events@[i as int]@);
            if same_text(self.events[i].kind.as_str(), kind) {
                match find_attribute(&self.events[i].attributes, key) {
                    Some(v) => {
                        return Ok(v.clone());
                    },
                    None => {},
                }
            }
            i += 1;
        }
        Err(DaemonError::MissingAttribute)
    }

    /// The id under which the chain stored the uploaded code.
    pub fn uploaded_code_id(&self) -> (id: Result<u64, DaemonError>)
        ensures
            match id {
                Ok(v) => uploaded_code_id_of(self@.events) matches Some(text) && is_decimal(
                    encode_utf8(text),
                ) && decimal_value(encode_utf8(text)) == v,
                Err(e) => e == DaemonError::MissingAttribute && !(uploaded_code_id_of(
                    self@.events,
                ) matches Some(text) && is_decimal(encode_utf8(text)) && decimal_value(
                    encode_utf8(text),
                ) <= u64::MAX),
            },
    {
        match self.event_attr_value("store_code", "code_id") {
            Ok(text) => match parse_decimal(text.as_str().as_bytes()) {
                Some(v) => Ok(v),
                None => Err(DaemonError::MissingAttribute),
            },
            Err(e) => Err(e),
        }
    }

    /// The address at which the chain instantiated the contract.
    pub fn instantiated_contract_address(&self) -> (address: Result<String, DaemonError>)
        ensures
            match address {
                Ok(a) => instantiated_address_of(self@.events) == Some(a@),
                Err(e) => e == DaemonError::MissingAttribute && instantiated_address_of(
                    self@.events,
                ) is None,
            },
    {
        self.event_attr_value("instantiate", "_contract_address")
    }
}

} // verus!
