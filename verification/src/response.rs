//! The generic response envelope: outbound messages, ordered
//! attributes and an optional opaque payload, built incrementally
//! during one call.

use vstd::prelude::*;
use crate::msg::CosmosMsg;
use crate::types::Binary;

verus! {

/// One audit attribute; duplicates are permitted and order is kept.
#[derive(Clone, Debug, PartialEq, Eq)]
pub struct Attribute {
    pub key: String,
    pub value: String,
}

/// Builds one attribute.
pub fn attr(key: &str, value: &str) -> (a: Attribute)
    ensures
        a.key@ == key@,
        a.value@ == value@,
{
    Attribute { key: key.to_owned(), value: value.to_owned() }
}

/// A response of a contract entry point. A mutable instance is created
/// early in the call and updated incrementally; it is never retained
/// across calls.
#[derive(Clone, Debug, PartialEq, Eq)]
pub struct Response<T> {
    /// Outbound messages, executed by the host in this order.
    pub messages: Vec<CosmosMsg<T>>,
    /// The attributes emitted for auditing.
    pub attributes: Vec<Attribute>,
    /// An optional opaque result payload.
    pub data: Option<Binary>,
}

impl<T> Default for Response<T> {
    /// The empty envelope: no messages, no attributes, no data.
    fn default() -> (r: Self)
        ensures
            r.messages@ == Seq::<CosmosMsg<T>>::empty(),
            r.attributes@ == Seq::<Attribute>::empty(),
            r.data is None,
    {
        Response { messages: Vec::new(), attributes: Vec::new(), data: None }
    }
}

impl<T> Response<T> {
    /// The empty envelope: no messages, no attributes, no data.
    pub fn new() -> (r: Self)
        ensures
            r.messages@ == Seq::<CosmosMsg<T>>::empty(),
            r.attributes@ == Seq::<Attribute>::empty(),
            r.data is None,
    {
        Response { messages: Vec::new(), attributes: Vec::new(), data: None }
    }

    /// Appends one attribute; no deduplication, no content validation.
    pub fn add_attribute(&mut self, key: &str, value: &str)
        ensures
            final(self).messages == old(self).messages,
            final(self).data == old(self).data,
            final(self).attributes@.len() == old(self).attributes@.len() + 1,
            final(self).attributes@.last().key@ == key@,
            final(self).attributes@.last().value@ == value@,
            final(self).attributes@.drop_last() == old(self).attributes@,
    {
        self.attributes.push(attr(key, value));
        proof {
            assert(final(self).attributes@.drop_last() =~= old(self).attributes@);
        }
    }

    /// Appends one outbound message, preserving call order.
    pub fn add_message(&mut self, msg: CosmosMsg<T>)
        ensures
            final(self).messages@ == old(self).messages@.push(msg),
            final(self).attributes == old(self).attributes,
            final(self).data == old(self).data,
    {
        self.messages.push(msg);
    }

    /// Replaces the opaque payload; the last call wins.
    pub fn set_data(&mut self, data: Binary)
        ensures
            final(self).messages == old(self).messages,
            final(self).attributes == old(self).attributes,
            final(self).data == Some(data),
    {
        self.data = Some(data);
    }
}

} // verus!
