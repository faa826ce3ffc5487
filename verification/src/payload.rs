//! Data points: what a stream buffers, and the telemetry payload that
//! applications send.

use vstd::prelude::*;
use crate::action::ActionResponse;

verus! {

/// A buffered item: it carries a sequence number and the time, in
/// milliseconds since the epoch, at which it was produced.
pub trait Point: View {
    /// The sequence number, as contracts read it.
    spec fn spec_sequence(&self) -> u32;

    /// The production time, as contracts read it.
    spec fn spec_timestamp(&self) -> u64;

    fn sequence(&self) -> (n: u32)
        ensures
            n == self.spec_sequence(),
    ;

    fn timestamp(&self) -> (t: u64)
        ensures
            t == self.spec_timestamp(),
    ;
}

/// The views of a sequence of items, in order.
pub open spec fn views<T: View>(items: Seq<T>) -> Seq<T::V> {
    items.map_values(|p: T| p@)
}

/// `serde_json::Value`, a JSON value. Nothing is claimed of what such a
/// value holds.
#[verifier::external_type_specification]
#[verifier::external_body]
pub struct ExValue(serde_json::Value);

/// One telemetry point of the stream `stream`. The fields of the point are
/// an opaque JSON value that the bridge carries and never reads.
#[derive(Debug)]
pub struct Payload {
    pub stream: String,
    pub sequence: u32,
    pub timestamp: u64,
    pub payload: serde_json::Value,
}

/// What a [`Payload`] says, field by field.
pub struct PayloadView {
    pub stream: Seq<char>,
    pub sequence: u32,
    pub timestamp: u64,
    pub payload: serde_json::Value,
}

impl View for Payload {
    type V = PayloadView;

    open spec fn view(&self) -> PayloadView {
        PayloadView {
            stream: self.stream@,
            sequence: self.sequence,
            timestamp: self.timestamp,
            payload: self.payload,
        }
    }
}

impl Point for Payload {
    open spec fn spec_sequence(&self) -> u32 {
        self.sequence
    }

    open spec fn spec_timestamp(&self) -> u64 {
        self.timestamp
    }

    fn sequence(&self) -> (n: u32) {
        self.sequence
    }

    fn timestamp(&self) -> (t: u64) {
        self.timestamp
    }
}

impl Point for ActionResponse {
    open spec fn spec_sequence(&self) -> u32 {
        self.sequence
    }

    open spec fn spec_timestamp(&self) -> u64 {
        self.timestamp
    }

    fn sequence(&self) -> (n: u32) {
        self.sequence
    }

    fn timestamp(&self) -> (t: u64) {
        self.timestamp
    }
}

} // verus!
