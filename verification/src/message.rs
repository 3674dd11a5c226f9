//! The envelope the bridge hands to the broker client.

use vstd::prelude::*;

verus! {

/// One message to publish: a topic, an opaque payload, a quality-of-service
/// level in `{0, 1, 2}`, and the retained flag, which the bridge always
/// leaves off. Built fresh for every successful read; the runtime translates
/// it into the broker client's own message type.
#[derive(Debug)]
pub struct Message {
    pub topic: String,
    pub payload: Vec<u8>,
    pub qos: u8,
    pub retained: bool,
}

impl Message {
    /// A well-formed message has a quality-of-service level the broker
    /// protocol knows.
    pub open spec fn wf(self) -> bool {
        self.qos <= 2
    }

    /// The model of this message.
    pub open spec fn model(self) -> MessageModel {
        MessageModel {
            topic: self.topic@,
            payload: self.payload@,
            qos: self.qos,
            retained: self.retained,
        }
    }
}

/// A message reduced to what the contracts speak of: the mathematical image
/// of one published envelope.
pub struct MessageModel {
    pub topic: Seq<char>,
    pub payload: Seq<u8>,
    pub qos: u8,
    pub retained: bool,
}

} // verus!
