//! The per-connection relay: a state machine that turns reads on one TCP
//! connection into publish requests, until the peer closes or an error ends
//! the connection.
//!
//! The runtime owns the socket and the broker client. It feeds each read's
//! outcome into [`Relay::on_read`], performs the directive that comes back
//! (publish, retry, finish, fail), and reports a publish's outcome through
//! [`Relay::on_publish_result`]. The module also holds the mathematical
//! model of a whole connection — a sequence of [`ConnectionEvent`]s — and
//! the laws the relay obeys over it.

use vstd::prelude::*;
use vstd::string::StringExecFns;
use crate::addr::Ipv4Address;
use crate::addr::ip_chars;
use crate::message::Message;
use crate::message::MessageModel;

verus! {

/// How many bytes one read may deliver at most: the size of the fixed
/// buffer the runtime reads into.
pub const READ_BUFFER_LEN: usize = 4096;

/// The topic a connection publishes under: the configured prefix, a slash,
/// and the peer's dotted-decimal address.
pub open spec fn topic_chars(prefix: Seq<char>, ip: Ipv4Address) -> Seq<char> {
    prefix + seq!['/'] + ip_chars(ip)
}

/// Builds the topic text for one connection.
pub fn make_topic(prefix: &str, ip: &Ipv4Address) -> (t: String)
    ensures
        t@ == topic_chars(prefix@, *ip),
{
    let mut t = String::from_str(prefix);
    t.append("/");
    t.append(ip.dotted().as_str());
    proof {
        reveal_strlit("/");
        assert("/"@ =~= seq!['/']);
    }
    t
}

/// What one read attempt on the connection yielded, as the runtime saw it.
#[derive(Debug)]
pub enum ReadOutcome {
    /// The read returned zero bytes: the peer closed cleanly.
    Closed,
    /// The read delivered these bytes.
    Data(Vec<u8>),
    /// The readiness wake-up was spurious; the read would have blocked.
    WouldBlock,
    /// The read failed with any other error.
    ReadError,
}

/// What the relay asks the runtime to do after a read.
#[derive(Debug)]
pub enum ReadDirective {
    /// Hand this message to the broker client, block until it acknowledges
    /// the hand-off, and report through [`Relay::on_publish_result`].
    Publish(Message),
    /// Wait for readability and read again. Not an error: nothing is logged
    /// and nothing is published.
    Retry,
    /// The connection is over; the relay returns success.
    Finish,
    /// The relay returns the read error to its caller.
    Fail,
}

/// What the relay asks the runtime to do after a publish hand-off.
#[derive(Clone, Copy, PartialEq, Eq, Structural, Debug)]
pub enum PublishDirective {
    /// Log the elapsed time and the payload's hex dump, then wait for the
    /// next read.
    LogAndContinue,
    /// The relay returns the publish error to its caller.
    Fail,
}

/// Where one connection's relay stands.
#[derive(Clone, Copy, PartialEq, Eq, Structural, Debug)]
pub enum RelayState {
    /// Waiting for the socket to turn readable.
    ReadPending,
    /// A message was handed over; waiting for the broker's acknowledgement.
    Publishing,
    /// The peer closed cleanly. Terminal: the relay succeeded.
    Closed,
    /// A read or publish failed. Terminal: the relay reports the error.
    Failed,
}

/// The per-connection context: the topic fixed when the connection started,
/// the configured quality of service, and the current state.
#[derive(Debug)]
pub struct Relay {
    pub topic: String,
    pub qos: u8,
    pub state: RelayState,
}

impl Relay {
    /// A well-formed relay carries a quality-of-service level the broker
    /// protocol knows.
    pub open spec fn wf(self) -> bool {
        self.qos <= 2
    }

    /// Opens the relay for one accepted connection: computes the topic from
    /// the configured prefix and the peer's address, and waits for the first
    /// read.
    pub fn start(prefix: &str, peer: &Ipv4Address, qos: u8) -> (r: Relay)
        requires
            qos <= 2,
        ensures
            r.topic@ == topic_chars(prefix@, *peer),
            r.qos == qos,
            r.state == RelayState::ReadPending,
            r.wf(),
    {
        Relay { topic: make_topic(prefix, peer), qos, state: RelayState::ReadPending }
    }

    /// Advances the relay on one read outcome. Data becomes exactly one
    /// message, built fresh, under the connection's topic, with the
    /// configured quality of service and retained off; a clean close
    /// finishes the relay; a would-block wake-up changes nothing; any other
    /// error fails the relay. The topic and quality of service never change.
    pub fn on_read(&mut self, outcome: ReadOutcome) -> (d: ReadDirective)
        requires
            old(self).state == RelayState::ReadPending,
            old(self).wf(),
        ensures
            final(self).topic@ == old(self).topic@,
            final(self).qos == old(self).qos,
            final(self).wf(),
            outcome matches ReadOutcome::Closed ==> final(self).state == RelayState::Closed
                && d == ReadDirective::Finish,
            outcome matches ReadOutcome::Data(p) ==> {
                &&& final(self).state == RelayState::Publishing
                &&& d matches ReadDirective::Publish(m) && m.wf() && m.model() == (MessageModel {
                    topic: old(self).topic@,
                    payload: p@,
                    qos: old(self).qos,
                    retained: false,
                })
            },
            outcome matches ReadOutcome::WouldBlock ==> final(self).state
                == RelayState::ReadPending && d == ReadDirective::Retry,
            outcome matches ReadOutcome::ReadError ==> final(self).state == RelayState::Failed
                && d == ReadDirective::Fail,
    {
        match outcome {
            ReadOutcome::Closed => {
                self.state = RelayState::Closed;
                ReadDirective::Finish
            },
            ReadOutcome::Data(payload) => {
                self.state = RelayState::Publishing;
                ReadDirective::Publish(
                    Message {
                        topic: self.topic.clone(),
                        payload,
                        qos: self.qos,
                        retained: false,
                    },
                )
            },
            ReadOutcome::WouldBlock => ReadDirective::Retry,
            ReadOutcome::ReadError => {
                self.state = RelayState::Failed;
                ReadDirective::Fail
            },
        }
    }

    /// Advances the relay on the broker's answer to a hand-off: back to
    /// reading if the broker accepted the message, failed otherwise. The
    /// topic and quality of service never change.
    pub fn on_publish_result(&mut self, accepted: bool) -> (d: PublishDirective)
        requires
            old(self).state == RelayState::Publishing,
            old(self).wf(),
        ensures
            final(self).topic@ == old(self).topic@,
            final(self).qos == old(self).qos,
            final(self).wf(),
            accepted ==> final(self).state == RelayState::ReadPending && d
                == PublishDirective::LogAndContinue,
            !accepted ==> final(self).state == RelayState::Failed && d == PublishDirective::Fail,
    {
        if accepted {
            self.state = RelayState::ReadPending;
            PublishDirective::LogAndContinue
        } else {
            self.state = RelayState::Failed;
            PublishDirective::Fail
        }
    }
}

/// One read cycle of a connection, seen after the fact. A whole connection
/// is a sequence of these, and the laws below say what the relay publishes
/// over any such sequence.
pub enum ConnectionEvent {
    /// A readiness wake-up that yielded no data.
    WouldBlock,
    /// A read that delivered these bytes, and whether the broker accepted
    /// the hand-off of the message built from them.
    Data { payload: Seq<u8>, accepted: bool },
    /// A read of zero bytes: the peer closed cleanly.
    Closed,
    /// A failed read.
    ReadError,
}

/// The payload a delivering read carried.
pub open spec fn event_payload(e: ConnectionEvent) -> Seq<u8> {
    match e {
        ConnectionEvent::Data { payload, .. } => payload,
        _ => Seq::empty(),
    }
}

/// The messages a connection with this topic and quality of service
/// publishes over these events, in order. Each accepted hand-off publishes
/// exactly one message; a rejected hand-off, a clean close or a read error
/// ends the connection, and later events are out of its life.
pub open spec fn published_messages(topic: Seq<char>, qos: u8, events: Seq<ConnectionEvent>) -> Seq<
    MessageModel,
>
    decreases events.len(),
{
    if events.len() == 0 {
        Seq::empty()
    } else {
        match events.first() {
            ConnectionEvent::WouldBlock => published_messages(topic, qos, events.drop_first()),
            ConnectionEvent::Data { payload, accepted } => if accepted {
                seq![(MessageModel { topic, payload, qos, retained: false })]
                    + published_messages(topic, qos, events.drop_first())
            } else {
                Seq::empty()
            },
            ConnectionEvent::Closed => Seq::empty(),
            ConnectionEvent::ReadError => Seq::empty(),
        }
    }
}

/// How a connection's relay ends over these events.
pub enum ConnectionEnd {
    /// The peer closed cleanly; the relay returns success.
    CleanClose,
    /// A read or a hand-off failed; the relay returns the error.
    Failed,
    /// The events ran out with the connection still open.
    StillOpen,
}

/// The relay's end over these events: the first terminal event decides.
pub open spec fn connection_end(events: Seq<ConnectionEvent>) -> ConnectionEnd
    decreases events.len(),
{
    if events.len() == 0 {
        ConnectionEnd::StillOpen
    } else {
        match events.first() {
            ConnectionEvent::WouldBlock => connection_end(events.drop_first()),
            ConnectionEvent::Data { payload, accepted } => if accepted {
                connection_end(events.drop_first())
            } else {
                ConnectionEnd::Failed
            },
            ConnectionEvent::Closed => ConnectionEnd::CleanClose,
            ConnectionEvent::ReadError => ConnectionEnd::Failed,
        }
    }
}

/// Law: every message a connection publishes carries that connection's
/// topic and configured quality of service, and none is retained — the
/// topic is fixed once per connection, not per message, whatever the
/// events were.
pub proof fn lemma_topic_stable(topic: Seq<char>, qos: u8, events: Seq<ConnectionEvent>)
    ensures
        forall|i: int| 0 <= i < published_messages(topic, qos, events).len() ==> {
            let m = #[trigger] published_messages(topic, qos, events)[i];
            m.topic == topic && m.qos == qos && m.retained == false
        },
    decreases events.len(),
{
    if events.len() == 0 {
    } else {
        let rest = events.drop_first();
        lemma_topic_stable(topic, qos, rest);
        match events.first() {
            ConnectionEvent::Data { payload, accepted } => {
                if accepted {
                    assert forall|i: int|
                        0 <= i < published_messages(topic, qos, events).len() implies {
                        let m = #[trigger] published_messages(topic, qos, events)[i];
                        m.topic == topic && m.qos == qos && m.retained == false
                    } by {
                        if i > 0 {
                            assert(published_messages(topic, qos, events)[i]
                                == published_messages(topic, qos, rest)[i - 1]);
                        }
                    }
                }
            },
            _ => {},
        }
    }
}

/// Law: a connection whose reads each deliver bytes the broker accepts, and
/// which then closes cleanly, publishes exactly one message per delivering
/// read, in order and byte-for-byte equal to what was read, and its relay
/// ends in a clean close.
pub proof fn lemma_clean_connection_publishes_all(
    topic: Seq<char>,
    qos: u8,
    events: Seq<ConnectionEvent>,
)
    requires
        events.len() >= 1,
        events.last() == ConnectionEvent::Closed,
        forall|i: int| 0 <= i < events.len() - 1 ==> ((#[trigger] events[i]) matches
            ConnectionEvent::Data { accepted, .. } && accepted),
    ensures
        published_messages(topic, qos, events).len() == events.len() - 1,
        forall|i: int| 0 <= i < events.len() - 1 ==> {
            let m = #[trigger] published_messages(topic, qos, events)[i];
            m.payload == event_payload(events[i]) && m.topic == topic && m.qos == qos
                && m.retained == false
        },
        connection_end(events) == ConnectionEnd::CleanClose,
    decreases events.len(),
{
    if events.len() == 1 {
        assert(events.first() == events.last());
    } else {
        let rest = events.drop_first();
        assert(rest.last() == events.last());
        assert forall|i: int| 0 <= i < rest.len() - 1 implies ((#[trigger] rest[i]) matches
            ConnectionEvent::Data { accepted, .. } && accepted) by {
            assert(rest[i] == events[i + 1]);
        }
        lemma_clean_connection_publishes_all(topic, qos, rest);
        assert((events[0] matches ConnectionEvent::Data { accepted, .. } && accepted));
        assert forall|i: int| 0 <= i < events.len() - 1 implies {
            let m = #[trigger] published_messages(topic, qos, events)[i];
            m.payload == event_payload(events[i]) && m.topic == topic && m.qos == qos
                && m.retained == false
        } by {
            if i > 0 {
                assert(published_messages(topic, qos, events)[i] == published_messages(
                    topic,
                    qos,
                    rest,
                )[i - 1]);
                assert(events[i] == rest[i - 1]);
            }
        }
    }
}

/// Law: a connection that closes without ever delivering data publishes
/// nothing and its relay ends in a clean close, however many spurious
/// wake-ups preceded the close.
pub proof fn lemma_silent_connection_publishes_nothing(
    topic: Seq<char>,
    qos: u8,
    events: Seq<ConnectionEvent>,
)
    requires
        events.len() >= 1,
        events.last() == ConnectionEvent::Closed,
        forall|i: int| 0 <= i < events.len() - 1 ==> (#[trigger] events[i])
            == ConnectionEvent::WouldBlock,
    ensures
        published_messages(topic, qos, events).len() == 0,
        connection_end(events) == ConnectionEnd::CleanClose,
    decreases events.len(),
{
    if events.len() == 1 {
        assert(events.first() == events.last());
    } else {
        let rest = events.drop_first();
        assert(rest.last() == events.last());
        assert forall|i: int| 0 <= i < rest.len() - 1 implies (#[trigger] rest[i])
            == ConnectionEvent::WouldBlock by {
            assert(rest[i] == events[i + 1]);
        }
        lemma_silent_connection_publishes_nothing(topic, qos, rest);
        assert(events[0] == ConnectionEvent::WouldBlock);
    }
}

/// Law: a would-block wake-up is invisible. Inserting one anywhere in a
/// connection's events changes neither the published messages nor how the
/// connection ends: it produces no message, no error, and never terminates
/// the read loop.
pub proof fn lemma_would_block_invisible(
    topic: Seq<char>,
    qos: u8,
    pre: Seq<ConnectionEvent>,
    post: Seq<ConnectionEvent>,
)
    ensures
        published_messages(topic, qos, pre + seq![ConnectionEvent::WouldBlock] + post)
            == published_messages(topic, qos, pre + post),
        connection_end(pre + seq![ConnectionEvent::WouldBlock] + post) == connection_end(
            pre + post,
        ),
    decreases pre.len(),
{
    let wb = seq![ConnectionEvent::WouldBlock];
    if pre.len() == 0 {
        assert(pre + wb + post =~= wb + post);
        assert((wb + post).first() == ConnectionEvent::WouldBlock);
        assert((wb + post).drop_first() =~= post);
        assert(pre + post =~= post);
    } else {
        lemma_would_block_invisible(topic, qos, pre.drop_first(), post);
        assert((pre + wb + post).first() == pre.first());
        assert((pre + post).first() == pre.first());
        assert((pre + wb + post).drop_first() =~= pre.drop_first() + wb + post);
        assert((pre + post).drop_first() =~= pre.drop_first() + post);
    }
}

/// Law: re-sending the same bytes over two connections with the same topic
/// and quality of service publishes the same messages — the relay keeps no
/// state across connections, so what a connection publishes depends only on
/// its own topic, quality of service and events.
pub proof fn lemma_no_cross_connection_leakage(
    topic1: Seq<char>,
    qos1: u8,
    events1: Seq<ConnectionEvent>,
    topic2: Seq<char>,
    qos2: u8,
    events2: Seq<ConnectionEvent>,
)
    requires
        topic1 == topic2,
        qos1 == qos2,
        events1 == events2,
    ensures
        published_messages(topic1, qos1, events1) == published_messages(topic2, qos2, events2),
        connection_end(events1) == connection_end(events2),
{
}

} // verus!
