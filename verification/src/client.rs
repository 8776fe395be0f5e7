//! The client façade's protocol logic.
//!
//! Three operations ride on the multiplexer: a one-shot request, a streamed
//! request whose items arrive as events interleaved with the exchange, and
//! an open-ended subscription.  This module decides each protocol step —
//! which packet to write next, how each delivery is classified, and when
//! the exchange is over — over plain values; the async channel plumbing and
//! the message-body codec live outside the verified library, and bodies
//! pass through here as opaque bytes.

use vstd::prelude::*;

use crate::error::{Error, ErrorCode};
use crate::packet::Packet;
use crate::packet_type::{PacketType, PacketTypeV};

verus! {

/// The `{success?, errmsg?}` summary carried by the `CMD_RESPONSE` that
/// terminates a streamed request.
#[derive(Debug)]
pub struct Response {
    pub success: Option<bool>,
    pub errmsg: Option<String>,
}

/// Builds the packet of a command request carrying an encoded body.
pub fn request_packet(cmd: Vec<u8>, body: Vec<u8>) -> (r: Packet)
    requires
        cmd@.len() <= 255,
    ensures
        r@.packet_type == PacketTypeV::CmdRequest(cmd@),
        r@.payload == body@,
        r.wf(),
{
    Packet::new(PacketType::CmdRequest(cmd), body)
}

/// Interprets the single delivery of a one-shot request: the body of the
/// response packet on success, the delivered error as it is, and a
/// listener-closed error when the exchange sink was dropped undelivered.
pub fn request_reply(delivery: Option<Result<Packet, Error>>) -> (r: Result<Vec<u8>, Error>)
    ensures
        delivery matches Some(Ok(p)) ==> r matches Ok(body) && body@ == p@.payload,
        delivery matches Some(Err(e)) ==> r matches Err(e2) && e2 == e,
        delivery is None ==> (r matches Err(e) && e.spec_code() == ErrorCode::ListenerClosed),
{
    match delivery {
        Some(Ok(packet)) => Ok(packet.into_parts().1),
        Some(Err(e)) => Err(e),
        None => Err(Error::data(ErrorCode::ListenerClosed)),
    }
}

/// The phase of a streamed request.
#[derive(Clone, Copy, PartialEq, Eq, Structural, Debug)]
pub enum StreamPhase {
    /// The opening `EVENT_REGISTER` is in flight, awaiting `EVENT_CONFIRM`.
    Registering,
    /// Items are being consumed until the `CMD_RESPONSE` arrives.
    Streaming,
    /// The closing `EVENT_UNREGISTER` is in flight, awaiting
    /// `EVENT_CONFIRM`.
    Unregistering,
    /// The exchange is over.
    Done,
}

/// One delivery's effect on a streamed request, as decided by
/// [`StreamRequest::on_stream_packet`].
#[derive(Debug)]
pub enum StreamStep {
    /// An `EVENT` item: its body is yielded to the consumer.
    Item(Vec<u8>),
    /// The terminal `CMD_RESPONSE`: its body holds the summary, and the
    /// closing `EVENT_UNREGISTER` follows.
    Terminal(Vec<u8>),
    /// Anything else ends the exchange with an unexpected-packet error.
    Failed(Error),
}

/// The protocol state of one streamed request.
///
/// The exchange runs: `EVENT_REGISTER(event)` — `EVENT_CONFIRM` —
/// `CMD_REQUEST(cmd)` — any number of `EVENT(event)` items — one
/// `CMD_RESPONSE` — `EVENT_UNREGISTER(event)` — `EVENT_CONFIRM`; only then
/// does a `success == no` summary surface as a command-failed error.  The
/// phase preconditions force that order.
#[derive(Debug)]
pub struct StreamRequest {
    cmd: Vec<u8>,
    event: Vec<u8>,
    phase: StreamPhase,
}

impl StreamRequest {
    /// The command name as wire bytes.
    pub closed spec fn cmd(self) -> Seq<u8> {
        self.cmd@
    }

    /// The event name as wire bytes.
    pub closed spec fn event(self) -> Seq<u8> {
        self.event@
    }

    /// Where the exchange stands.
    pub closed spec fn phase(self) -> StreamPhase {
        self.phase
    }

    /// Both names fit their one-byte length prefix.
    pub open spec fn wf(self) -> bool {
        self.cmd().len() <= 255 && self.event().len() <= 255
    }

    /// Starts a streamed request of command `cmd` streaming `event` items.
    pub fn new(cmd: Vec<u8>, event: Vec<u8>) -> (r: StreamRequest)
        requires
            cmd@.len() <= 255,
            event@.len() <= 255,
        ensures
            r.cmd() == cmd@,
            r.event() == event@,
            r.phase() == StreamPhase::Registering,
            r.wf(),
    {
        StreamRequest { cmd, event, phase: StreamPhase::Registering }
    }

    /// The opening `EVENT_REGISTER` packet; registrations carry an empty
    /// body.
    pub fn register_packet(&self) -> (r: Packet)
        requires
            self.wf(),
            self.phase() == StreamPhase::Registering,
        ensures
            r@.packet_type == PacketTypeV::EventRegister(self.event()),
            r@.payload == Seq::<u8>::empty(),
            r.wf(),
    {
        Packet::new(PacketType::EventRegister(copy_bytes(&self.event)), Vec::new())
    }

    /// Acknowledges the opening confirmation: the command can be sent and
    /// streaming begins.
    pub fn on_registered(&mut self)
        requires
            old(self).phase() == StreamPhase::Registering,
        ensures
            final(self).phase() == StreamPhase::Streaming,
            final(self).cmd() == old(self).cmd(),
            final(self).event() == old(self).event(),
    {
        self.phase = StreamPhase::Streaming;
    }

    /// The command packet, carrying the encoded request body.
    pub fn command_packet(&self, body: Vec<u8>) -> (r: Packet)
        requires
            self.wf(),
            self.phase() == StreamPhase::Streaming,
        ensures
            r@.packet_type == PacketTypeV::CmdRequest(self.cmd()),
            r@.payload == body@,
            r.wf(),
    {
        Packet::new(PacketType::CmdRequest(copy_bytes(&self.cmd)), body)
    }

    /// Classifies one delivered packet while streaming: `EVENT` bodies are
    /// items, the first `CMD_RESPONSE` body is the terminal summary and
    /// moves the exchange to unregistering, and any other type ends the
    /// exchange with an unexpected-packet error.
    pub fn on_stream_packet(&mut self, packet: Packet) -> (r: StreamStep)
        requires
            old(self).phase() == StreamPhase::Streaming,
        ensures
            final(self).cmd() == old(self).cmd(),
            final(self).event() == old(self).event(),
            packet@.packet_type is Event ==> ({
                &&& r matches StreamStep::Item(body) && body@ == packet@.payload
                &&& final(self).phase() == StreamPhase::Streaming
            }),
            packet@.packet_type is CmdResponse ==> ({
                &&& r matches StreamStep::Terminal(body) && body@ == packet@.payload
                &&& final(self).phase() == StreamPhase::Unregistering
            }),
            !(packet@.packet_type is Event || packet@.packet_type is CmdResponse) ==> ({
                &&& r matches StreamStep::Failed(e)
                &&& e.spec_code() matches ErrorCode::UnexpectedPacket(t) && t@
                    == packet@.packet_type
                &&& final(self).phase() == StreamPhase::Done
            }),
    {
        match packet.packet_type() {
            PacketType::Event(_) => StreamStep::Item(packet.into_parts().1),
            PacketType::CmdResponse => {
                self.phase = StreamPhase::Unregistering;
                StreamStep::Terminal(packet.into_parts().1)
            },
            _ => {
                self.phase = StreamPhase::Done;
                StreamStep::Failed(Error::data(ErrorCode::UnexpectedPacket(packet.into_parts().0)))
            },
        }
    }

    /// The closing `EVENT_UNREGISTER` packet; like registrations it
    /// carries an empty body.
    pub fn unregister_packet(&self) -> (r: Packet)
        requires
            self.wf(),
            self.phase() == StreamPhase::Unregistering,
        ensures
            r@.packet_type == PacketTypeV::EventUnregister(self.event()),
            r@.payload == Seq::<u8>::empty(),
            r.wf(),
    {
        Packet::new(PacketType::EventUnregister(copy_bytes(&self.event)), Vec::new())
    }

    /// Acknowledges the closing confirmation and settles the exchange from
    /// the captured summary: a command-failed error exactly when the
    /// daemon reported `success == no`, carrying its optional message.
    pub fn on_unregistered(&mut self, response: Response) -> (r: Result<(), Error>)
        requires
            old(self).phase() == StreamPhase::Unregistering,
        ensures
            final(self).phase() == StreamPhase::Done,
            final(self).cmd() == old(self).cmd(),
            final(self).event() == old(self).event(),
            response.success == Some(false) ==> (r matches Err(e) && e.spec_code()
                == ErrorCode::CommandFailed(response.errmsg)),
            response.success != Some(false) ==> r is Ok,
    {
        self.phase = StreamPhase::Done;
        match response.success {
            Some(false) => Err(Error::data(ErrorCode::CommandFailed(response.errmsg))),
            _ => Ok(()),
        }
    }
}

/// The protocol state of one open-ended subscription: register, then yield
/// every `EVENT(event)` until the consumer goes away; the teardown then
/// sends the unregistration.
#[derive(Debug)]
pub struct Subscribe {
    event: Vec<u8>,
    registered: bool,
}

impl Subscribe {
    /// The event name as wire bytes.
    pub closed spec fn event(self) -> Seq<u8> {
        self.event@
    }

    /// The opening confirmation has arrived.
    pub closed spec fn registered(self) -> bool {
        self.registered
    }

    /// The name fits its one-byte length prefix.
    pub open spec fn wf(self) -> bool {
        self.event().len() <= 255
    }

    /// Starts a subscription to `event`.
    pub fn new(event: Vec<u8>) -> (r: Subscribe)
        requires
            event@.len() <= 255,
        ensures
            r.event() == event@,
            !r.registered(),
            r.wf(),
    {
        Subscribe { event, registered: false }
    }

    /// The opening `EVENT_REGISTER` packet (empty body).
    pub fn register_packet(&self) -> (r: Packet)
        requires
            self.wf(),
            !self.registered(),
        ensures
            r@.packet_type == PacketTypeV::EventRegister(self.event()),
            r@.payload == Seq::<u8>::empty(),
            r.wf(),
    {
        Packet::new(PacketType::EventRegister(copy_bytes(&self.event)), Vec::new())
    }

    /// Acknowledges the opening confirmation: events flow from here on.
    pub fn on_registered(&mut self)
        requires
            !old(self).registered(),
        ensures
            final(self).registered(),
            final(self).event() == old(self).event(),
    {
        self.registered = true;
    }

    /// Classifies one delivered packet: an `EVENT` body is an item for the
    /// consumer; any other type is an unexpected-packet error.
    pub fn on_event_packet(&self, packet: Packet) -> (r: Result<Vec<u8>, Error>)
        requires
            self.registered(),
        ensures
            packet@.packet_type is Event ==> (r matches Ok(body) && body@ == packet@.payload),
            !(packet@.packet_type is Event) ==> (r matches Err(e) && e.spec_code() matches
                ErrorCode::UnexpectedPacket(t) && t@ == packet@.packet_type),
    {
        match packet.packet_type() {
            PacketType::Event(_) => Ok(packet.into_parts().1),
            _ => Err(Error::data(ErrorCode::UnexpectedPacket(packet.into_parts().0))),
        }
    }

    /// The closing `EVENT_UNREGISTER` packet (empty body), sent by the
    /// teardown once the consumer is gone.
    pub fn unregister_packet(&self) -> (r: Packet)
        requires
            self.wf(),
        ensures
            r@.packet_type == PacketTypeV::EventUnregister(self.event()),
            r@.payload == Seq::<u8>::empty(),
            r.wf(),
    {
        Packet::new(PacketType::EventUnregister(copy_bytes(&self.event)), Vec::new())
    }
}

/// A fresh copy of a name's bytes.
fn copy_bytes(v: &Vec<u8>) -> (r: Vec<u8>)
    ensures
        r@ == v@,
{
    vstd::slice::slice_to_vec(v.as_slice())
}

} // verus!
