//! The session multiplexer's routing state.
//!
//! A single task owns the transport and everything mutable: the FIFO of
//! pending command sinks, the FIFO of pending event (de)registrations, the
//! subscription table from event name to sink, and the optional background
//! error sink.  The wire protocol has no correlation identifiers, so
//! responses are matched to requests purely by arrival order and events are
//! routed by name; this module decides every such step and is verified.
//! The surrounding task performs the writes and sink deliveries that the
//! decisions call for.
//!
//! The type parameter `H` is the sink handle onto which exchange results
//! are posted, and `E` the sink handle for background errors; this module
//! never inspects either, it only stores and hands out handles.

use vstd::prelude::*;

use crate::error::{Error, ErrorCode};
use crate::packet::Packet;
use crate::packet_type::{PacketType, PacketTypeV};

verus! {

/// Whether a pending event request registers or unregisters the event.
#[derive(Clone, Copy, PartialEq, Eq, Structural, Debug)]
pub enum Registration {
    Register,
    Unregister,
}

/// One pending event (de)registration: the event name as wire bytes, the
/// direction, and the sink awaiting the daemon's answer.
#[derive(Debug)]
pub struct EventRequest<H> {
    pub event: Vec<u8>,
    pub registration: Registration,
    pub handler: H,
}

/// One subscription-table entry: every inbound `EVENT` packet carrying
/// `event` is delivered to `handler`.
#[derive(Debug)]
pub struct Subscription<H> {
    pub event: Vec<u8>,
    pub handler: H,
}

/// The subscription table as a mathematical map from event name to sink.
pub open spec fn sub_map<H>(subs: Seq<Subscription<H>>) -> Map<Seq<u8>, H>
    decreases subs.len(),
{
    if subs.len() == 0 {
        Map::empty()
    } else {
        sub_map(subs.drop_last()).insert(subs.last().event@, subs.last().handler)
    }
}

/// There is an entry for `name`.
pub open spec fn has_sub<H>(subs: Seq<Subscription<H>>, name: Seq<u8>) -> bool {
    exists|i: int| 0 <= i < subs.len() && (#[trigger] subs[i]).event@ == name
}

/// Entries have pairwise distinct names, so the table is a map.
pub open spec fn subs_wf<H>(subs: Seq<Subscription<H>>) -> bool {
    forall|i: int, j: int|
        0 <= i < j < subs.len() ==> (#[trigger] subs[i]).event@ != (#[trigger] subs[j]).event@
}

proof fn lemma_sub_map_contains<H>(subs: Seq<Subscription<H>>, name: Seq<u8>)
    ensures
        sub_map(subs).contains_key(name) <==> has_sub(subs, name),
    decreases subs.len(),
{
    if subs.len() > 0 {
        let dl = subs.drop_last();
        lemma_sub_map_contains(dl, name);
        if subs.last().event@ == name {
            assert(subs[subs.len() - 1].event@ == name);
        } else if has_sub(dl, name) {
            let i = choose|i: int| 0 <= i < dl.len() && (#[trigger] dl[i]).event@ == name;
            assert(subs[i].event@ == name);
        } else if has_sub(subs, name) {
            let i = choose|i: int| 0 <= i < subs.len() && (#[trigger] subs[i]).event@ == name;
            assert(dl[i].event@ == name);
        }
    }
}

proof fn lemma_sub_map_index<H>(subs: Seq<Subscription<H>>, i: int)
    requires
        subs_wf(subs),
        0 <= i < subs.len(),
    ensures
        sub_map(subs).contains_key(subs[i].event@),
        sub_map(subs)[subs[i].event@] == subs[i].handler,
    decreases subs.len(),
{
    if i < subs.len() - 1 {
        let dl = subs.drop_last();
        lemma_sub_map_index(dl, i);
        assert(subs[i].event@ != subs.last().event@);
    }
}

proof fn lemma_sub_map_push<H>(subs: Seq<Subscription<H>>, s: Subscription<H>)
    ensures
        sub_map(subs.push(s)) == sub_map(subs).insert(s.event@, s.handler),
{
    assert(subs.push(s).drop_last() =~= subs);
}

proof fn lemma_sub_map_remove<H>(subs: Seq<Subscription<H>>, i: int)
    requires
        subs_wf(subs),
        0 <= i < subs.len(),
    ensures
        sub_map(subs.remove(i)) == sub_map(subs).remove(subs[i].event@),
    decreases subs.len(),
{
    let dl = subs.drop_last();
    let name = subs[i].event@;
    if i == subs.len() - 1 {
        assert(subs.remove(i) =~= dl);
        assert(!has_sub(dl, name)) by {
            if has_sub(dl, name) {
                let j = choose|j: int| 0 <= j < dl.len() && (#[trigger] dl[j]).event@ == name;
                assert(subs[j].event@ == subs[i].event@);
            }
        }
        lemma_sub_map_contains(dl, name);
        assert(sub_map(dl).remove(name) =~= sub_map(dl));
        assert(sub_map(subs).remove(name) =~= sub_map(dl));
    } else {
        lemma_sub_map_remove(dl, i);
        assert(subs.remove(i).drop_last() =~= dl.remove(i));
        assert(subs.remove(i).last() == subs.last());
        assert(subs[i].event@ != subs.last().event@);
        assert(sub_map(subs.remove(i)) == sub_map(dl.remove(i)).insert(
            subs.last().event@,
            subs.last().handler,
        ));
        assert(sub_map(dl).remove(name).insert(subs.last().event@, subs.last().handler) =~= sub_map(
            dl,
        ).insert(subs.last().event@, subs.last().handler).remove(name));
    }
}

proof fn lemma_subs_wf_remove<H>(subs: Seq<Subscription<H>>, i: int)
    requires
        subs_wf(subs),
        0 <= i < subs.len(),
    ensures
        subs_wf(subs.remove(i)),
{
    let r = subs.remove(i);
    assert forall|a: int, b: int| 0 <= a < b < r.len() implies (#[trigger] r[a]).event@ != (
    #[trigger] r[b]).event@ by {
        let a0 = if a < i {
            a
        } else {
            a + 1
        };
        let b0 = if b < i {
            b
        } else {
            b + 1
        };
        assert(r[a] == subs[a0]);
        assert(r[b] == subs[b0]);
    }
}

proof fn lemma_subs_wf_push<H>(subs: Seq<Subscription<H>>, s: Subscription<H>)
    requires
        subs_wf(subs),
        !has_sub(subs, s.event@),
    ensures
        subs_wf(subs.push(s)),
{
    let r = subs.push(s);
    assert forall|a: int, b: int| 0 <= a < b < r.len() implies (#[trigger] r[a]).event@ != (
    #[trigger] r[b]).event@ by {
        if b < subs.len() {
            assert(r[a] == subs[a]);
            assert(r[b] == subs[b]);
        } else {
            assert(r[a] == subs[a]);
            assert(subs[a].event@ != s.event@);
        }
    }
}

/// Byte-wise equality of two names.
fn names_equal(a: &Vec<u8>, b: &Vec<u8>) -> (r: bool)
    ensures
        r == (a@ == b@),
{
    if a.len() != b.len() {
        return false;
    }
    let mut i: usize = 0;
    while i < a.len()
        invariant
            i <= a@.len(),
            a@.len() == b@.len(),
            forall|j: int| 0 <= j < i ==> a@[j] == b@[j],
        decreases a@.len() - i,
    {
        if a[i] != b[i] {
            return false;
        }
        i = i + 1;
    }
    proof {
        assert(a@ =~= b@);
    }
    true
}

/// What the multiplexer must do with one inbound packet, as decided by
/// [`Listener::on_response`].  The surrounding task performs the delivery.
#[derive(Debug)]
pub enum Routing<H> {
    /// `CMD_RESPONSE` popped the oldest pending command sink: deliver
    /// `Ok(packet)` to `handler`.
    CommandResponse { handler: H, packet: Packet },
    /// `CMD_UNKNOWN` popped the oldest pending command sink: deliver
    /// `Err(error)`, an unknown-command error, to `handler`.
    CommandUnknown { handler: H, error: Error },
    /// `EVENT_CONFIRM` popped a pending registration: deliver `Ok(packet)`
    /// to `handler`, then complete the registration with
    /// [`Listener::finish_register`].
    RegisterConfirmed { event: Vec<u8>, handler: H, packet: Packet },
    /// `EVENT_CONFIRM` popped a pending unregistration (the subscription,
    /// if any, is already removed): deliver `Ok(packet)` to `handler`.
    UnregisterConfirmed { handler: H, packet: Packet },
    /// `EVENT_UNKNOWN` popped a pending (de)registration: deliver
    /// `Err(error)`, an unknown-event error, to `handler`.
    EventRequestUnknown { handler: H, error: Error },
    /// An `EVENT` packet matched the subscription at `index`: deliver
    /// `Ok(packet)` to that subscriber's sink.
    SubscriptionDelivery { index: usize, packet: Packet },
    /// Nothing to deliver: `error` is a background error.
    Background { error: Error },
}

/// Inbound packets that match no pending exchange and no subscription:
/// [`Listener::on_response`] routes exactly these as background errors.
pub open spec fn unexpected_inbound<H, E>(l: Listener<H, E>, pt: PacketTypeV) -> bool {
    match pt {
        PacketTypeV::CmdResponse => l.commands().len() == 0,
        PacketTypeV::CmdUnknown => l.commands().len() == 0,
        PacketTypeV::EventConfirm => l.events().len() == 0,
        PacketTypeV::EventUnknown => l.events().len() == 0,
        PacketTypeV::Event(name) => !l.subscriptions().contains_key(name),
        // the request types: the daemon must never send these
        PacketTypeV::CmdRequest(_) => true,
        PacketTypeV::EventRegister(_) => true,
        PacketTypeV::EventUnregister(_) => true,
    }
}

/// The multiplexer's mutable state: both FIFOs, the subscription table and
/// the background-error sink.
#[derive(Debug)]
pub struct Listener<H, E> {
    command_queue: Vec<H>,
    event_queue: Vec<EventRequest<H>>,
    event_subscriptions: Vec<Subscription<H>>,
    error_handler: Option<E>,
}

impl<H, E> Listener<H, E> {
    /// The pending command sinks, oldest first: one per command request
    /// written to the wire whose terminal response has not yet arrived.
    pub closed spec fn commands(self) -> Seq<H> {
        self.command_queue@
    }

    /// The pending event (de)registrations, oldest first: one per
    /// `EVENT_REGISTER` / `EVENT_UNREGISTER` packet in flight.
    pub closed spec fn events(self) -> Seq<EventRequest<H>> {
        self.event_queue@
    }

    /// The subscription-table entries.
    pub closed spec fn subs(self) -> Seq<Subscription<H>> {
        self.event_subscriptions@
    }

    /// The subscription table as a map from event name to sink.
    pub open spec fn subscriptions(self) -> Map<Seq<u8>, H> {
        sub_map(self.subs())
    }

    /// The background-error sink, if one is installed.
    pub closed spec fn error_sink(self) -> Option<E> {
        self.error_handler
    }

    /// Subscription names are pairwise distinct.
    pub open spec fn wf(self) -> bool {
        subs_wf(self.subs())
    }

    /// A fresh multiplexer state: nothing pending, nothing subscribed, no
    /// error sink.
    pub fn new() -> (r: Listener<H, E>)
        ensures
            r.commands() == Seq::<H>::empty(),
            r.events() == Seq::<EventRequest<H>>::empty(),
            r.subs() == Seq::<Subscription<H>>::empty(),
            r.subscriptions() == Map::<Seq<u8>, H>::empty(),
            r.error_sink() is None,
            r.wf(),
    {
        Listener {
            command_queue: Vec::new(),
            event_queue: Vec::new(),
            event_subscriptions: Vec::new(),
            error_handler: None,
        }
    }

    /// Outbound command-request step: the request packet was already
    /// written to the transport, with result `write_ok`.  On a successful
    /// write the reply sink joins the command FIFO and `None` comes back;
    /// on a failed write nothing is enqueued and the sink is handed back
    /// so the write error can be delivered to it (a sink found closed at
    /// that delivery is a handler-closed-while-command-request background
    /// error).
    pub fn on_command_request(&mut self, handler: H, write_ok: bool) -> (r: Option<H>)
        ensures
            write_ok ==> final(self).commands() == old(self).commands().push(handler) && r is None,
            !write_ok ==> final(self).commands() == old(self).commands() && r == Some(handler),
            final(self).events() == old(self).events(),
            final(self).subs() == old(self).subs(),
            final(self).error_sink() == old(self).error_sink(),
    {
        if write_ok {
            self.command_queue.push(handler);
            None
        } else {
            Some(handler)
        }
    }

    /// Outbound event-request step: the `EVENT_REGISTER` or
    /// `EVENT_UNREGISTER` packet was already written, with result
    /// `write_ok`.  On a successful write the request joins the event
    /// FIFO; on a failed write it is handed back so the write error can be
    /// delivered to its sink (a sink found closed at that delivery is a
    /// handler-closed-while-event-request background error).
    pub fn on_event_request(&mut self, request: EventRequest<H>, write_ok: bool) -> (r: Option<
        EventRequest<H>,
    >)
        ensures
            write_ok ==> final(self).events() == old(self).events().push(request) && r is None,
            !write_ok ==> final(self).events() == old(self).events() && r == Some(request),
            final(self).commands() == old(self).commands(),
            final(self).subs() == old(self).subs(),
            final(self).error_sink() == old(self).error_sink(),
    {
        if write_ok {
            self.event_queue.push(request);
            None
        } else {
            Some(request)
        }
    }

    /// Installs `handler` as the background-error sink, unconditionally
    /// replacing any previous one: there is at most one subscriber at any
    /// time, and the previous one stops receiving.
    pub fn install_error_handler(&mut self, handler: Option<E>)
        ensures
            final(self).error_sink() == handler,
            final(self).commands() == old(self).commands(),
            final(self).events() == old(self).events(),
            final(self).subs() == old(self).subs(),
    {
        self.error_handler = handler;
    }

    /// Clears the background-error sink; used when a send to it finds it
    /// closed.
    pub fn clear_error_handler(&mut self)
        ensures
            final(self).error_sink() is None,
            final(self).commands() == old(self).commands(),
            final(self).events() == old(self).events(),
            final(self).subs() == old(self).subs(),
    {
        self.error_handler = None;
    }

    /// Borrows the installed background-error sink, if any.
    pub fn error_handler_ref(&self) -> (r: Option<&E>)
        ensures
            match r {
                Some(h) => self.error_sink() == Some(*h),
                None => self.error_sink() is None,
            },
    {
        self.error_handler.as_ref()
    }

    /// How many command requests are on the wire without a terminal
    /// response yet.
    pub fn pending_commands(&self) -> (r: usize)
        ensures
            r == self.commands().len(),
    {
        self.command_queue.len()
    }

    /// How many event (de)registrations are in flight.
    pub fn pending_events(&self) -> (r: usize)
        ensures
            r == self.events().len(),
    {
        self.event_queue.len()
    }

    /// How many subscriptions are live.
    pub fn subscription_count(&self) -> (r: usize)
        ensures
            r == self.subs().len(),
    {
        self.event_subscriptions.len()
    }

    /// Borrows the sink of the subscription at `index`, as handed out by a
    /// [`Routing::SubscriptionDelivery`].
    pub fn subscription_handler(&self, index: usize) -> (r: &H)
        requires
            index < self.subs().len(),
        ensures
            *r == self.subs()[index as int].handler,
    {
        &self.event_subscriptions[index].handler
    }

    /// The index of the subscription for `name`, if one exists.
    fn find_subscription(&self, name: &Vec<u8>) -> (r: Option<usize>)
        requires
            self.wf(),
        ensures
            match r {
                Some(i) => i < self.subs().len() && self.subs()[i as int].event@ == name@,
                None => !has_sub(self.subs(), name@),
            },
    {
        let mut i: usize = 0;
        while i < self.event_subscriptions.len()
            invariant
                i <= self.subs().len(),
                forall|j: int| 0 <= j < i ==> (#[trigger] self.subs()[j]).event@ != name@,
            decreases self.subs().len() - i,
        {
            if names_equal(&self.event_subscriptions[i].event, name) {
                return Some(i);
            }
            i = i + 1;
        }
        None
    }

    /// Removes the subscription for `name`, if one exists.
    fn remove_subscription(&mut self, name: &Vec<u8>)
        requires
            old(self).wf(),
        ensures
            final(self).wf(),
            final(self).subscriptions() == old(self).subscriptions().remove(name@),
            final(self).commands() == old(self).commands(),
            final(self).events() == old(self).events(),
            final(self).error_sink() == old(self).error_sink(),
    {
        match self.find_subscription(name) {
            Some(i) => {
                proof {
                    lemma_sub_map_remove(self.subs(), i as int);
                    lemma_subs_wf_remove(self.subs(), i as int);
                }
                self.event_subscriptions.remove(i);
            },
            None => {
                proof {
                    lemma_sub_map_contains(self.subs(), name@);
                    assert(self.subscriptions().remove(name@) =~= self.subscriptions());
                }
            },
        }
    }

    /// Routes one inbound packet, per the protocol's routing table:
    ///
    /// - `CMD_RESPONSE` / `CMD_UNKNOWN` pop the command FIFO and deliver
    ///   the response (or an unknown-command error) to the popped sink;
    /// - `EVENT_CONFIRM` / `EVENT_UNKNOWN` pop the event FIFO; a confirmed
    ///   unregistration (and, defensively, an unknown unregistration)
    ///   removes the subscription; a confirmed registration takes effect
    ///   only once its delivery succeeds, via [`Listener::finish_register`];
    /// - `EVENT(name)` is delivered to the sink subscribed under `name`
    ///   and to no other;
    /// - anything that matches no pending exchange or subscription, and
    ///   every request type, is an unexpected-packet background error.
    ///
    /// The FIFO head or table entry is consumed exactly as stated whatever
    /// later happens to the delivery; a packet is never re-queued.
    pub fn on_response(&mut self, packet: Packet) -> (r: Routing<H>)
        requires
            old(self).wf(),
        ensures
            final(self).wf(),
            final(self).error_sink() == old(self).error_sink(),
            (packet@.packet_type is CmdResponse && old(self).commands().len() > 0) ==> ({
                &&& r matches Routing::CommandResponse { handler, packet: p }
                &&& handler == old(self).commands()[0]
                &&& p@ == packet@
                &&& final(self).commands() == old(self).commands().subrange(
                    1,
                    old(self).commands().len() as int,
                )
                &&& final(self).events() == old(self).events()
                &&& final(self).subs() == old(self).subs()
            }),
            (packet@.packet_type is CmdUnknown && old(self).commands().len() > 0) ==> ({
                &&& r matches Routing::CommandUnknown { handler, error }
                &&& handler == old(self).commands()[0]
                &&& error.spec_code() == ErrorCode::UnknownCmd
                &&& final(self).commands() == old(self).commands().subrange(
                    1,
                    old(self).commands().len() as int,
                )
                &&& final(self).events() == old(self).events()
                &&& final(self).subs() == old(self).subs()
            }),
            (packet@.packet_type is EventConfirm && old(self).events().len() > 0 && old(self).events()[0].registration == Registration::Register) ==> ({
                &&& r matches Routing::RegisterConfirmed { event, handler, packet: p }
                &&& event@ == old(self).events()[0].event@
                &&& handler == old(self).events()[0].handler
                &&& p@ == packet@
                &&& final(self).events() == old(self).events().subrange(
                    1,
                    old(self).events().len() as int,
                )
                &&& final(self).commands() == old(self).commands()
                &&& final(self).subs() == old(self).subs()
            }),
            (packet@.packet_type is EventConfirm && old(self).events().len() > 0 && old(self).events()[0].registration == Registration::Unregister) ==> ({
                &&& r matches Routing::UnregisterConfirmed { handler, packet: p }
                &&& handler == old(self).events()[0].handler
                &&& p@ == packet@
                &&& final(self).events() == old(self).events().subrange(
                    1,
                    old(self).events().len() as int,
                )
                &&& final(self).commands() == old(self).commands()
                &&& final(self).subscriptions() == old(self).subscriptions().remove(
                    old(self).events()[0].event@,
                )
            }),
            (packet@.packet_type is EventUnknown && old(self).events().len() > 0) ==> ({
                &&& r matches Routing::EventRequestUnknown { handler, error }
                &&& handler == old(self).events()[0].handler
                &&& error.spec_code() matches ErrorCode::UnknownEvent(n) && n@ == old(self).events()[0].event@
                &&& final(self).events() == old(self).events().subrange(
                    1,
                    old(self).events().len() as int,
                )
                &&& final(self).commands() == old(self).commands()
                &&& (old(self).events()[0].registration == Registration::Register ==> final(self).subs() == old(self).subs())
                &&& (old(self).events()[0].registration == Registration::Unregister ==> final(self).subscriptions() == old(self).subscriptions().remove(old(self).events()[0].event@))
            }),
            (packet@.packet_type is Event && old(self).subscriptions().contains_key(
                packet@.packet_type.name()->0,
            )) ==> ({
                &&& r matches Routing::SubscriptionDelivery { index, packet: p }
                &&& p@ == packet@
                &&& index < old(self).subs().len()
                &&& old(self).subs()[index as int].event@ == packet@.packet_type.name()->0
                &&& old(self).subs()[index as int].handler == old(self).subscriptions()[
                    packet@.packet_type.name()->0
                ]
                &&& final(self).commands() == old(self).commands()
                &&& final(self).events() == old(self).events()
                &&& final(self).subs() == old(self).subs()
            }),
            unexpected_inbound(*old(self), packet@.packet_type) ==> ({
                &&& r matches Routing::Background { error }
                &&& error.spec_code() matches ErrorCode::UnexpectedPacket(t) && t@
                    == packet@.packet_type
                &&& final(self).commands() == old(self).commands()
                &&& final(self).events() == old(self).events()
                &&& final(self).subs() == old(self).subs()
            }),
    {
        match packet.packet_type() {
            PacketType::CmdResponse => {
                if self.command_queue.len() > 0 {
                    let handler = self.command_queue.remove(0);
                    Routing::CommandResponse { handler, packet }
                } else {
                    Routing::Background {
                        error: Error::data(ErrorCode::UnexpectedPacket(packet.into_parts().0)),
                    }
                }
            },
            PacketType::CmdUnknown => {
                if self.command_queue.len() > 0 {
                    let handler = self.command_queue.remove(0);
                    Routing::CommandUnknown { handler, error: Error::data(ErrorCode::UnknownCmd) }
                } else {
                    Routing::Background {
                        error: Error::data(ErrorCode::UnexpectedPacket(packet.into_parts().0)),
                    }
                }
            },
            PacketType::EventConfirm => {
                if self.event_queue.len() > 0 {
                    let request = self.event_queue.remove(0);
                    match request.registration {
                        Registration::Register => Routing::RegisterConfirmed {
                            event: request.event,
                            handler: request.handler,
                            packet,
                        },
                        Registration::Unregister => {
                            self.remove_subscription(&request.event);
                            Routing::UnregisterConfirmed { handler: request.handler, packet }
                        },
                    }
                } else {
                    Routing::Background {
                        error: Error::data(ErrorCode::UnexpectedPacket(packet.into_parts().0)),
                    }
                }
            },
            PacketType::EventUnknown => {
                if self.event_queue.len() > 0 {
                    let request = self.event_queue.remove(0);
                    match request.registration {
                        Registration::Register => {},
                        Registration::Unregister => {
                            self.remove_subscription(&request.event);
                        },
                    }
                    Routing::EventRequestUnknown {
                        handler: request.handler,
                        error: Error::data(ErrorCode::UnknownEvent(request.event)),
                    }
                } else {
                    Routing::Background {
                        error: Error::data(ErrorCode::UnexpectedPacket(packet.into_parts().0)),
                    }
                }
            },
            PacketType::Event(name) => {
                match self.find_subscription(name) {
                    Some(index) => {
                        proof {
                            lemma_sub_map_index(self.subs(), index as int);
                        }
                        Routing::SubscriptionDelivery { index, packet }
                    },
                    None => {
                        proof {
                            lemma_sub_map_contains(self.subs(), name@);
                        }
                        Routing::Background {
                            error: Error::data(ErrorCode::UnexpectedPacket(packet.into_parts().0)),
                        }
                    },
                }
            },
            PacketType::CmdRequest(_) => Routing::Background {
                error: Error::data(ErrorCode::UnexpectedPacket(packet.into_parts().0)),
            },
            PacketType::EventRegister(_) => Routing::Background {
                error: Error::data(ErrorCode::UnexpectedPacket(packet.into_parts().0)),
            },
            PacketType::EventUnregister(_) => Routing::Background {
                error: Error::data(ErrorCode::UnexpectedPacket(packet.into_parts().0)),
            },
        }
    }

    /// Completes a confirmed registration once the confirmation's delivery
    /// was attempted.  If it was `delivered`, the subscription table maps
    /// `event` to `handler` from now on; if the sink was found closed the
    /// registration is dropped and a handler-closed-while-streaming
    /// background error comes back.
    pub fn finish_register(&mut self, event: Vec<u8>, handler: H, delivered: bool) -> (r: Result<
        (),
        Error,
    >)
        requires
            old(self).wf(),
        ensures
            final(self).wf(),
            delivered ==> final(self).subscriptions() == old(self).subscriptions().insert(
                event@,
                handler,
            ) && r is Ok,
            !delivered ==> final(self).subs() == old(self).subs(),
            !delivered ==> (r matches Err(e) && e.spec_code() matches
                ErrorCode::HandlerClosedWhileStreaming(t) && t@ is EventConfirm),
            final(self).commands() == old(self).commands(),
            final(self).events() == old(self).events(),
            final(self).error_sink() == old(self).error_sink(),
    {
        if delivered {
            self.remove_subscription(&event);
            proof {
                lemma_sub_map_contains(self.subs(), event@);
                lemma_subs_wf_push(self.subs(), Subscription { event, handler });
                lemma_sub_map_push(self.subs(), Subscription { event, handler });
            }
            self.event_subscriptions.push(Subscription { event, handler });
            proof {
                assert(final(self).subscriptions() =~= old(self).subscriptions().insert(
                    event@,
                    handler,
                ));
            }
            Ok(())
        } else {
            Err(Error::data(ErrorCode::HandlerClosedWhileStreaming(PacketType::EventConfirm)))
        }
    }
}

/// The command FIFO after the first `n` of its sinks have been popped by
/// `n` terminal command responses (each `CMD_RESPONSE` or `CMD_UNKNOWN`
/// pops the front; see [`Listener::on_response`]).
pub open spec fn commands_after<H>(q: Seq<H>, n: int) -> Seq<H>
    recommends
        0 <= n <= q.len(),
{
    q.subrange(n, q.len() as int)
}

/// FIFO preservation: with command sinks enqueued in write order `q` and
/// no overlapping traffic, the sink popped by the `i`-th terminal response
/// — the front of the queue left by the `i` earlier responses — is exactly
/// `q[i]`, and the pop leaves the queue that the `i + 1`-th response will
/// see.
pub proof fn lemma_fifo_preservation<H>(q: Seq<H>, i: int)
    requires
        0 <= i < q.len(),
    ensures
        commands_after(q, i)[0] == q[i],
        commands_after(q, i).subrange(1, commands_after(q, i).len() as int) == commands_after(
            q,
            i + 1,
        ),
{
    assert(commands_after(q, i).subrange(1, commands_after(q, i).len() as int) =~= commands_after(
        q,
        i + 1,
    ));
}

/// Event routing: once a registration of `e` for sink `h` has taken
/// effect, `EVENT(e)` packets go to `h` and to no other sink, and other
/// subscriptions are untouched; once an unregistration of `e` has taken
/// effect, `e` has no subscriber, so an `EVENT(e)` packet is routed as an
/// unexpected-packet background error (see [`Listener::on_response`]).
pub proof fn lemma_event_routing<H>(m: Map<Seq<u8>, H>, e: Seq<u8>, h: H)
    ensures
        m.insert(e, h).contains_key(e),
        m.insert(e, h)[e] == h,
        forall|e2: Seq<u8>|
            e2 != e && #[trigger] m.contains_key(e2) ==> m.insert(e, h).contains_key(e2)
                && m.insert(e, h)[e2] == m[e2],
        !m.remove(e).contains_key(e),
        forall|e2: Seq<u8>|
            e2 != e && #[trigger] m.contains_key(e2) ==> m.remove(e).contains_key(e2) && m.remove(
                e,
            )[e2] == m[e2],
{
}

} // verus!
